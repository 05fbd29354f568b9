//! The roaming partners of an operator: the operators of the countries that
//! border its own.

use vstd::prelude::*;
use vstd::string::*;

use crate::app_state::model::{entry_index, AppState, BorderEntryView, CountryBordersMap};
use crate::utils::error_responses::{ErrorResponse, ErrorResponseView};
use crate::utils::models::{
    clone_texts, texts_of, views_of, Operator, OperatorView, RoamingPartnersResult,
};
use crate::utils::search::{
    first_index, lemma_first_index, position, select, selected, Lookup, Selector,
};
use crate::utils::text::{
    append_decimal, contains, decimal_of, is_substring, lowercase_of, to_lowercase,
};
use crate::utils::validations::not_found_error;

verus! {

/// The error for a TADIG code that no operator has, in either case.
pub open spec fn unknown_partner_tadig_error(tadig: Seq<char>) -> ErrorResponseView {
    not_found_error("tadig"@, tadig, "an existing TADIG"@)
}

/// The country of the first operator that has the TADIG code
/// `requested_tadig`, compared without regard to the case of ASCII letters.
pub fn find_base_country_by_tadig(operators: &[Operator], requested_tadig: &str) -> (r: Result<
    String,
    ErrorResponse,
>)
    ensures
        match r {
            Ok(country) => first_index(
                views_of(operators@),
                Selector::TadigAnyCase(requested_tadig@),
            ) matches Some(k) && country@ == views_of(operators@)[k].country,
            Err(e) => first_index(views_of(operators@), Selector::TadigAnyCase(requested_tadig@))
                is None && e@ == unknown_partner_tadig_error(requested_tadig@),
        },
{
    proof {
        lemma_first_index(views_of(operators@), Selector::TadigAnyCase(requested_tadig@));
    }
    match position(operators, Lookup::TadigAnyCase(requested_tadig)) {
        Some(k) => Ok(operators[k].country.clone()),
        None => Err(
            ErrorResponse::NotFound {
                field: String::from_str("tadig"),
                received: String::from_str(requested_tadig),
                expected: String::from_str("an existing TADIG"),
            },
        ),
    }
}

/// The index of the first entry at or after `i` whose country, in lower
/// case, occurs in `lowered`.
pub open spec fn held_entry_index_from(table: Seq<BorderEntryView>, lowered: Seq<char>, i: int) -> Option<
    int,
>
    decreases table.len() - i,
{
    if i < 0 || i >= table.len() {
        None
    } else if is_substring(lowercase_of(table[i].country), lowered) {
        Some(i)
    } else {
        held_entry_index_from(table, lowered, i + 1)
    }
}

/// The error for a country that the table of borders does not know.
pub open spec fn unknown_border_country_error(country: Seq<char>) -> ErrorResponseView {
    ErrorResponseView::BorderCountryNotFound {
        field: "country"@,
        received: country,
        expected: "a country with known borders"@,
    }
}

/// The neighbours of a country: those of its own entry if it has one; else
/// those of the first entry whose country, in lower case, occurs in the
/// lower-case form of the country's name.
pub open spec fn neighbors_result(table: Seq<BorderEntryView>, country: Seq<char>) -> Result<
    Seq<Seq<char>>,
    ErrorResponseView,
> {
    match entry_index(table, country) {
        Some(k) => Ok(table[k].neighbors),
        None => match held_entry_index_from(table, lowercase_of(country), 0) {
            Some(k) => Ok(table[k].neighbors),
            None => Err(unknown_border_country_error(country)),
        },
    }
}

/// What a `Result` of a list of names or an error stands for.
pub open spec fn names_result_view(r: Result<Vec<String>, ErrorResponse>) -> Result<
    Seq<Seq<char>>,
    ErrorResponseView,
> {
    match r {
        Ok(names) => Ok(texts_of(names@)),
        Err(e) => Err(e@),
    }
}

/// The neighbours of `base_country` in the table of borders.
pub fn lookup_neighbor_names(borders_map: &CountryBordersMap, base_country: &str) -> (r: Result<
    Vec<String>,
    ErrorResponse,
>)
    ensures
        names_result_view(r) == neighbors_result(borders_map@, base_country@),
{
    if let Some(neighbors) = borders_map.get(base_country) {
        return Ok(clone_texts(neighbors));
    }
    let lc_base = to_lowercase(base_country);
    let mut i: usize = 0;
    while i < borders_map.entries.len()
        invariant
            i <= borders_map.entries@.len(),
            lc_base@ == lowercase_of(base_country@),
            entry_index(borders_map@, base_country@) is None,
            held_entry_index_from(borders_map@, lc_base@, 0) == held_entry_index_from(
                borders_map@,
                lc_base@,
                i as int,
            ),
        decreases borders_map.entries@.len() - i,
    {
        let entry = &borders_map.entries[i];
        assert(borders_map@[i as int] == entry@);
        let csv_country = to_lowercase(entry.country.as_str());
        if contains(lc_base.as_str(), csv_country.as_str()) {
            return Ok(clone_texts(&entry.neighbors));
        }
        i += 1;
    }
    Err(
        ErrorResponse::BorderCountryNotFound {
            field: String::from_str("country"),
            received: String::from_str(base_country),
            expected: String::from_str("a country with known borders"),
        },
    )
}

/// A copy of each operator whose country, in lower case, holds one of the
/// names, in the order of the list.
pub fn collect_partners_by_country(operators: &[Operator], neighbor_names_lc: &[String]) -> (r: Vec<
    Operator,
>)
    ensures
        views_of(r@) == selected(
            views_of(operators@),
            Selector::CountryHoldsAny(texts_of(neighbor_names_lc@)),
        ),
{
    select(operators, Lookup::CountryHoldsAny(neighbor_names_lc))
}

/// Each name in lower case.
pub open spec fn lowercased(names: Seq<Seq<char>>) -> Seq<Seq<char>> {
    Seq::new(names.len(), |i: int| lowercase_of(names[i]))
}

fn lowercase_all(names: &Vec<String>) -> (r: Vec<String>)
    ensures
        texts_of(r@) == lowercased(texts_of(names@)),
{
    let mut r: Vec<String> = Vec::new();
    let mut i: usize = 0;
    while i < names.len()
        invariant
            i <= names.len(),
            r@.len() == i,
            forall|j: int| 0 <= j < i ==> (#[trigger] r@[j])@ == lowercase_of(names@[j]@),
        decreases names.len() - i,
    {
        r.push(to_lowercase(names[i].as_str()));
        i += 1;
    }
    proof {
        assert(texts_of(r@) =~= lowercased(texts_of(names@)));
    }
    r
}

/// The message that counts the partners.
pub open spec fn partners_message(count: nat) -> Seq<char> {
    "Found "@ + decimal_of(count) + " roaming partners"@
}

/// What the question for the roaming partners of a TADIG code gives: the
/// names of the neighbouring countries and the partners. The operator is
/// looked for without regard to the case of the code; the neighbours are
/// those of its country; the partners are the operators whose country, in
/// lower case, holds the lower-case name of a neighbour.
pub open spec fn roaming_partners_result(
    ops: Seq<OperatorView>,
    table: Seq<BorderEntryView>,
    tadig: Seq<char>,
) -> Result<(Seq<Seq<char>>, Seq<OperatorView>), ErrorResponseView> {
    match first_index(ops, Selector::TadigAnyCase(tadig)) {
        None => Err(unknown_partner_tadig_error(tadig)),
        Some(k) => match neighbors_result(table, ops[k].country) {
            Err(e) => Err(e),
            Ok(neighbors) => Ok(
                (neighbors, selected(ops, Selector::CountryHoldsAny(lowercased(neighbors)))),
            ),
        },
    }
}

/// What a `Result` of roaming partners or an error stands for: the names
/// of the neighbouring countries and the partners, or the error.
pub open spec fn partners_result_view(r: Result<RoamingPartnersResult, ErrorResponse>) -> Result<
    (Seq<Seq<char>>, Seq<OperatorView>),
    ErrorResponseView,
> {
    match r {
        Ok(found) => Ok((texts_of(found.bordering_countries@), views_of(found.partners@))),
        Err(e) => Err(e@),
    }
}

/// The roaming partners of the operator that has the TADIG code
/// `requested_tadig`, with the countries that border its own and a message
/// that counts the partners.
pub fn find_roaming_partners(state: &AppState, requested_tadig: &str) -> (r: Result<
    RoamingPartnersResult,
    ErrorResponse,
>)
    ensures
        partners_result_view(r) == roaming_partners_result(
            state.records(),
            state.borders@,
            requested_tadig@,
        ),
        r matches Ok(found) ==> found.message@ == partners_message(found.partners@.len()),
{
    let operators_list = state.snapshot();
    let base_country = match find_base_country_by_tadig(
        operators_list.as_slice(),
        requested_tadig,
    ) {
        Ok(country) => country,
        Err(e) => {
            return Err(e);
        },
    };
    let neighbor_names = match lookup_neighbor_names(&state.borders, base_country.as_str()) {
        Ok(names) => names,
        Err(e) => {
            return Err(e);
        },
    };
    let neighbor_names_lc = lowercase_all(&neighbor_names);
    let partners = collect_partners_by_country(
        operators_list.as_slice(),
        neighbor_names_lc.as_slice(),
    );
    let mut message = String::from_str("Found ");
    append_decimal(&mut message, partners.len());
    message.append(" roaming partners");
    Ok(RoamingPartnersResult { message, bordering_countries: neighbor_names, partners })
}

} // verus!
