//! Changing an operator of the registry: replacing it whole, or changing
//! some of its fields.

use std::sync::Arc;
use vstd::prelude::*;

use crate::app_state::model::{plain_copies, AppState, StoreChange};
use crate::operators::crud_operations::delete::{unknown_tadig, unknown_tadig_error};
use crate::utils::error_responses::{ErrorResponse, ErrorResponseView};
use crate::operators::crud_operations::invariants::{
    lemma_patch_keeps_unique, lemma_put_keeps_unique,
};
use crate::utils::models::{
    identifiers_unique, clone_opt_text, clone_opt_texts, texts_of, views_of, CreateOperator, CreateOperatorView,
    DuplicateCheckerView, Operator, OperatorDuplicateChecker, OperatorView, PatchOperator,
    PatchOperatorView,
};
use crate::utils::search::{first_index, lemma_first_index, shared_position, Lookup, Selector};
use crate::utils::validations::{
    as_opt_slice, country_name_result, determine_updated_codes, find_operator_by_country,
    format_country_name, identifiers_result, invalid_country_error, iso_fields_result,
    patch_fields_result, unit_result_view, updated_codes_result, validate_iso_fields,
    validate_patch_fields, validate_unique_imsi_codes, validate_unique_msisdn_codes,
    validate_unique_operator_name, validate_unique_tadig_codes,
};

verus! {

/// What the checks of a replacement give: the country must be the country
/// of an operator of the list, and the identifiers of the replacement must
/// not be in use by any operator, those of the operator at `target` left
/// out of account.
pub open spec fn update_validations_result(
    ops: Seq<OperatorView>,
    target: int,
    input: CreateOperatorView,
    country: Seq<char>,
) -> Result<(), ErrorResponseView> {
    if first_index(ops, Selector::Country(country)) is None {
        Err(invalid_country_error(country))
    } else {
        identifiers_result(
            DuplicateCheckerView::of_operators(ops).difference(ops[target].identifiers()),
            input.e212,
            input.e164,
            input.name,
            Some(input.tadig_list()),
        )
    }
}

/// Checks a replacement for the operator at `target_index`.
pub fn update_validations(
    all_operators: &[Operator],
    target_index: usize,
    new_operator: &CreateOperator,
    formatted_country: &str,
) -> (r: Result<(), ErrorResponse>)
    requires
        target_index < all_operators@.len(),
    ensures
        unit_result_view(r) == update_validations_result(
            views_of(all_operators@),
            target_index as int,
            new_operator@,
            formatted_country@,
        ),
{
    match find_operator_by_country(all_operators, formatted_country) {
        Ok(_) => {},
        Err(e) => {
            return Err(e);
        },
    }
    let mut checker = OperatorDuplicateChecker::from_operators(all_operators);
    checker.exclude(&all_operators[target_index]);
    match validate_unique_imsi_codes(as_opt_slice(&new_operator.e212), &checker.imsi_prefixes) {
        Ok(_) => {},
        Err(e) => {
            return Err(e);
        },
    }
    match validate_unique_msisdn_codes(as_opt_slice(&new_operator.e164), &checker.msisdn_prefixes) {
        Ok(_) => {},
        Err(e) => {
            return Err(e);
        },
    }
    match validate_unique_operator_name(&new_operator.name, &checker.operator_names) {
        Ok(_) => {},
        Err(e) => {
            return Err(e);
        },
    }
    match &new_operator.tadig {
        Some(codes) => validate_unique_tadig_codes(codes.as_slice(), &checker.tadig_codes),
        None => {
            let none: Vec<String> = Vec::new();
            assert(texts_of(none@) =~= new_operator@.tadig_list());
            validate_unique_tadig_codes(none.as_slice(), &checker.tadig_codes)
        },
    }
}

/// What the replacement of the operator with the TADIG code `target` gives:
/// the index of the operator and its new value. The country of the request
/// is brought into its canonical form first; the operator is then looked for,
/// and the replacement checked against the others.
pub open spec fn put_result(ops: Seq<OperatorView>, target: Seq<char>, input: CreateOperatorView) -> Result<
    (int, OperatorView),
    ErrorResponseView,
> {
    match country_name_result(input.country) {
        Err(e) => Err(e),
        Ok(country) => match first_index(ops, Selector::Tadig(target)) {
            None => Err(unknown_tadig_error(target)),
            Some(index) => match update_validations_result(ops, index, input, country) {
                Err(e) => Err(e),
                Ok(_) => {
                    let k = first_index(ops, Selector::Country(country))->0;
                    Ok((index, input.to_operator(country, ops[k].iso2, ops[k].iso3)))
                },
            },
        },
    }
}

/// Replaces the first operator that has the TADIG code `target_tadig` by
/// the operator that `updated_fields` describes, and gives the new operator
/// back. The registry is left as it was if the request is refused.
pub fn update_operator_by_put(
    state: &mut AppState,
    target_tadig: &str,
    updated_fields: CreateOperator,
) -> (r: Result<Arc<Operator>, ErrorResponse>)
    ensures
        match r {
            Ok(op) => {
                &&& put_result(old(state).records(), target_tadig@, updated_fields@) matches Ok(done)
                &&& done.1 == op@
                &&& 0 <= done.0 < old(state).records().len()
                &&& final(state).records() == old(state).records().update(done.0, op@)
            },
            Err(e) => put_result(old(state).records(), target_tadig@, updated_fields@) == Err::<
                (int, OperatorView),
                ErrorResponseView,
            >(e@) && final(state).records() == old(state).records(),
        },
        identifiers_unique(old(state).records()) ==> identifiers_unique(final(state).records()),
        final(state).mappings_file_path == old(state).mappings_file_path,
        final(state).borders == old(state).borders,
{
    let validated_country = match format_country_name(updated_fields.country.as_str()) {
        Ok(country) => country,
        Err(e) => {
            return Err(e);
        },
    };
    proof {
        lemma_first_index(state.records(), Selector::Tadig(target_tadig@));
        lemma_first_index(state.records(), Selector::Country(validated_country@));
    }
    let operator_index = match shared_position(
        state.operators.as_slice(),
        Lookup::Tadig(target_tadig),
    ) {
        Some(index) => index,
        None => {
            return Err(unknown_tadig(target_tadig));
        },
    };
    let existing_operators = plain_copies(&state.operators);
    match update_validations(
        existing_operators.as_slice(),
        operator_index,
        &updated_fields,
        validated_country.as_str(),
    ) {
        Ok(_) => {},
        Err(e) => {
            return Err(e);
        },
    }
    let (matched_country_iso2, matched_country_iso3) = match find_operator_by_country(
        existing_operators.as_slice(),
        validated_country.as_str(),
    ) {
        Ok(country_operator) => (country_operator.iso2.clone(), country_operator.iso3.clone()),
        Err(e) => {
            return Err(e);
        },
    };
    let fully_updated_operator = Operator::from_create(
        validated_country,
        matched_country_iso2,
        matched_country_iso3,
        updated_fields,
    );
    proof {
        if identifiers_unique(state.records()) {
            lemma_put_keeps_unique(state.records(), target_tadig@, updated_fields@);
        }
    }
    state.mutate(StoreChange::Replace(operator_index, fully_updated_operator.clone()));
    Ok(Arc::new(fully_updated_operator))
}

impl OperatorView {
    /// This operator with the country identity `codes` and with every field
    /// that the patch gives in place of its own.
    pub open spec fn patched(
        self,
        codes: (Seq<char>, Seq<char>, Seq<char>),
        patch: PatchOperatorView,
    ) -> OperatorView {
        OperatorView {
            country: codes.0,
            iso2: codes.1,
            iso3: codes.2,
            e212: if patch.e212 is Some {
                patch.e212
            } else {
                self.e212
            },
            e164: if patch.e164 is Some {
                patch.e164
            } else {
                self.e164
            },
            name: match patch.name {
                Some(name) => name,
                None => self.name,
            },
            realm: if patch.realm is Some {
                patch.realm
            } else {
                self.realm
            },
            tadig: if patch.tadig is Some {
                patch.tadig
            } else {
                self.tadig
            },
        }
    }
}

/// What the patch of the operator with the TADIG code `target` gives: the
/// index of the operator and its new value. The shape of the country codes
/// is checked first and the operator then looked for; its country identity
/// is resolved among all the operators, and the country that results must
/// itself be a well-formed country name; the identifiers of the patch are
/// checked last, against those of the other operators.
pub open spec fn patch_result(ops: Seq<OperatorView>, target: Seq<char>, patch: PatchOperatorView) -> Result<
    (int, OperatorView),
    ErrorResponseView,
> {
    match iso_fields_result(patch) {
        Err(e) => Err(e),
        Ok(_) => match first_index(ops, Selector::Tadig(target)) {
            None => Err(unknown_tadig_error(target)),
            Some(index) => match updated_codes_result(ops, patch, ops[index]) {
                Err(e) => Err(e),
                Ok(codes) => match country_name_result(codes.0) {
                    Err(e) => Err(e),
                    Ok(_) => match patch_fields_result(
                        DuplicateCheckerView::of_operators(ops.remove(index)),
                        patch,
                    ) {
                        Err(e) => Err(e),
                        Ok(_) => Ok((index, ops[index].patched(codes, patch))),
                    },
                },
            },
        },
    }
}

fn apply_patch(current: &Operator, codes: (String, String, String), patch: PatchOperator) -> (r:
    Operator)
    ensures
        r@ == current@.patched((codes.0@, codes.1@, codes.2@), patch@),
{
    Operator {
        country: codes.0,
        iso2: codes.1,
        iso3: codes.2,
        e212: match patch.e212 {
            Some(list) => Some(list),
            None => clone_opt_texts(&current.e212),
        },
        e164: match patch.e164 {
            Some(list) => Some(list),
            None => clone_opt_texts(&current.e164),
        },
        name: match patch.name {
            Some(name) => name,
            None => clone_opt_text(&current.name),
        },
        realm: match patch.realm {
            Some(list) => Some(list),
            None => clone_opt_texts(&current.realm),
        },
        tadig: match patch.tadig {
            Some(list) => Some(list),
            None => clone_opt_texts(&current.tadig),
        },
    }
}

/// Changes the fields that `patch_data` gives of the first operator that
/// has the TADIG code `target_tadig`, and gives the new operator back. The
/// registry is left as it was if the request is refused.
pub fn update_operator_by_patch(
    state: &mut AppState,
    target_tadig: &str,
    patch_data: PatchOperator,
) -> (r: Result<Arc<Operator>, ErrorResponse>)
    ensures
        match r {
            Ok(op) => {
                &&& patch_result(old(state).records(), target_tadig@, patch_data@) matches Ok(done)
                &&& done.1 == op@
                &&& 0 <= done.0 < old(state).records().len()
                &&& final(state).records() == old(state).records().update(done.0, op@)
            },
            Err(e) => patch_result(old(state).records(), target_tadig@, patch_data@) == Err::<
                (int, OperatorView),
                ErrorResponseView,
            >(e@) && final(state).records() == old(state).records(),
        },
        identifiers_unique(old(state).records()) ==> identifiers_unique(final(state).records()),
        final(state).mappings_file_path == old(state).mappings_file_path,
        final(state).borders == old(state).borders,
{
    match validate_iso_fields(&patch_data) {
        Ok(_) => {},
        Err(e) => {
            return Err(e);
        },
    }
    proof {
        lemma_first_index(state.records(), Selector::Tadig(target_tadig@));
    }
    let operator_index = match shared_position(
        state.operators.as_slice(),
        Lookup::Tadig(target_tadig),
    ) {
        Some(index) => index,
        None => {
            return Err(unknown_tadig(target_tadig));
        },
    };
    let mut cloned_plain_operators = plain_copies(&state.operators);
    let ghost all = views_of(cloned_plain_operators@);
    cloned_plain_operators.remove(operator_index);
    proof {
        assert(views_of(cloned_plain_operators@) =~= all.remove(operator_index as int));
    }
    let duplicate_field_checker = OperatorDuplicateChecker::from_operators(
        cloned_plain_operators.as_slice(),
    );
    let codes = match determine_updated_codes(
        state.operators.as_slice(),
        &patch_data,
        &state.operators[operator_index],
    ) {
        Ok(codes) => codes,
        Err(e) => {
            return Err(e);
        },
    };
    match format_country_name(codes.0.as_str()) {
        Ok(_) => {},
        Err(e) => {
            return Err(e);
        },
    }
    match validate_patch_fields(&duplicate_field_checker, &patch_data) {
        Ok(_) => {},
        Err(e) => {
            return Err(e);
        },
    }
    let patched = apply_patch(&state.operators[operator_index], codes, patch_data);
    proof {
        if identifiers_unique(state.records()) {
            lemma_patch_keeps_unique(state.records(), target_tadig@, patch_data@);
        }
    }
    state.mutate(StoreChange::Replace(operator_index, patched.clone()));
    Ok(Arc::new(patched))
}

} // verus!
