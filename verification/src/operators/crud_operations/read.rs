//! Looking one operator up by an IMSI, an MSISDN or a TADIG code.

use std::sync::Arc;
use vstd::prelude::*;

use crate::app_state::model::AppState;
use crate::utils::error_responses::{ErrorResponse, ErrorResponseView};
use crate::utils::models::{
    opt_texts_of, texts_of, views_of, Operator, OperatorView, QueryType, SubscriberIdKind,
};
use crate::utils::search::{
    first_index, index_view, lemma_first_index, position, Lookup, Selector,
};
use crate::utils::text::{
    all_digits, common_prefix_len, common_prefix_length, to_uppercase, trim, trimmed,
    uppercase_of,
};
use crate::utils::validations::validate_digits;

verus! {

/// The longest common prefix that `value` has with any of the first `n`
/// prefixes.
pub open spec fn best_prefix_upto(prefixes: Seq<Seq<char>>, value: Seq<char>, n: int) -> nat
    decreases n,
{
    if n <= 0 {
        0
    } else {
        let rest = best_prefix_upto(prefixes, value, n - 1);
        let here = common_prefix_len(prefixes[n - 1], value);
        if here > rest {
            here
        } else {
            rest
        }
    }
}

/// The score of a list of prefixes against `value`: the longest common
/// prefix that `value` has with any of them, and 0 without a list.
pub open spec fn prefix_score(prefixes: Option<Seq<Seq<char>>>, value: Seq<char>) -> nat {
    match prefixes {
        Some(list) => best_prefix_upto(list, value, list.len() as int),
        None => 0,
    }
}

/// The score of a list of prefixes is the common prefix with one of them and
/// no less than the common prefix with any.
pub proof fn lemma_best_prefix(prefixes: Seq<Seq<char>>, value: Seq<char>, n: int)
    requires
        0 <= n <= prefixes.len(),
    ensures
        forall|j: int|
            0 <= j < n ==> common_prefix_len(#[trigger] prefixes[j], value) <= best_prefix_upto(
                prefixes,
                value,
                n,
            ),
        n > 0 ==> exists|j: int|
            0 <= j < n && common_prefix_len(#[trigger] prefixes[j], value) == best_prefix_upto(
                prefixes,
                value,
                n,
            ),
        n == 0 ==> best_prefix_upto(prefixes, value, n) == 0,
    decreases n,
{
    if n > 0 {
        lemma_best_prefix(prefixes, value, n - 1);
        let rest = best_prefix_upto(prefixes, value, n - 1);
        let here = common_prefix_len(prefixes[n - 1], value);
        if here > rest || n == 1 {
            assert(common_prefix_len(prefixes[n - 1], value) == best_prefix_upto(
                prefixes,
                value,
                n,
            ));
        } else {
            let j = choose|j: int|
                0 <= j < n - 1 && common_prefix_len(#[trigger] prefixes[j], value) == rest;
            assert(common_prefix_len(prefixes[j], value) == best_prefix_upto(prefixes, value, n));
        }
    }
}

/// The score of a list of prefixes against `lookup_value`.
pub fn best_prefix_length(prefixes: &Option<Vec<String>>, lookup_value: &str) -> (best: usize)
    ensures
        best == prefix_score(opt_texts_of(*prefixes), lookup_value@),
{
    match prefixes {
        Some(list) => {
            let ghost t = texts_of(list@);
            let mut best: usize = 0;
            let mut i: usize = 0;
            while i < list.len()
                invariant
                    i <= list.len(),
                    t == texts_of(list@),
                    best == best_prefix_upto(t, lookup_value@, i as int),
                decreases list.len() - i,
            {
                assert(t[i as int] == list@[i as int]@);
                let here = common_prefix_length(list[i].as_str(), lookup_value);
                if here > best {
                    best = here;
                }
                i += 1;
            }
            best
        },
        None => 0,
    }
}

impl OperatorView {
    /// The prefixes by which an identifier of the given kind is matched:
    /// the IMSI prefixes for an IMSI, the MSISDN prefixes for an MSISDN.
    pub open spec fn prefixes_of(self, kind: SubscriberIdKind) -> Option<Seq<Seq<char>>> {
        match kind {
            SubscriberIdKind::Imsi => self.e212,
            SubscriberIdKind::Msisdn => self.e164,
        }
    }
}

/// The score of the operator at `i` against `value`.
pub open spec fn score_at(
    ops: Seq<OperatorView>,
    kind: SubscriberIdKind,
    value: Seq<char>,
    i: int,
) -> nat {
    prefix_score(ops[i].prefixes_of(kind), value)
}

/// The operator at `k` is the match of `value`: its score is above 0, no
/// operator has a higher score, and every operator before it has a lower one.
pub open spec fn is_best_match(
    ops: Seq<OperatorView>,
    kind: SubscriberIdKind,
    value: Seq<char>,
    k: int,
) -> bool {
    &&& 0 <= k < ops.len()
    &&& score_at(ops, kind, value, k) > 0
    &&& forall|j: int|
        0 <= j < ops.len() ==> #[trigger] score_at(ops, kind, value, j) <= score_at(
            ops,
            kind,
            value,
            k,
        )
    &&& forall|j: int|
        0 <= j < k ==> #[trigger] score_at(ops, kind, value, j) < score_at(ops, kind, value, k)
}

/// No operator shares a leading character with `value`.
pub open spec fn no_match(ops: Seq<OperatorView>, kind: SubscriberIdKind, value: Seq<char>) -> bool {
    forall|j: int| 0 <= j < ops.len() ==> #[trigger] score_at(ops, kind, value, j) == 0
}

/// The index of the match of `value` among the first `n` operators.
pub open spec fn best_match_upto(
    ops: Seq<OperatorView>,
    kind: SubscriberIdKind,
    value: Seq<char>,
    n: int,
) -> Option<int>
    decreases n,
{
    if n <= 0 {
        None
    } else {
        let here = score_at(ops, kind, value, n - 1);
        match best_match_upto(ops, kind, value, n - 1) {
            Some(k) => if here > score_at(ops, kind, value, k) {
                Some(n - 1)
            } else {
                Some(k)
            },
            None => if here > 0 {
                Some(n - 1)
            } else {
                None
            },
        }
    }
}

/// The index of the match of `value` in the whole list.
pub open spec fn best_match(
    ops: Seq<OperatorView>,
    kind: SubscriberIdKind,
    value: Seq<char>,
) -> Option<int> {
    best_match_upto(ops, kind, value, ops.len() as int)
}

/// The match among the first `n` operators is the first of them with the
/// highest score, and there is none exactly if all their scores are 0.
pub proof fn lemma_best_match_upto(
    ops: Seq<OperatorView>,
    kind: SubscriberIdKind,
    value: Seq<char>,
    n: int,
)
    requires
        0 <= n <= ops.len(),
    ensures
        match best_match_upto(ops, kind, value, n) {
            Some(k) => is_best_match(ops.take(n), kind, value, k),
            None => no_match(ops.take(n), kind, value),
        },
    decreases n,
{
    if n > 0 {
        lemma_best_match_upto(ops, kind, value, n - 1);
        let a = ops.take(n - 1);
        let b = ops.take(n);
        assert forall|j: int| 0 <= j < n - 1 implies #[trigger] score_at(b, kind, value, j)
            == score_at(a, kind, value, j) by {
            assert(a[j] == b[j]);
        }
        assert(score_at(b, kind, value, n - 1) == score_at(ops, kind, value, n - 1));
        match best_match_upto(ops, kind, value, n - 1) {
            Some(k) => {
                assert(score_at(a, kind, value, k) == score_at(ops, kind, value, k));
                assert(score_at(b, kind, value, k) == score_at(a, kind, value, k));
            },
            None => {},
        }
    }
}

/// The match of a value is the first operator with the highest score above
/// 0, and there is none exactly if no operator shares a leading character
/// with the value.
pub proof fn lemma_best_match(ops: Seq<OperatorView>, kind: SubscriberIdKind, value: Seq<char>)
    ensures
        match best_match(ops, kind, value) {
            Some(k) => is_best_match(ops, kind, value, k),
            None => no_match(ops, kind, value),
        },
{
    lemma_best_match_upto(ops, kind, value, ops.len() as int);
    assert(ops.take(ops.len() as int) =~= ops);
}

/// The position of the operator whose prefixes of the given kind share the
/// longest leading run of characters with `lookup_value`. An operator that
/// shares no leading character is never the match; of several operators
/// with the longest run, the first is.
pub fn longest_prefix_match_position(
    operator_list: &[Operator],
    kind: SubscriberIdKind,
    lookup_value: &str,
) -> (r: Option<usize>)
    ensures
        index_view(r) == best_match(
            views_of(operator_list@),
            kind,
            lookup_value@,
        ),
{
    let ghost v = views_of(operator_list@);
    let mut found: Option<usize> = None;
    let mut found_score: usize = 0;
    let mut i: usize = 0;
    while i < operator_list.len()
        invariant
            i <= operator_list.len(),
            v == views_of(operator_list@),
            index_view(found) == best_match_upto(
                v,
                kind,
                lookup_value@,
                i as int,
            ),
            found matches Some(k) ==> k < i && found_score == score_at(
                v,
                kind,
                lookup_value@,
                k as int,
            ),
            found is None ==> found_score == 0,
        decreases operator_list.len() - i,
    {
        let op = &operator_list[i];
        let here = match kind {
            SubscriberIdKind::Imsi => best_prefix_length(&op.e212, lookup_value),
            SubscriberIdKind::Msisdn => best_prefix_length(&op.e164, lookup_value),
        };
        assert(here == score_at(v, kind, lookup_value@, i as int));
        if here > found_score {
            found = Some(i);
            found_score = here;
        }
        i += 1;
    }
    found
}

/// The operator whose prefixes of the given kind share the longest leading
/// run of characters with `lookup_value`.
pub fn find_operator_with_longest_prefix_match<'a>(
    operator_list: &'a [Operator],
    kind: SubscriberIdKind,
    lookup_value: &str,
) -> (r: Option<&'a Operator>)
    ensures
        match r {
            Some(op) => best_match(views_of(operator_list@), kind, lookup_value@) matches Some(k)
                && 0 <= k < operator_list@.len() && *op == operator_list@[k],
            None => best_match(views_of(operator_list@), kind, lookup_value@) is None,
        },
{
    proof {
        lemma_best_match(views_of(operator_list@), kind, lookup_value@);
    }
    match longest_prefix_match_position(operator_list, kind, lookup_value) {
        Some(k) => Some(&operator_list[k]),
        None => None,
    }
}

/// The first operator that has the TADIG code `tadig_code`, letter for
/// letter.
pub fn find_operator_by_tadig_exact_match<'a>(operator_list: &'a [Operator], tadig_code: &str) -> (r:
    Option<&'a Operator>)
    ensures
        match r {
            Some(op) => first_index(views_of(operator_list@), Selector::Tadig(tadig_code@))
                matches Some(k) && 0 <= k < operator_list@.len() && *op == operator_list@[k],
            None => first_index(views_of(operator_list@), Selector::Tadig(tadig_code@)) is None,
        },
{
    proof {
        lemma_first_index(views_of(operator_list@), Selector::Tadig(tadig_code@));
    }
    match position(operator_list, Lookup::Tadig(tadig_code)) {
        Some(k) => Some(&operator_list[k]),
        None => None,
    }
}

/// The field name under which a query of the given kind reports a value
/// that is not made of digits.
pub open spec fn query_field(kind: SubscriberIdKind) -> Seq<char> {
    match kind {
        SubscriberIdKind::Imsi => "imsi"@,
        SubscriberIdKind::Msisdn => "msisdn"@,
    }
}

/// What a lookup by an IMSI or an MSISDN gives: the query is trimmed and
/// must be made of digits alone; the answer is the index of its match.
pub open spec fn prefix_lookup_result(
    ops: Seq<OperatorView>,
    kind: SubscriberIdKind,
    query: Seq<char>,
) -> Result<Option<int>, ErrorResponseView> {
    let value = trimmed(query);
    if all_digits(value) {
        Ok(best_match(ops, kind, value))
    } else {
        Err(ErrorResponseView::Validation(kind.error_view(query_field(kind), value)))
    }
}

/// What a lookup gives: the index of the operator found, if any. A TADIG
/// code is trimmed and upper-cased and then looked for letter for letter; a
/// lookup by country code finds nothing.
pub open spec fn lookup_result(ops: Seq<OperatorView>, query: Seq<char>, query_type: QueryType) -> Result<
    Option<int>,
    ErrorResponseView,
> {
    match query_type {
        QueryType::Imsi => prefix_lookup_result(ops, SubscriberIdKind::Imsi, query),
        QueryType::Msisdn => prefix_lookup_result(ops, SubscriberIdKind::Msisdn, query),
        QueryType::Tadig => Ok(first_index(ops, Selector::Tadig(uppercase_of(trimmed(query))))),
        QueryType::Iso3 => Ok(None),
    }
}

fn lookup_by_prefix(flat: &[Operator], kind: SubscriberIdKind, field: &str, query_text: &str) -> (r:
    Result<Option<Arc<Operator>>, ErrorResponse>)
    requires
        field@ == query_field(kind),
    ensures
        match r {
            Ok(Some(op)) => prefix_lookup_result(views_of(flat@), kind, query_text@) matches Ok(
                Some(k),
            ) && 0 <= k < flat@.len() && op@ == views_of(flat@)[k],
            Ok(None) => prefix_lookup_result(views_of(flat@), kind, query_text@) == Ok::<
                Option<int>,
                ErrorResponseView,
            >(None),
            Err(e) => prefix_lookup_result(views_of(flat@), kind, query_text@) == Err::<
                Option<int>,
                ErrorResponseView,
            >(e@),
        },
{
    let value = trim(query_text);
    match validate_digits(kind, field, value) {
        Ok(_) => {},
        Err(e) => {
            return Err(ErrorResponse::Validation(e));
        },
    }
    match find_operator_with_longest_prefix_match(flat, kind, value) {
        Some(op) => Ok(Some(Arc::new(op.clone()))),
        None => Ok(None),
    }
}

/// Looks one operator up: by the longest prefix that an IMSI or an MSISDN
/// shares with it, or by a TADIG code. The answer is a copy of the operator.
pub fn lookup_operator_by_query(state: &AppState, query_text: &str, query_type: QueryType) -> (r:
    Result<Option<Arc<Operator>>, ErrorResponse>)
    ensures
        match r {
            Ok(Some(op)) => lookup_result(state.records(), query_text@, query_type) matches Ok(
                Some(k),
            ) && 0 <= k < state.records().len() && op@ == state.records()[k],
            Ok(None) => lookup_result(state.records(), query_text@, query_type) == Ok::<
                Option<int>,
                ErrorResponseView,
            >(None),
            Err(e) => lookup_result(state.records(), query_text@, query_type) == Err::<
                Option<int>,
                ErrorResponseView,
            >(e@),
        },
{
    let flat = state.snapshot();
    match query_type {
        QueryType::Imsi => lookup_by_prefix(
            flat.as_slice(),
            SubscriberIdKind::Imsi,
            "imsi",
            query_text,
        ),
        QueryType::Msisdn => lookup_by_prefix(
            flat.as_slice(),
            SubscriberIdKind::Msisdn,
            "msisdn",
            query_text,
        ),
        QueryType::Tadig => {
            let code = to_uppercase(trim(query_text));
            match find_operator_by_tadig_exact_match(flat.as_slice(), code.as_str()) {
                Some(op) => Ok(Some(Arc::new(op.clone()))),
                None => Ok(None),
            }
        },
        QueryType::Iso3 => Ok(None),
    }
}

} // verus!
