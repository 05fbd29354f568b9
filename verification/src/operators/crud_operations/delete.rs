//! Taking an operator out of the registry.

use std::sync::Arc;
use vstd::prelude::*;
use vstd::string::*;

use crate::app_state::model::{swap_removed, AppState, StoreChange};
use crate::operators::crud_operations::invariants::lemma_delete_keeps_unique;
use crate::utils::error_responses::{ErrorResponse, ErrorResponseView};
use crate::utils::models::{identifiers_unique, Operator};
use crate::utils::search::{first_index, lemma_first_index, shared_position, Lookup, Selector};
use crate::utils::validations::not_found_error;

verus! {

/// The error for a TADIG code that no operator of the registry has.
pub open spec fn unknown_tadig_error(tadig: Seq<char>) -> ErrorResponseView {
    not_found_error("tadig"@, tadig, "an existing TADIG code"@)
}

/// The error for a TADIG code that no operator of the registry has.
pub fn unknown_tadig(tadig: &str) -> (e: ErrorResponse)
    ensures
        e@ == unknown_tadig_error(tadig@),
{
    ErrorResponse::NotFound {
        field: String::from_str("tadig"),
        received: String::from_str(tadig),
        expected: String::from_str("an existing TADIG code"),
    }
}

/// Removes the first operator that has the TADIG code `tadig_code`, letter
/// for letter, and gives it back; the last operator of the registry takes
/// its place. The registry is left as it was if no operator has the code.
pub fn delete_operator(state: &mut AppState, tadig_code: &str) -> (r: Result<
    Arc<Operator>,
    ErrorResponse,
>)
    ensures
        match r {
            Ok(op) => {
                &&& first_index(old(state).records(), Selector::Tadig(tadig_code@)) matches Some(k)
                &&& 0 <= k < old(state).records().len()
                &&& op@ == old(state).records()[k]
                &&& final(state).records() == swap_removed(old(state).records(), k)
            },
            Err(e) => {
                &&& first_index(old(state).records(), Selector::Tadig(tadig_code@)) is None
                &&& e@ == unknown_tadig_error(tadig_code@)
                &&& final(state).records() == old(state).records()
            },
        },
        identifiers_unique(old(state).records()) ==> identifiers_unique(final(state).records()),
        final(state).mappings_file_path == old(state).mappings_file_path,
        final(state).borders == old(state).borders,
{
    proof {
        lemma_first_index(state.records(), Selector::Tadig(tadig_code@));
    }
    match shared_position(state.operators.as_slice(), Lookup::Tadig(tadig_code)) {
        Some(operator_index) => {
            proof {
                if identifiers_unique(state.records()) {
                    lemma_delete_keeps_unique(state.records(), operator_index as int);
                }
            }
            match state.mutate(StoreChange::Remove(operator_index)) {
                Some(removed_operator) => Ok(removed_operator),
                None => Err(unknown_tadig(tadig_code)),
            }
        },
        None => Err(unknown_tadig(tadig_code)),
    }
}

} // verus!
