//! The operators of one country, found by its three-letter code.

use vstd::prelude::*;
use vstd::string::*;

use crate::app_state::model::AppState;
use crate::utils::error_responses::{ErrorResponse, ErrorResponseView};
use crate::utils::models::{views_of, GroupOperatorsSummary, OperatorView};
use crate::utils::search::{select_shared, selected, Lookup, Selector};
use crate::utils::text::{to_uppercase, uppercase_of};
use crate::utils::validations::{iso3_code_result, not_found_error, validate_iso3_code};

verus! {

/// What the question for the operators of a country code gives: the code
/// must be made of three ASCII letters, and some operator must have it,
/// compared without regard to case.
pub open spec fn country_mapping_result(ops: Seq<OperatorView>, iso3: Seq<char>) -> Result<
    Seq<OperatorView>,
    ErrorResponseView,
> {
    match iso3_code_result("iso3"@, iso3) {
        Err(e) => Err(ErrorResponseView::Validation(e)),
        Ok(_) => {
            let matches = selected(ops, Selector::Iso3AnyCase(iso3));
            if matches.len() == 0 {
                Err(not_found_error("iso3"@, iso3, "an existing ISO3 code"@))
            } else {
                Ok(matches)
            }
        },
    }
}

/// What a `Result` of a summary or an error stands for: the operators of
/// the summary, or the error.
pub open spec fn summary_result_view(r: Result<GroupOperatorsSummary, ErrorResponse>) -> Result<
    Seq<OperatorView>,
    ErrorResponseView,
> {
    match r {
        Ok(summary) => Ok(views_of(summary.operators@)),
        Err(e) => Err(e@),
    }
}

/// The operators whose three-letter country code is `iso3_param`, compared
/// without regard to case, in the order of the registry; the summary names
/// the code in upper case and counts the operators.
pub fn get_country_operator_mapping(state: &AppState, iso3_param: &str) -> (r: Result<
    GroupOperatorsSummary,
    ErrorResponse,
>)
    ensures
        summary_result_view(r) == country_mapping_result(state.records(), iso3_param@),
        r matches Ok(summary) ==> summary.iso3@ == uppercase_of(iso3_param@) && summary.total
            == summary.operators@.len(),
{
    match validate_iso3_code("iso3", iso3_param) {
        Ok(_) => {},
        Err(e) => {
            return Err(ErrorResponse::Validation(e));
        },
    }
    let matches = select_shared(state.operators.as_slice(), Lookup::Iso3AnyCase(iso3_param));
    if matches.len() == 0 {
        return Err(
            ErrorResponse::NotFound {
                field: String::from_str("iso3"),
                received: String::from_str(iso3_param),
                expected: String::from_str("an existing ISO3 code"),
            },
        );
    }
    Ok(
        GroupOperatorsSummary {
            iso3: to_uppercase(iso3_param),
            total: matches.len(),
            operators: matches,
        },
    )
}

} // verus!
