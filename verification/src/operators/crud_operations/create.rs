//! Adding an operator to the registry.

use std::sync::Arc;
use vstd::prelude::*;

use crate::app_state::model::{AppState, StoreChange};
use crate::operators::crud_operations::invariants::lemma_create_keeps_unique;
use crate::utils::error_responses::{ErrorResponse, ErrorResponseView};
use crate::utils::models::{
    identifiers_unique, texts_of, views_of, CreateOperator, CreateOperatorView, DuplicateCheckerView, Operator,
    OperatorDuplicateChecker, OperatorView,
};
use crate::utils::search::{first_index, Selector};
use crate::utils::validations::{
    as_opt_slice, country_name_result, find_operator_by_country, format_country_name, identifiers_result,
    invalid_country_error, unit_result_view, validate_unique_imsi_codes,
    validate_unique_msisdn_codes, validate_unique_operator_name, validate_unique_tadig_codes,
};

verus! {

/// Checks the identifiers of a new operator against those of `operators`.
pub fn validate_create_input(operators: &[Operator], input: &CreateOperator, country: &str) -> (r:
    Result<(), ErrorResponse>)
    ensures
        unit_result_view(r) == identifiers_result(
            DuplicateCheckerView::of_operators(views_of(operators@)),
            input@.e212,
            input@.e164,
            input@.name,
            Some(input@.tadig_list()),
        ),
{
    let existing = OperatorDuplicateChecker::from_operators(operators);
    match validate_unique_imsi_codes(as_opt_slice(&input.e212), &existing.imsi_prefixes) {
        Ok(_) => {},
        Err(e) => {
            return Err(e);
        },
    }
    match validate_unique_msisdn_codes(as_opt_slice(&input.e164), &existing.msisdn_prefixes) {
        Ok(_) => {},
        Err(e) => {
            return Err(e);
        },
    }
    match validate_unique_operator_name(&input.name, &existing.operator_names) {
        Ok(_) => {},
        Err(e) => {
            return Err(e);
        },
    }
    match &input.tadig {
        Some(codes) => validate_unique_tadig_codes(codes.as_slice(), &existing.tadig_codes),
        None => {
            let none: Vec<String> = Vec::new();
            assert(texts_of(none@) =~= input@.tadig_list());
            validate_unique_tadig_codes(none.as_slice(), &existing.tadig_codes)
        },
    }
}

/// What the creation of an operator gives in a registry that holds `ops`.
/// The country of the request is brought into its canonical form and must
/// be the country of an operator of the registry, whose two codes the new
/// operator takes; the identifiers of the request are then checked against
/// those in use.
pub open spec fn create_result(ops: Seq<OperatorView>, input: CreateOperatorView) -> Result<
    OperatorView,
    ErrorResponseView,
> {
    match country_name_result(input.country) {
        Err(e) => Err(e),
        Ok(country) => match first_index(ops, Selector::Country(country)) {
            None => Err(invalid_country_error(country)),
            Some(k) => match identifiers_result(
                DuplicateCheckerView::of_operators(ops),
                input.e212,
                input.e164,
                input.name,
                Some(input.tadig_list()),
            ) {
                Err(e) => Err(e),
                Ok(_) => Ok(input.to_operator(country, ops[k].iso2, ops[k].iso3)),
            },
        },
    }
}

/// What a `Result` of an operator or an error stands for.
pub open spec fn operator_result_view(r: Result<Arc<Operator>, ErrorResponse>) -> Result<
    OperatorView,
    ErrorResponseView,
> {
    match r {
        Ok(op) => Ok(op@),
        Err(e) => Err(e@),
    }
}

/// Adds the operator that `input` describes at the end of the registry, and
/// gives it back. The registry is left as it was if the request is refused.
pub fn create_operator(app_data: &mut AppState, input: CreateOperator) -> (r: Result<
    Arc<Operator>,
    ErrorResponse,
>)
    ensures
        operator_result_view(r) == create_result(old(app_data).records(), input@),
        final(app_data).records() == match r {
            Ok(op) => old(app_data).records().push(op@),
            Err(_) => old(app_data).records(),
        },
        identifiers_unique(old(app_data).records()) ==> identifiers_unique(
            final(app_data).records(),
        ),
        final(app_data).mappings_file_path == old(app_data).mappings_file_path,
        final(app_data).borders == old(app_data).borders,
{
    let country = match format_country_name(input.country.as_str()) {
        Ok(country) => country,
        Err(e) => {
            return Err(e);
        },
    };
    let cloned_operator_list = app_data.snapshot();
    let (iso2, iso3) = match find_operator_by_country(
        cloned_operator_list.as_slice(),
        country.as_str(),
    ) {
        Ok(country_operator) => (country_operator.iso2.clone(), country_operator.iso3.clone()),
        Err(e) => {
            return Err(e);
        },
    };
    match validate_create_input(cloned_operator_list.as_slice(), &input, country.as_str()) {
        Ok(_) => {},
        Err(e) => {
            return Err(e);
        },
    }
    let new_op = Operator::from_create(country, iso2, iso3, input);
    let new_arc = Arc::new(new_op.clone());
    proof {
        if identifiers_unique(app_data.records()) {
            lemma_create_keeps_unique(app_data.records(), input@);
        }
    }
    app_data.mutate(StoreChange::Append(new_op));
    Ok(new_arc)
}

} // verus!
