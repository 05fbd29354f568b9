//! What a request asks for, read from its query parameters.

use vstd::prelude::*;
use vstd::string::*;

use crate::utils::error_responses::{ErrorResponse, ErrorResponseView};
use crate::utils::models::{
    opt_text_of, OperatorValidationError, QueryType, ReadQuery, ValidationErrorView,
};
use crate::utils::text::{trim, trimmed};
use crate::utils::validations::not_found_error;

verus! {

/// The value and the kind of the identifier that a lookup searches by: the
/// IMSI if the query gives one, else the MSISDN, else the TADIG code. A
/// query with none of the three asks for every operator.
pub open spec fn lookup_target_of(
    imsi: Option<Seq<char>>,
    msisdn: Option<Seq<char>>,
    tadig: Option<Seq<char>>,
) -> Option<(Seq<char>, QueryType)> {
    if imsi is Some {
        Some((imsi->0, QueryType::Imsi))
    } else if msisdn is Some {
        Some((msisdn->0, QueryType::Msisdn))
    } else if tadig is Some {
        Some((tadig->0, QueryType::Tadig))
    } else {
        None
    }
}

/// What an optional target of a lookup stands for.
pub open spec fn target_view(target: Option<(&str, QueryType)>) -> Option<(Seq<char>, QueryType)> {
    match target {
        Some((value, kind)) => Some((value@, kind)),
        None => None,
    }
}

/// The value and the kind of the identifier that a lookup searches by.
pub fn lookup_target(query: &ReadQuery) -> (r: Option<(&str, QueryType)>)
    ensures
        target_view(r) == lookup_target_of(
            opt_text_of(query.imsi),
            opt_text_of(query.msisdn),
            opt_text_of(query.tadig),
        ),
{
    if let Some(imsi) = &query.imsi {
        Some((imsi.as_str(), QueryType::Imsi))
    } else if let Some(msisdn) = &query.msisdn {
        Some((msisdn.as_str(), QueryType::Msisdn))
    } else if let Some(tadig) = &query.tadig {
        Some((tadig.as_str(), QueryType::Tadig))
    } else {
        None
    }
}

/// The TADIG code of a query as it was given; the empty text if none was.
pub open spec fn given_tadig(tadig: Option<Seq<char>>) -> Seq<char> {
    match tadig {
        Some(t) => t,
        None => Seq::empty(),
    }
}

/// The error for a question for roaming partners without a TADIG code.
pub open spec fn missing_tadig_error(given: Seq<char>) -> ErrorResponseView {
    not_found_error("tadig"@, given, "a non-empty TADIG"@)
}

/// The TADIG code that a question for roaming partners names, without the
/// whitespace around it. A query without a code, or with a blank one, is
/// refused.
pub fn partners_tadig(query: &ReadQuery) -> (r: Result<String, ErrorResponse>)
    ensures
        match r {
            Ok(tadig) => tadig@ == trimmed(given_tadig(opt_text_of(query.tadig))) && tadig@.len()
                > 0,
            Err(e) => trimmed(given_tadig(opt_text_of(query.tadig))).len() == 0 && e@
                == missing_tadig_error(given_tadig(opt_text_of(query.tadig))),
        },
{
    let this_tadig = match &query.tadig {
        Some(t) => t.clone(),
        None => String::new(),
    };
    let tadig = trim(this_tadig.as_str());
    if tadig.unicode_len() == 0 {
        return Err(
            ErrorResponse::NotFound {
                field: String::from_str("tadig"),
                received: this_tadig,
                expected: String::from_str("a non-empty TADIG"),
            },
        );
    }
    Ok(String::from_str(tadig))
}

/// The error for a question for the operators of a country without a code.
pub open spec fn missing_iso3_error() -> ErrorResponseView {
    ErrorResponseView::Validation(
        ValidationErrorView::FieldValidationError {
            field: "iso3"@,
            message: "iso3 query parameter is required"@,
            received: None,
        },
    )
}

/// The three-letter country code that a question for the operators of a
/// country names.
pub fn mapping_iso3(query: &ReadQuery) -> (r: Result<&str, ErrorResponse>)
    ensures
        match r {
            Ok(iso3) => query.iso3 matches Some(v) && v@ == iso3@,
            Err(e) => query.iso3 is None && e@ == missing_iso3_error(),
        },
{
    match &query.iso3 {
        Some(iso3) => Ok(iso3.as_str()),
        None => Err(
            ErrorResponse::Validation(
                OperatorValidationError::FieldValidationError {
                    field: String::from_str("iso3"),
                    message: String::from_str("iso3 query parameter is required"),
                    received: None,
                },
            ),
        ),
    }
}

} // verus!
