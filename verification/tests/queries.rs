use operator_mappings_api::handlers::queries::{lookup_target, mapping_iso3, partners_tadig};
use operator_mappings_api::utils::error_responses::ErrorResponse;
use operator_mappings_api::utils::models::{OperatorValidationError, QueryType, ReadQuery};

fn query(imsi: Option<&str>, msisdn: Option<&str>, tadig: Option<&str>, iso3: Option<&str>) -> ReadQuery {
    ReadQuery {
        imsi: imsi.map(|s| s.to_string()),
        msisdn: msisdn.map(|s| s.to_string()),
        tadig: tadig.map(|s| s.to_string()),
        iso3: iso3.map(|s| s.to_string()),
    }
}

#[test]
fn lookup_target_prefers_imsi_then_msisdn_then_tadig() {
    let q = query(Some("722"), Some("54"), Some("ARGTM"), Some("ARG"));
    assert_eq!(lookup_target(&q), Some(("722", QueryType::Imsi)));
    let q = query(None, Some("54"), Some("ARGTM"), None);
    assert_eq!(lookup_target(&q), Some(("54", QueryType::Msisdn)));
    let q = query(None, None, Some("ARGTM"), None);
    assert_eq!(lookup_target(&q), Some(("ARGTM", QueryType::Tadig)));
    let q = query(None, None, None, Some("ARG"));
    assert_eq!(lookup_target(&q), None);
}

#[test]
fn partners_tadig_is_trimmed_and_must_not_be_blank() {
    assert_eq!(
        partners_tadig(&query(None, None, Some(" ARGTM "), None)).unwrap(),
        "ARGTM"
    );
    for (given, received) in [(None, ""), (Some(""), ""), (Some("  "), "  ")] {
        match partners_tadig(&query(None, None, given, None)) {
            Err(ErrorResponse::NotFound {
                field,
                received: got,
                expected,
            }) => {
                assert_eq!(field, "tadig");
                assert_eq!(got, received);
                assert_eq!(expected, "a non-empty TADIG");
            }
            other => panic!("expected NotFound, got {:?}", other),
        }
    }
}

#[test]
fn mapping_iso3_is_required() {
    assert_eq!(mapping_iso3(&query(None, None, None, Some("arg"))).unwrap(), "arg");
    match mapping_iso3(&query(Some("1"), None, None, None)) {
        Err(ErrorResponse::Validation(OperatorValidationError::FieldValidationError {
            field,
            message,
            received,
        })) => {
            assert_eq!(field, "iso3");
            assert_eq!(message, "iso3 query parameter is required");
            assert_eq!(received, None);
        }
        other => panic!("expected FieldValidationError, got {:?}", other),
    }
}
