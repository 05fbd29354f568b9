use operator_mappings_api::app_state::model::CountryBordersMap;
use operator_mappings_api::app_state::AppState;
use operator_mappings_api::operators::crud_operations::create::{
    create_operator, validate_create_input,
};
use operator_mappings_api::utils::error_responses::ErrorResponse;
use operator_mappings_api::utils::models::{
    CreateOperator, Operator, OperatorDuplicateChecker, OperatorValidationError, PatchOperator,
    SubscriberIdKind,
};
use operator_mappings_api::utils::validations::{
    tadig_re_is_match, validate_digits, validate_patch_fields,
};

#[test]
fn test_valid_imsi_format() {
    let result = validate_digits(SubscriberIdKind::Imsi, "e212", "72207");
    assert!(result.is_ok());
}

#[test]
fn test_invalid_imsi_format() {
    let result = validate_digits(SubscriberIdKind::Imsi, "e212", "72A07");
    match result {
        Err(OperatorValidationError::InvalidImsiError {
            field,
            received,
            expected,
        }) => {
            assert_eq!(field, "e212");
            assert_eq!(received, "72A07");
            assert_eq!(expected, "digits only");
        }
        _ => panic!("Expected InvalidImsiError"),
    }
}

#[test]
fn test_invalid_msisdn_format() {
    let result = validate_digits(SubscriberIdKind::Msisdn, "e164", "407A70");
    match result {
        Err(OperatorValidationError::InvalidMsisdnError {
            field,
            received,
            expected,
        }) => {
            assert_eq!(field, "e164");
            assert_eq!(received, "407A70");
            assert_eq!(expected, "digits only");
        }
        _ => panic!("Expected InvalidMsisdnError"),
    }
}

#[test]
fn test_invalid_tadig_format() {
    let bad_codes = vec!["!!!", "A", "TOOLOOOOOONG", "inv@lid"];

    for code in bad_codes {
        assert!(
            !tadig_re_is_match(code),
            "Expected TADIG '{}' to be invalid",
            code
        );
    }

    let good_code = "ARG_01";
    assert!(tadig_re_is_match(good_code));
}

#[test]
fn test_duplicate_imsi_prefix() {
    let patch = PatchOperator {
        e212: Some(vec!["72207".to_string()]),
        ..Default::default()
    };

    let mut dup = OperatorDuplicateChecker::default();
    dup.imsi_prefixes.insert("72207".to_string());

    let result = validate_patch_fields(&dup, &patch);
    match result {
        Err(err) => assert!(err.to_string().contains("DuplicateImsiError")),
        _ => panic!("Expected DuplicateImsiError"),
    }
}

#[test]
fn test_duplicate_msisdn_prefix() {
    let patch = PatchOperator {
        e164: Some(vec!["40770".to_string()]),
        ..Default::default()
    };

    let mut dup = OperatorDuplicateChecker::default();
    dup.msisdn_prefixes.insert("40770".to_string());

    let result = validate_patch_fields(&dup, &patch);
    match result {
        Err(err) => assert!(err.to_string().contains("DuplicateMsisdnError")),
        _ => panic!("Expected DuplicateMsisdnError"),
    }
}

#[test]
fn test_duplicate_tadig_code() {
    let patch = PatchOperator {
        tadig: Some(vec!["ARGTM".to_string()]),
        ..Default::default()
    };

    let mut dup = OperatorDuplicateChecker::default();
    dup.tadig_codes.insert("ARGTM".to_string());

    let result = validate_patch_fields(&dup, &patch);
    match result {
        Err(err) => assert!(err.to_string().contains("DuplicateTadigError")),
        _ => panic!("Expected DuplicateTadigError"),
    }
}

fn argentina() -> Operator {
    Operator {
        country: "Argentina".to_string(),
        iso2: "AR".to_string(),
        iso3: "ARG".to_string(),
        name: Some("Telecom Personal".to_string()),
        e212: Some(vec!["72234".to_string()]),
        e164: Some(vec!["5411".to_string()]),
        realm: None,
        tadig: Some(vec!["ARGTP".to_string()]),
    }
}

fn registry() -> AppState {
    AppState::new(
        vec![argentina()],
        "test_mapping.json".to_string(),
        CountryBordersMap::new(),
    )
}

fn request(country: &str, name: &str, e212: &str, e164: &str, tadig: &str) -> CreateOperator {
    CreateOperator {
        country: country.to_string(),
        name: Some(name.to_string()),
        e212: Some(vec![e212.to_string()]),
        e164: Some(vec![e164.to_string()]),
        realm: None,
        tadig: Some(vec![tadig.to_string()]),
    }
}

#[test]
fn create_appends_operator_with_codes_of_its_country() {
    let mut state = registry();
    let created = create_operator(
        &mut state,
        request("  argentina ", "Movistar", "72207", "5499", "ARGTM"),
    )
    .unwrap();
    assert_eq!(created.country, "Argentina");
    assert_eq!(created.iso2, "AR");
    assert_eq!(created.iso3, "ARG");
    assert_eq!(created.name.as_deref(), Some("Movistar"));
    assert_eq!(created.tadig, Some(vec!["ARGTM".to_string()]));
    assert_eq!(state.operators.len(), 2);
    assert!(state.operators[1].has_tadig("ARGTM"));
    assert!(state.operators[0].has_tadig("ARGTP"));
}

#[test]
fn create_without_tadig_list_stores_an_empty_one() {
    let mut state = registry();
    let input = CreateOperator {
        country: "Argentina".to_string(),
        name: None,
        e212: None,
        e164: None,
        realm: Some(vec!["epc.example".to_string()]),
        tadig: None,
    };
    let created = create_operator(&mut state, input).unwrap();
    assert_eq!(created.tadig, Some(Vec::<String>::new()));
    assert_eq!(created.realm, Some(vec!["epc.example".to_string()]));
    assert_eq!(created.e212, None);
}

#[test]
fn create_for_unknown_country_is_invalid_country() {
    let mut state = registry();
    let result = create_operator(
        &mut state,
        request("Narnia", "Narnia Telecom", "00000", "999", "NARN01"),
    );
    match result {
        Err(ErrorResponse::Validation(OperatorValidationError::InvalidCountry {
            field,
            received,
            expected,
        })) => {
            assert_eq!(field, "country");
            assert_eq!(received, "Narnia");
            assert_eq!(expected, "an existing country");
        }
        other => panic!("expected InvalidCountry, got {:?}", other),
    }
    assert_eq!(state.operators.len(), 1);
}

#[test]
fn create_rejects_blank_and_malformed_country() {
    let mut state = registry();
    let blank = create_operator(&mut state, request("   ", "X", "1", "2", "ABCDE"));
    match blank {
        Err(ErrorResponse::Validation(OperatorValidationError::FieldValidationError {
            field,
            message,
            received,
        })) => {
            assert_eq!(field, "country");
            assert_eq!(message, "country cannot be empty");
            assert_eq!(received, Some(String::new()));
        }
        other => panic!("expected FieldValidationError, got {:?}", other),
    }
    let digits = create_operator(&mut state, request("Arg3ntina", "X", "1", "2", "ABCDE"));
    match digits {
        Err(ErrorResponse::Validation(OperatorValidationError::FieldValidationError {
            field,
            message,
            received,
        })) => {
            assert_eq!(field, "country");
            assert_eq!(message, "country must contain only letters and spaces");
            assert_eq!(received, Some("Arg3ntina".to_string()));
        }
        other => panic!("expected FieldValidationError, got {:?}", other),
    }
}

#[test]
fn create_rejects_identifiers_in_use_in_order() {
    let mut state = registry();
    let imsi = create_operator(
        &mut state,
        request("Argentina", "telecom personal", "72234", "5411", "ARGTP"),
    );
    assert!(matches!(
        imsi,
        Err(ErrorResponse::Validation(
            OperatorValidationError::DuplicateImsiError { .. }
        ))
    ));
    let msisdn = create_operator(
        &mut state,
        request("Argentina", "telecom personal", "72299", "5411", "ARGTP"),
    );
    assert!(matches!(
        msisdn,
        Err(ErrorResponse::Validation(
            OperatorValidationError::DuplicateMsisdnError { .. }
        ))
    ));
    let name = create_operator(
        &mut state,
        request("Argentina", "  TELECOM personal ", "72299", "5499", "ARGTP"),
    );
    match name {
        Err(ErrorResponse::Validation(OperatorValidationError::FieldValidationError {
            field,
            message,
            received,
        })) => {
            assert_eq!(field, "name");
            assert_eq!(
                message,
                "Operator name '  TELECOM personal ' already exists"
            );
            assert_eq!(received, Some("  TELECOM personal ".to_string()));
        }
        other => panic!("expected name conflict, got {:?}", other),
    }
    let tadig = create_operator(
        &mut state,
        request("Argentina", "Other", "72299", "5499", "ARGTP"),
    );
    match tadig {
        Err(ErrorResponse::Validation(OperatorValidationError::DuplicateTadigError {
            field,
            received,
        })) => {
            assert_eq!(field, "tadig");
            assert_eq!(received, "ARGTP");
        }
        other => panic!("expected DuplicateTadigError, got {:?}", other),
    }
    assert_eq!(state.operators.len(), 1);
}

#[test]
fn create_rejects_malformed_tadig() {
    let mut state = registry();
    let result = create_operator(
        &mut state,
        request("Argentina", "Other", "72299", "5499", "AB"),
    );
    match result {
        Err(ErrorResponse::Validation(OperatorValidationError::InvalidTadigError {
            field,
            received,
            expected,
        })) => {
            assert_eq!(field, "tadig");
            assert_eq!(received, "AB");
            assert_eq!(expected, "5–9 chars, letters/digits/_ only");
        }
        other => panic!("expected InvalidTadigError, got {:?}", other),
    }
}

#[test]
fn validate_create_input_accepts_fresh_identifiers() {
    let existing = vec![argentina()];
    let input = request("Argentina", "Claro", "72231", "5488", "ARGCL");
    assert!(validate_create_input(&existing, &input, "Argentina").is_ok());
    let bad = request("Argentina", "Claro", "72A31", "5488", "ARGCL");
    assert!(matches!(
        validate_create_input(&existing, &bad, "Argentina"),
        Err(ErrorResponse::Validation(
            OperatorValidationError::InvalidImsiError { .. }
        ))
    ));
}

#[test]
fn uniqueness_holds_after_successful_creates() {
    let mut state = registry();
    create_operator(
        &mut state,
        request("Argentina", "Movistar", "72207", "5499", "ARGTM"),
    )
    .unwrap();
    create_operator(
        &mut state,
        request("Argentina", "Claro", "72231", "5488", "ARGCL"),
    )
    .unwrap();
    let mut seen: Vec<String> = Vec::new();
    for op in state.operators.iter() {
        for code in op.tadig.iter().flatten().chain(op.e212.iter().flatten()) {
            assert!(!seen.contains(code));
            seen.push(code.clone());
        }
    }
    assert_eq!(seen.len(), 6);
}
