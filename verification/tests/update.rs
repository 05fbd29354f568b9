use operator_mappings_api::app_state::model::CountryBordersMap;
use operator_mappings_api::app_state::AppState;
use operator_mappings_api::operators::crud_operations::update::{
    update_operator_by_patch, update_operator_by_put, update_validations,
};
use operator_mappings_api::utils::error_responses::ErrorResponse;
use operator_mappings_api::utils::models::{
    CreateOperator, Operator, OperatorValidationError, PatchOperator,
};

fn initial_operators() -> Vec<Operator> {
    vec![
        Operator {
            country: "Ireland".to_string(),
            iso2: "IE".to_string(),
            iso3: "IRL".to_string(),
            name: Some("IrishCom".to_string()),
            e212: Some(vec!["27201".to_string()]),
            e164: Some(vec!["35385".to_string()]),
            realm: None,
            tadig: Some(vec!["IRL01".to_string()]),
        },
        Operator {
            country: "Romania".to_string(),
            iso2: "RO".to_string(),
            iso3: "ROU".to_string(),
            name: Some("RomNet".to_string()),
            e212: Some(vec!["22605".to_string()]),
            e164: Some(vec!["40770".to_string()]),
            realm: None,
            tadig: Some(vec!["ROM05".to_string()]),
        },
    ]
}

fn setup_state() -> AppState {
    AppState::new(
        initial_operators(),
        "test_mapping.json".to_string(),
        CountryBordersMap::new(),
    )
}

#[test]
fn test_patch_update_name_and_msisdn() {
    let mut state = setup_state();

    let patch = PatchOperator {
        name: Some(Some("Updated IrishCom".to_string())),
        e164: Some(vec!["35386".to_string()]),
        ..Default::default()
    };

    let result = update_operator_by_patch(&mut state, "IRL01", patch);
    assert!(
        result.is_ok(),
        "expected successful patch, got {:?}",
        result.err()
    );

    let ops = &state.operators;
    let op = ops
        .iter()
        .find(|o| o.has_tadig("IRL01"))
        .expect("operator IRL01 must still exist after patch");

    assert_eq!(op.name.as_ref().unwrap(), "Updated IrishCom");
    assert_eq!(op.e164.as_ref().unwrap(), &vec!["35386".to_string()]);
}

#[test]
fn test_patch_invalid_imsi_error() {
    let mut state = setup_state();

    let patch = PatchOperator {
        e212: Some(vec!["BAD12".to_string()]),
        ..Default::default()
    };

    let result = update_operator_by_patch(&mut state, "IRL01", patch);
    assert!(result.is_err(), "expected error for invalid IMSI");
    let err_string = result.unwrap_err().to_string();
    assert!(
        err_string.contains("InvalidImsiError"),
        "expected InvalidImsiError, got `{}`",
        err_string
    );
}

#[test]
fn test_patch_duplicate_msisdn_error() {
    let mut state = setup_state();

    let patch = PatchOperator {
        e164: Some(vec!["40770".to_string()]),
        ..Default::default()
    };

    let result = update_operator_by_patch(&mut state, "IRL01", patch);
    assert!(result.is_err(), "expected error for duplicate MSISDN");
    let err_string = result.unwrap_err().to_string();
    assert!(
        err_string.contains("DuplicateMsisdnError"),
        "expected DuplicateMsisdnError, got `{}`",
        err_string
    );
}

#[test]
fn test_patch_duplicate_tadig_error() {
    let mut state = setup_state();

    let patch = PatchOperator {
        tadig: Some(vec!["ROM05".to_string()]),
        ..Default::default()
    };

    let result = update_operator_by_patch(&mut state, "IRL01", patch);
    assert!(result.is_err(), "expected error for duplicate TADIG");
    let err_string = result.unwrap_err().to_string();
    assert!(
        err_string.contains("DuplicateTadigError"),
        "expected DuplicateTadigError, got `{}`",
        err_string
    );
}

#[test]
fn test_put_replaces_operator_successfully() {
    let mut state = setup_state();

    let put_data = CreateOperator {
        country: "Romania".to_string(),
        name: Some("Patched RomNet".to_string()),
        e212: Some(vec!["22699".to_string()]),
        e164: Some(vec!["40771".to_string()]),
        realm: None,
        tadig: Some(vec!["ROU99".to_string()]),
    };

    let result = update_operator_by_put(&mut state, "ROM05", put_data);
    assert!(
        result.is_ok(),
        "expected successful PUT, got {:?}",
        result.err()
    );

    let ops = &state.operators;
    assert!(
        !ops.iter().any(|o| o.has_tadig("ROM05")),
        "operator with TADIG ROM05 removed"
    );

    let new_op = ops
        .iter()
        .find(|o| o.has_tadig("ROU99"))
        .expect("new operator with tadig ROU99 must exist");

    assert_eq!(new_op.name.as_ref().unwrap(), "Patched RomNet");
    assert_eq!(new_op.e212.as_ref().unwrap(), &vec!["22699".to_string()]);
    assert_eq!(new_op.e164.as_ref().unwrap(), &vec!["40771".to_string()]);
}

#[test]
fn test_put_invalid_msisdn_error() {
    let mut state = setup_state();

    let bad_data = CreateOperator {
        country: "Romania".to_string(),
        name: Some("X".to_string()),
        e212: Some(vec!["22605".to_string()]),
        e164: Some(vec!["4077A".to_string()]),
        realm: None,
        tadig: Some(vec!["VALID01".to_string()]),
    };

    let result = update_operator_by_put(&mut state, "ROM05", bad_data);
    assert!(result.is_err(), "expected error for invalid MSISDN");
    let err_string = result.unwrap_err().to_string();
    assert!(
        err_string.contains("InvalidMsisdnError"),
        "expected InvalidMsisdnError, got `{}`",
        err_string
    );
}

#[test]
fn test_put_duplicate_imsi_error() {
    let mut state = setup_state();

    let dup_imsi = CreateOperator {
        country: "Ireland".to_string(),
        name: Some("Copycat".to_string()),
        e212: Some(vec!["27201".to_string()]),
        e164: Some(vec!["40100".to_string()]),
        realm: None,
        tadig: Some(vec!["NEW01".to_string()]),
    };

    let result = update_operator_by_put(&mut state, "ROM05", dup_imsi);
    assert!(result.is_err(), "expected error for duplicate IMSI");
    let err_string = result.unwrap_err().to_string();
    assert!(
        err_string.contains("DuplicateImsiError"),
        "expected DuplicateImsiError, got `{}`",
        err_string
    );
}

#[test]
fn test_put_duplicate_tadig_error() {
    let mut state = setup_state();

    let dup_tadig = CreateOperator {
        country: "Ireland".to_string(),
        name: Some("TadigClash".to_string()),
        e212: Some(vec!["50101".to_string()]),
        e164: Some(vec!["50500".to_string()]),
        realm: None,
        tadig: Some(vec!["IRL01".to_string()]),
    };

    let result = update_operator_by_put(&mut state, "ROM05", dup_tadig);
    assert!(result.is_err(), "expected error for duplicate TADIG");
    let err_string = result.unwrap_err().to_string();
    assert!(
        err_string.contains("DuplicateTadigError"),
        "expected DuplicateTadigError, got `{}`",
        err_string
    );
}

#[test]
fn put_keeps_its_own_identifiers_and_its_slot() {
    let mut state = setup_state();
    let same = CreateOperator {
        country: "romania".to_string(),
        name: Some("romnet".to_string()),
        e212: Some(vec!["22605".to_string()]),
        e164: Some(vec!["40770".to_string()]),
        realm: Some(vec!["ims.example".to_string()]),
        tadig: Some(vec!["ROM05".to_string()]),
    };
    let updated = update_operator_by_put(&mut state, "ROM05", same).unwrap();
    assert_eq!(updated.country, "Romania");
    assert_eq!(updated.iso2, "RO");
    assert_eq!(updated.iso3, "ROU");
    assert_eq!(state.operators.len(), 2);
    assert_eq!(state.operators[1].name.as_deref(), Some("romnet"));
    assert_eq!(
        state.operators[1].realm,
        Some(vec!["ims.example".to_string()])
    );
    assert!(state.operators[0].has_tadig("IRL01"));
}

#[test]
fn put_moves_operator_to_another_known_country() {
    let mut state = setup_state();
    let moved = CreateOperator {
        country: "Ireland".to_string(),
        name: Some("RomNet".to_string()),
        e212: None,
        e164: None,
        realm: None,
        tadig: None,
    };
    let updated = update_operator_by_put(&mut state, "ROM05", moved).unwrap();
    assert_eq!(updated.country, "Ireland");
    assert_eq!(updated.iso2, "IE");
    assert_eq!(updated.iso3, "IRL");
    assert_eq!(updated.tadig, Some(Vec::<String>::new()));
}

#[test]
fn put_errors_for_unknown_tadig_and_country() {
    let mut state = setup_state();
    let data = CreateOperator {
        country: "Romania".to_string(),
        name: None,
        e212: None,
        e164: None,
        realm: None,
        tadig: None,
    };
    match update_operator_by_put(&mut state, "NOPE1", data) {
        Err(ErrorResponse::NotFound {
            field,
            received,
            expected,
        }) => {
            assert_eq!(field, "tadig");
            assert_eq!(received, "NOPE1");
            assert_eq!(expected, "an existing TADIG code");
        }
        other => panic!("expected NotFound, got {:?}", other),
    }
    let data = CreateOperator {
        country: "France".to_string(),
        name: None,
        e212: None,
        e164: None,
        realm: None,
        tadig: None,
    };
    assert!(matches!(
        update_operator_by_put(&mut state, "ROM05", data),
        Err(ErrorResponse::Validation(
            OperatorValidationError::InvalidCountry { .. }
        ))
    ));
}

#[test]
fn update_validations_leaves_the_target_out_of_account() {
    let ops = initial_operators();
    let own = CreateOperator {
        country: "Romania".to_string(),
        name: Some("RomNet".to_string()),
        e212: Some(vec!["22605".to_string()]),
        e164: Some(vec!["40770".to_string()]),
        realm: None,
        tadig: Some(vec!["ROM05".to_string()]),
    };
    assert!(update_validations(&ops, 1, &own, "Romania").is_ok());
    assert!(matches!(
        update_validations(&ops, 0, &own, "Romania"),
        Err(ErrorResponse::Validation(
            OperatorValidationError::DuplicateImsiError { .. }
        ))
    ));
}

#[test]
fn patch_resolves_country_by_iso3_before_iso2_and_name() {
    let mut state = setup_state();
    let patch = PatchOperator {
        iso3: Some("ROU".to_string()),
        iso2: Some("IE".to_string()),
        country: Some("Ireland".to_string()),
        ..Default::default()
    };
    let patched = update_operator_by_patch(&mut state, "IRL01", patch).unwrap();
    assert_eq!(patched.country, "Romania");
    assert_eq!(patched.iso2, "RO");
    assert_eq!(patched.iso3, "ROU");
    assert_eq!(state.operators[0].country, "Romania");
    assert_eq!(state.operators[0].name.as_deref(), Some("IrishCom"));
}

#[test]
fn patch_resolves_country_by_iso2_then_by_name() {
    let mut state = setup_state();
    let by_iso2 = PatchOperator {
        iso2: Some("RO".to_string()),
        country: Some("Ireland".to_string()),
        ..Default::default()
    };
    let patched = update_operator_by_patch(&mut state, "IRL01", by_iso2).unwrap();
    assert_eq!(patched.iso3, "ROU");
    let by_name = PatchOperator {
        country: Some(" romania ".to_string()),
        ..Default::default()
    };
    let patched = update_operator_by_patch(&mut state, "ROM05", by_name).unwrap();
    assert_eq!(patched.country, "Romania");
    assert_eq!(patched.iso2, "RO");
}

#[test]
fn patch_errors_for_codes_of_wrong_shape_or_unknown() {
    let mut state = setup_state();
    let bad_iso2 = PatchOperator {
        iso2: Some("R0".to_string()),
        ..Default::default()
    };
    match update_operator_by_patch(&mut state, "IRL01", bad_iso2) {
        Err(ErrorResponse::Validation(OperatorValidationError::FieldValidationError {
            field,
            message,
            received,
        })) => {
            assert_eq!(field, "iso2");
            assert_eq!(message, "ISO2 must be exactly 2 letters");
            assert_eq!(received, Some("R0".to_string()));
        }
        other => panic!("expected FieldValidationError, got {:?}", other),
    }
    let bad_iso3 = PatchOperator {
        iso3: Some("ROUX".to_string()),
        ..Default::default()
    };
    match update_operator_by_patch(&mut state, "IRL01", bad_iso3) {
        Err(ErrorResponse::Validation(OperatorValidationError::FieldValidationError {
            field,
            message,
            ..
        })) => {
            assert_eq!(field, "iso3");
            assert_eq!(message, "ISO3 must be exactly 3 letters");
        }
        other => panic!("expected FieldValidationError, got {:?}", other),
    }
    let unknown = PatchOperator {
        iso3: Some("FRA".to_string()),
        ..Default::default()
    };
    match update_operator_by_patch(&mut state, "IRL01", unknown) {
        Err(ErrorResponse::NotFound {
            field,
            received,
            expected,
        }) => {
            assert_eq!(field, "iso3");
            assert_eq!(received, "FRA");
            assert_eq!(expected, "an existing ISO3 code");
        }
        other => panic!("expected NotFound, got {:?}", other),
    }
    let missing = PatchOperator::default();
    assert!(matches!(
        update_operator_by_patch(&mut state, "NOPE1", missing),
        Err(ErrorResponse::NotFound { .. })
    ));
}

#[test]
fn patch_clears_name_and_keeps_unpatched_fields() {
    let mut state = setup_state();
    let patch = PatchOperator {
        name: Some(None),
        realm: Some(vec!["epc.example".to_string()]),
        ..Default::default()
    };
    let patched = update_operator_by_patch(&mut state, "ROM05", patch).unwrap();
    assert_eq!(patched.name, None);
    assert_eq!(patched.realm, Some(vec!["epc.example".to_string()]));
    assert_eq!(patched.e212, Some(vec!["22605".to_string()]));
    assert_eq!(patched.tadig, Some(vec!["ROM05".to_string()]));
    assert_eq!(patched.country, "Romania");
}

#[test]
fn patch_may_repeat_its_own_identifiers_but_not_a_taken_name() {
    let mut state = setup_state();
    let own = PatchOperator {
        e212: Some(vec!["27201".to_string()]),
        tadig: Some(vec!["IRL01".to_string(), "IRL_02".to_string()]),
        name: Some(Some("irishcom".to_string())),
        ..Default::default()
    };
    assert!(update_operator_by_patch(&mut state, "IRL01", own).is_ok());
    let taken = PatchOperator {
        name: Some(Some(" ROMNET ".to_string())),
        ..Default::default()
    };
    let err = update_operator_by_patch(&mut state, "IRL01", taken).unwrap_err();
    assert!(err.to_string().contains("already exists"));
    assert_eq!(err.status_code(), 409);
}

#[test]
fn patch_fails_on_a_stored_country_that_is_not_letters_and_spaces() {
    let mut ops = initial_operators();
    ops[0].country = "Bolivia (Plurinational State Of)".to_string();
    let mut state = AppState::new(ops, "p.json".to_string(), CountryBordersMap::new());
    let patch = PatchOperator {
        realm: Some(vec!["x".to_string()]),
        ..Default::default()
    };
    match update_operator_by_patch(&mut state, "IRL01", patch) {
        Err(ErrorResponse::Validation(OperatorValidationError::FieldValidationError {
            field,
            message,
            ..
        })) => {
            assert_eq!(field, "country");
            assert_eq!(message, "country must contain only letters and spaces");
        }
        other => panic!("expected FieldValidationError, got {:?}", other),
    }
    assert_eq!(state.operators[0].realm, None);
}
