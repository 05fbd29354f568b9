use operator_mappings_api::app_state::model::CountryBordersMap;
use operator_mappings_api::app_state::AppState;
use operator_mappings_api::operators::crud_operations::delete::delete_operator;
use operator_mappings_api::utils::error_responses::ErrorResponse;
use operator_mappings_api::utils::models::Operator;

fn operator(country: &str, iso3: &str, tadig: &[&str]) -> Operator {
    Operator {
        country: country.to_string(),
        iso2: iso3[..2].to_string(),
        iso3: iso3.to_string(),
        name: Some(format!("{} Mobile", country)),
        e212: None,
        e164: None,
        realm: None,
        tadig: Some(tadig.iter().map(|t| t.to_string()).collect()),
    }
}

fn registry() -> AppState {
    AppState::new(
        vec![
            operator("Ireland", "IRL", &["IRLEC", "IRLME"]),
            operator("Romania", "ROU", &["ROM05"]),
            operator("Chile", "CHL", &["CHLMV"]),
        ],
        "mappings.json".to_string(),
        CountryBordersMap::new(),
    )
}

#[test]
fn delete_existing_tadig_succeeds_once_then_is_not_found() {
    let mut state = registry();
    let removed = delete_operator(&mut state, "IRLEC").unwrap();
    assert_eq!(removed.country, "Ireland");
    assert_eq!(state.operators.len(), 2);
    match delete_operator(&mut state, "IRLEC") {
        Err(ErrorResponse::NotFound {
            field,
            received,
            expected,
        }) => {
            assert_eq!(field, "tadig");
            assert_eq!(received, "IRLEC");
            assert_eq!(expected, "an existing TADIG code");
        }
        other => panic!("expected NotFound, got {:?}", other),
    }
    assert_eq!(state.operators.len(), 2);
}

#[test]
fn delete_puts_the_last_operator_in_the_freed_slot() {
    let mut state = registry();
    delete_operator(&mut state, "IRLME").unwrap();
    assert_eq!(state.operators[0].country, "Chile");
    assert_eq!(state.operators[1].country, "Romania");
}

#[test]
fn delete_of_the_last_operator_shortens_the_list() {
    let mut state = registry();
    let removed = delete_operator(&mut state, "CHLMV").unwrap();
    assert_eq!(removed.iso3, "CHL");
    assert_eq!(state.operators.len(), 2);
    assert_eq!(state.operators[0].country, "Ireland");
    assert_eq!(state.operators[1].country, "Romania");
}

#[test]
fn delete_compares_the_code_letter_for_letter() {
    let mut state = registry();
    let result = delete_operator(&mut state, "rom05");
    assert!(matches!(result, Err(ErrorResponse::NotFound { .. })));
    assert_eq!(result.unwrap_err().status_code(), 404);
    assert!(matches!(
        delete_operator(&mut state, "DOES_NOT_EXIST"),
        Err(ErrorResponse::NotFound { .. })
    ));
    assert_eq!(state.operators.len(), 3);
}
