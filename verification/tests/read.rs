use operator_mappings_api::app_state::model::CountryBordersMap;
use operator_mappings_api::app_state::AppState;
use operator_mappings_api::operators::crud_operations::read::{
    best_prefix_length, find_operator_by_tadig_exact_match,
    find_operator_with_longest_prefix_match, lookup_operator_by_query,
};
use operator_mappings_api::utils::error_responses::ErrorResponse;
use operator_mappings_api::utils::models::{
    Operator, OperatorValidationError, QueryType, SubscriberIdKind,
};
use operator_mappings_api::utils::text::common_prefix_length;

fn operator(name: &str, e212: &[&str], e164: &[&str], tadig: &[&str]) -> Operator {
    Operator {
        country: "Argentina".to_string(),
        iso2: "AR".to_string(),
        iso3: "ARG".to_string(),
        name: Some(name.to_string()),
        e212: Some(e212.iter().map(|t| t.to_string()).collect()),
        e164: Some(e164.iter().map(|t| t.to_string()).collect()),
        realm: None,
        tadig: Some(tadig.iter().map(|t| t.to_string()).collect()),
    }
}

fn registry(ops: Vec<Operator>) -> AppState {
    AppState::new(ops, "mappings.json".to_string(), CountryBordersMap::new())
}

#[test]
fn common_prefix_length_counts_leading_agreement() {
    assert_eq!(common_prefix_length("7220", "72207"), 4);
    assert_eq!(common_prefix_length("722", "72207"), 3);
    assert_eq!(common_prefix_length("72207", "72207"), 5);
    assert_eq!(common_prefix_length("", "72207"), 0);
    assert_eq!(common_prefix_length("822", "72207"), 0);
    assert_eq!(common_prefix_length("7x2", "722"), 1);
}

#[test]
fn longer_prefix_wins_over_shorter() {
    let ops = vec![
        operator("Short", &["722"], &[], &["ARG01"]),
        operator("Long", &["7220"], &[], &["ARG02"]),
    ];
    let found = find_operator_with_longest_prefix_match(&ops, SubscriberIdKind::Imsi, "72207");
    assert_eq!(found.unwrap().name.as_deref(), Some("Long"));
    let ops = vec![
        operator("Long", &["7220"], &[], &["ARG02"]),
        operator("Short", &["722"], &[], &["ARG01"]),
    ];
    let found = find_operator_with_longest_prefix_match(&ops, SubscriberIdKind::Imsi, "72207");
    assert_eq!(found.unwrap().name.as_deref(), Some("Long"));
}

#[test]
fn first_operator_wins_a_tie() {
    let ops = vec![
        operator("First", &["7221", "72"], &[], &["ARG01"]),
        operator("Second", &["7229"], &[], &["ARG02"]),
    ];
    let found = find_operator_with_longest_prefix_match(&ops, SubscriberIdKind::Imsi, "72207");
    assert_eq!(found.unwrap().name.as_deref(), Some("First"));
}

#[test]
fn operator_without_common_prefix_is_never_the_match() {
    let ops = vec![
        operator("Other", &["310"], &["1"], &["USA01"]),
        operator("None", &[], &[], &["USA02"]),
    ];
    assert!(
        find_operator_with_longest_prefix_match(&ops, SubscriberIdKind::Imsi, "72207").is_none()
    );
    assert!(
        find_operator_with_longest_prefix_match(&ops, SubscriberIdKind::Msisdn, "4077").is_none()
    );
    assert!(find_operator_with_longest_prefix_match(&[], SubscriberIdKind::Imsi, "1").is_none());
}

#[test]
fn score_is_the_best_over_the_prefixes_of_one_operator() {
    assert_eq!(
        best_prefix_length(
            &Some(vec!["72".to_string(), "72207".to_string(), "7".to_string()]),
            "722071234"
        ),
        5
    );
    assert_eq!(best_prefix_length(&Some(vec![]), "722"), 0);
    assert_eq!(best_prefix_length(&None, "722"), 0);
}

#[test]
fn lookup_by_imsi_and_msisdn_trims_and_checks_digits() {
    let state = registry(vec![
        operator("Short", &["722"], &["54"], &["ARG01"]),
        operator("Long", &["7220"], &["5411"], &["ARG02"]),
    ]);
    let found = lookup_operator_by_query(&state, " 72207 ", QueryType::Imsi).unwrap();
    assert_eq!(found.unwrap().name.as_deref(), Some("Long"));
    let found = lookup_operator_by_query(&state, "5499", QueryType::Msisdn).unwrap();
    assert_eq!(found.unwrap().name.as_deref(), Some("Short"));
    let found = lookup_operator_by_query(&state, "999", QueryType::Msisdn).unwrap();
    assert!(found.is_none());
    match lookup_operator_by_query(&state, "frgr", QueryType::Msisdn) {
        Err(ErrorResponse::Validation(OperatorValidationError::InvalidMsisdnError {
            field,
            received,
            expected,
        })) => {
            assert_eq!(field, "msisdn");
            assert_eq!(received, "frgr");
            assert_eq!(expected, "digits only");
        }
        other => panic!("expected InvalidMsisdnError, got {:?}", other),
    }
    match lookup_operator_by_query(&state, "72x", QueryType::Imsi) {
        Err(ErrorResponse::Validation(OperatorValidationError::InvalidImsiError {
            field, ..
        })) => assert_eq!(field, "imsi"),
        other => panic!("expected InvalidImsiError, got {:?}", other),
    }
}

#[test]
fn lookup_by_tadig_upper_cases_the_query() {
    let state = registry(vec![
        operator("Geo", &[], &[], &["LBN_GEO"]),
        operator("Lower", &[], &[], &["lbnxx"]),
    ]);
    let found = lookup_operator_by_query(&state, " lbn_geo ", QueryType::Tadig).unwrap();
    assert_eq!(found.unwrap().name.as_deref(), Some("Geo"));
    let found = lookup_operator_by_query(&state, "lbnxx", QueryType::Tadig).unwrap();
    assert!(found.is_none());
    let found = lookup_operator_by_query(&state, "ARG", QueryType::Iso3).unwrap();
    assert!(found.is_none());
}

#[test]
fn exact_tadig_match_finds_the_first_holder() {
    let ops = vec![
        operator("A", &[], &[], &["AAA01", "AAA02"]),
        operator("B", &[], &[], &["AAA02"]),
    ];
    assert_eq!(
        find_operator_by_tadig_exact_match(&ops, "AAA02")
            .unwrap()
            .name
            .as_deref(),
        Some("A")
    );
    assert!(find_operator_by_tadig_exact_match(&ops, "aaa02").is_none());
}
