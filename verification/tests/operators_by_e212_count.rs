use operator_mappings_api::app_state::model::CountryBordersMap;
use operator_mappings_api::app_state::AppState;
use operator_mappings_api::operators::get_operators_by_e212_count::{
    categorize_operators_by_e212_count, classify_single_operator,
    get_operators_grouped_by_e212_count,
};
use operator_mappings_api::utils::models::{Operator, OperatorSizeGroups, SizeClass};
use std::sync::Arc;

fn operator(tag: &str, prefixes: Option<usize>) -> Operator {
    Operator {
        country: "Ireland".to_string(),
        iso2: "IE".to_string(),
        iso3: "IRL".to_string(),
        name: Some(tag.to_string()),
        e212: prefixes.map(|n| (0..n).map(|i| format!("{}{}", tag.len(), i)).collect()),
        e164: None,
        realm: None,
        tadig: None,
    }
}

fn names(ops: &[Operator]) -> Vec<String> {
    ops.iter().map(|o| o.name.clone().unwrap()).collect()
}

#[test]
fn size_class_boundaries_are_three_and_seven() {
    assert_eq!(operator("a", None).size_class(), SizeClass::Small);
    assert_eq!(operator("a", Some(0)).size_class(), SizeClass::Small);
    assert_eq!(operator("a", Some(3)).size_class(), SizeClass::Small);
    assert_eq!(operator("a", Some(4)).size_class(), SizeClass::Medium);
    assert_eq!(operator("a", Some(7)).size_class(), SizeClass::Medium);
    assert_eq!(operator("a", Some(8)).size_class(), SizeClass::Large);
    assert_eq!(operator("a", Some(40)).size_class(), SizeClass::Large);
}

#[test]
fn groups_hold_every_operator_once_in_order() {
    let state = AppState::new(
        vec![
            operator("s0", None),
            operator("l8", Some(8)),
            operator("m4", Some(4)),
            operator("s3", Some(3)),
            operator("m7", Some(7)),
            operator("l9", Some(9)),
            operator("s1", Some(1)),
        ],
        "mappings.json".to_string(),
        CountryBordersMap::new(),
    );
    let groups = get_operators_grouped_by_e212_count(&state).unwrap();
    assert_eq!(names(&groups.small_operators), vec!["s0", "s3", "s1"]);
    assert_eq!(names(&groups.medium_operators), vec!["m4", "m7"]);
    assert_eq!(names(&groups.large_operators), vec!["l8", "l9"]);
    assert_eq!(groups.small_size_operators, 3);
    assert_eq!(groups.medium_size_operators, 2);
    assert_eq!(groups.large_size_operators, 2);
    assert_eq!(
        groups.small_size_operators + groups.medium_size_operators + groups.large_size_operators,
        state.operators.len()
    );
}

#[test]
fn groups_of_an_empty_registry_are_empty() {
    let groups = categorize_operators_by_e212_count(&[]);
    assert_eq!(groups.small_size_operators, 0);
    assert_eq!(groups.medium_size_operators, 0);
    assert_eq!(groups.large_size_operators, 0);
    assert!(groups.small_operators.is_empty());
    let one = categorize_operators_by_e212_count(&[Arc::new(operator("x", Some(5)))]);
    assert_eq!(one.medium_size_operators, 1);
    assert_eq!(one.medium_operators.len(), 1);
}

#[test]
fn classify_counts_the_operator_it_adds() {
    let mut groups = OperatorSizeGroups::default();
    classify_single_operator(&mut groups, operator("a", Some(2)));
    classify_single_operator(&mut groups, operator("b", Some(10)));
    classify_single_operator(&mut groups, operator("c", Some(3)));
    assert_eq!(groups.small_size_operators, 2);
    assert_eq!(groups.medium_size_operators, 0);
    assert_eq!(groups.large_size_operators, 1);
    assert_eq!(names(&groups.small_operators), vec!["a", "c"]);
    assert_eq!(names(&groups.large_operators), vec!["b"]);
}
