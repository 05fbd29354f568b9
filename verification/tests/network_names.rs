use operator_mappings_api::app_state::model::CountryBordersMap;
use operator_mappings_api::app_state::AppState;
use operator_mappings_api::operators::network_names::{insert_sorted, retrieve_network_names};
use operator_mappings_api::utils::error_responses::ErrorResponse;
use operator_mappings_api::utils::models::Operator;
use operator_mappings_api::utils::validations::format_network_name;

fn operator(name: Option<&str>) -> Operator {
    Operator {
        country: "Ireland".to_string(),
        iso2: "IE".to_string(),
        iso3: "IRL".to_string(),
        name: name.map(|n| n.to_string()),
        e212: None,
        e164: None,
        realm: None,
        tadig: None,
    }
}

fn registry(names: Vec<Option<&str>>) -> AppState {
    AppState::new(
        names.into_iter().map(operator).collect(),
        "mappings.json".to_string(),
        CountryBordersMap::new(),
    )
}

#[test]
fn network_names_are_formatted_unique_and_sorted() {
    let state = registry(vec![
        Some("vodafone"),
        None,
        Some("  EIR mobile "),
        Some("Three"),
        Some("VODAFONE"),
        Some("eir Mobile"),
        Some("3 Ireland"),
    ]);
    assert_eq!(
        retrieve_network_names(&state).unwrap(),
        vec![
            "3 ireland".to_string(),
            "Eir mobile".to_string(),
            "Three".to_string(),
            "Vodafone".to_string()
        ]
    );
}

#[test]
fn network_names_of_no_named_operator_is_not_found() {
    let expected_error = |result: Result<Vec<String>, ErrorResponse>| match result {
        Err(ErrorResponse::NotFound {
            field,
            received,
            expected,
        }) => {
            assert_eq!(field, "Operator names");
            assert_eq!(received, "");
            assert_eq!(expected, "at least one operator name");
        }
        other => panic!("expected NotFound, got {:?}", other),
    };
    expected_error(retrieve_network_names(&registry(vec![])));
    expected_error(retrieve_network_names(&registry(vec![None, None])));
}

#[test]
fn blank_name_gives_an_empty_entry() {
    let state = registry(vec![Some("   "), Some("b")]);
    assert_eq!(
        retrieve_network_names(&state).unwrap(),
        vec!["".to_string(), "B".to_string()]
    );
}

#[test]
fn names_sort_by_code_point() {
    let state = registry(vec![Some("éclair"), Some("zed"), Some("Zed2"), Some("ab"), Some("a")]);
    let mut expected = vec![
        "Éclair".to_string(),
        "Zed".to_string(),
        "Zed2".to_string(),
        "Ab".to_string(),
        "A".to_string(),
    ];
    expected.sort_unstable();
    assert_eq!(retrieve_network_names(&state).unwrap(), expected);
    assert_eq!(expected[0], "A");
    assert_eq!(expected[4], "Éclair");
}

#[test]
fn insert_sorted_keeps_order_and_skips_what_is_there() {
    let mut names: Vec<String> = Vec::new();
    for n in ["m", "a", "z", "m", "b", "a", "zz", ""] {
        insert_sorted(&mut names, n.to_string());
    }
    assert_eq!(names, vec!["", "a", "b", "m", "z", "zz"]);
}

#[test]
fn format_network_name_examples() {
    assert_eq!(format_network_name("  voDAfone "), "Vodafone");
    assert_eq!(format_network_name(""), "");
    assert_eq!(format_network_name(" \t"), "");
    assert_eq!(format_network_name("ßtraße"), "SStraße");
    assert_eq!(format_network_name("o2 UK"), "O2 uk");
}
