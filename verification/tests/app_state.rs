use operator_mappings_api::app_state::model::{plain_copies, CountryBordersMap, StoreChange};
use operator_mappings_api::app_state::AppState;
use operator_mappings_api::utils::models::Operator;

fn operator(name: &str) -> Operator {
    Operator {
        country: "Ireland".to_string(),
        iso2: "IE".to_string(),
        iso3: "IRL".to_string(),
        name: Some(name.to_string()),
        e212: None,
        e164: None,
        realm: None,
        tadig: None,
    }
}

fn names(state: &AppState) -> Vec<String> {
    state
        .operators
        .iter()
        .map(|o| o.name.clone().unwrap())
        .collect()
}

fn registry() -> AppState {
    let mut borders = CountryBordersMap::new();
    borders.add_border("Ireland".to_string(), "United Kingdom".to_string());
    AppState::new(
        vec![operator("a"), operator("b"), operator("c"), operator("d")],
        "mappings.json".to_string(),
        borders,
    )
}

#[test]
fn new_registry_holds_the_operators_in_order() {
    let state = registry();
    assert_eq!(names(&state), vec!["a", "b", "c", "d"]);
    assert_eq!(state.mappings_file_path, "mappings.json");
    assert_eq!(state.borders.len(), 1);
    let empty = AppState::new(Vec::new(), String::new(), CountryBordersMap::new());
    assert!(empty.operators.is_empty());
}

#[test]
fn snapshot_copies_every_operator() {
    let state = registry();
    let copies = state.snapshot();
    assert_eq!(copies.len(), 4);
    assert_eq!(copies[2].name.as_deref(), Some("c"));
    assert_eq!(plain_copies(&state.operators).len(), 4);
}

#[test]
fn mutate_applies_one_change() {
    let mut state = registry();
    assert!(state.mutate(StoreChange::Append(operator("e"))).is_none());
    assert_eq!(names(&state), vec!["a", "b", "c", "d", "e"]);
    let old = state.mutate(StoreChange::Replace(1, operator("B"))).unwrap();
    assert_eq!(old.name.as_deref(), Some("b"));
    assert_eq!(names(&state), vec!["a", "B", "c", "d", "e"]);
    let gone = state.mutate(StoreChange::Remove(0)).unwrap();
    assert_eq!(gone.name.as_deref(), Some("a"));
    assert_eq!(names(&state), vec!["e", "B", "c", "d"]);
    let gone = state.mutate(StoreChange::Remove(3)).unwrap();
    assert_eq!(gone.name.as_deref(), Some("d"));
    assert_eq!(names(&state), vec!["e", "B", "c"]);
    assert_eq!(state.borders.len(), 1);
}
