use operator_mappings_api::app_state::loaders::{borders_from_rows, parse_country_borders};
use operator_mappings_api::app_state::model::CountryBordersMap;
use operator_mappings_api::app_state::AppState;
use operator_mappings_api::operators::find_roaming_partners::{
    collect_partners_by_country, find_base_country_by_tadig, find_roaming_partners,
    lookup_neighbor_names,
};
use operator_mappings_api::utils::error_responses::ErrorResponse;
use operator_mappings_api::utils::models::Operator;

fn operator(country: &str, name: &str, tadig: &str) -> Operator {
    Operator {
        country: country.to_string(),
        iso2: "XX".to_string(),
        iso3: "XXX".to_string(),
        name: Some(name.to_string()),
        e212: None,
        e164: None,
        realm: None,
        tadig: Some(vec![tadig.to_string()]),
    }
}

fn borders() -> CountryBordersMap {
    let mut table = CountryBordersMap::new();
    for neighbor in [
        "Bolivia (Plurinational State Of)",
        "Brazil",
        "Chile",
        "Paraguay",
        "Uruguay",
    ] {
        table.add_border("Argentina".to_string(), neighbor.to_string());
    }
    table.add_border("Chile".to_string(), "Argentina".to_string());
    table.add_border("Bolivia".to_string(), "Peru".to_string());
    table
}

fn registry() -> AppState {
    AppState::new(
        vec![
            operator("Argentina", "Movistar", "ARGTM"),
            operator("Chile", "Entel", "CHLMV"),
            operator("Brazil", "Vivo", "BRAVC"),
            operator("Bolivia (Plurinational State Of)", "Tigo", "BOLTE"),
            operator("France", "Orange", "FRAF1"),
            operator("Narnia", "Narnia Telecom", "NARN01"),
        ],
        "mappings.json".to_string(),
        borders(),
    )
}

#[test]
fn partners_of_argentina_are_the_operators_of_its_neighbors() {
    let state = registry();
    let found = find_roaming_partners(&state, "ARGTM").unwrap();
    let mut got = found.bordering_countries.clone();
    got.sort();
    let mut want = vec![
        "Bolivia (Plurinational State Of)".to_string(),
        "Brazil".to_string(),
        "Chile".to_string(),
        "Paraguay".to_string(),
        "Uruguay".to_string(),
    ];
    want.sort();
    assert_eq!(got, want);
    let partners: Vec<&str> = found.partners.iter().map(|p| p.country.as_str()).collect();
    assert_eq!(
        partners,
        vec!["Chile", "Brazil", "Bolivia (Plurinational State Of)"]
    );
    assert_eq!(found.message, "Found 3 roaming partners");
    assert_eq!(
        found.message,
        format!("Found {} roaming partners", found.partners.len())
    );
}

#[test]
fn partner_lookup_ignores_the_case_of_the_tadig() {
    let state = registry();
    let found = find_roaming_partners(&state, "chlmv").unwrap();
    assert_eq!(found.bordering_countries, vec!["Argentina".to_string()]);
    assert_eq!(found.partners.len(), 1);
    assert_eq!(found.partners[0].country, "Argentina");
    assert_eq!(found.message, "Found 1 roaming partners");
}

#[test]
fn partner_lookup_falls_back_to_a_table_country_held_in_the_name() {
    let state = registry();
    let found = find_roaming_partners(&state, "BOLTE").unwrap();
    assert_eq!(found.bordering_countries, vec!["Peru".to_string()]);
    assert!(found.partners.is_empty());
    assert_eq!(found.message, "Found 0 roaming partners");
}

#[test]
fn partner_lookup_errors() {
    let state = registry();
    match find_roaming_partners(&state, "DOES_NOT_EXIST") {
        Err(ErrorResponse::NotFound {
            field,
            received,
            expected,
        }) => {
            assert_eq!(field, "tadig");
            assert_eq!(received, "DOES_NOT_EXIST");
            assert_eq!(expected, "an existing TADIG");
        }
        other => panic!("expected NotFound, got {:?}", other.map(|r| r.message)),
    }
    assert!(matches!(
        find_roaming_partners(&state, ""),
        Err(ErrorResponse::NotFound { .. })
    ));
    match find_roaming_partners(&state, "NARN01") {
        Err(ErrorResponse::BorderCountryNotFound {
            field,
            received,
            expected,
        }) => {
            assert_eq!(field, "country");
            assert_eq!(received, "Narnia");
            assert_eq!(expected, "a country with known borders");
        }
        other => panic!(
            "expected BorderCountryNotFound, got {:?}",
            other.map(|r| r.message)
        ),
    }
}

#[test]
fn base_country_and_neighbors_step_by_step() {
    let ops = vec![
        operator("Argentina", "Movistar", "ARGTM"),
        operator("Chile", "Entel", "CHLMV"),
    ];
    assert_eq!(find_base_country_by_tadig(&ops, "argtm").unwrap(), "Argentina");
    assert!(find_base_country_by_tadig(&ops, "ARGT").is_err());
    let table = borders();
    assert_eq!(
        lookup_neighbor_names(&table, "Chile").unwrap(),
        vec!["Argentina".to_string()]
    );
    assert_eq!(
        lookup_neighbor_names(&table, "Republic of CHILE").unwrap(),
        vec!["Argentina".to_string()]
    );
    assert!(lookup_neighbor_names(&table, "Chil").is_err());
    let partners = collect_partners_by_country(&ops, &["chile".to_string(), "peru".to_string()]);
    assert_eq!(partners.len(), 1);
    assert_eq!(partners[0].country, "Chile");
    assert!(collect_partners_by_country(&ops, &["Chile".to_string()]).is_empty());
}

#[test]
fn message_counts_with_more_than_one_digit() {
    let mut ops = vec![operator("Argentina", "Movistar", "ARGTM")];
    for i in 0..12 {
        ops.push(operator("Chile", "Entel", &format!("CHL{:02}", i)));
    }
    let state = AppState::new(ops, "m.json".to_string(), borders());
    let found = find_roaming_partners(&state, "ARGTM").unwrap();
    assert_eq!(found.partners.len(), 12);
    assert_eq!(found.message, "Found 12 roaming partners");
}

#[test]
fn border_table_groups_rows_by_country() {
    let rows = vec![
        vec!["AR".to_string(), " Argentina ".to_string(), "BR".to_string(), " Brazil".to_string()],
        vec!["short".to_string(), "row".to_string(), "skipped".to_string()],
        vec!["CL".to_string(), "Chile".to_string(), "AR".to_string(), "Argentina".to_string()],
        vec![
            "AR".to_string(),
            "Argentina".to_string(),
            "CL".to_string(),
            "Chile".to_string(),
            "extra".to_string(),
        ],
    ];
    let table = borders_from_rows(&rows);
    assert_eq!(table.len(), 2);
    assert_eq!(table.entries[0].country, "Argentina");
    assert_eq!(
        table.get("Argentina").unwrap(),
        &vec!["Brazil".to_string(), "Chile".to_string()]
    );
    assert_eq!(table.get("Chile").unwrap(), &vec!["Argentina".to_string()]);
    assert!(table.get("Brazil").is_none());
    assert_eq!(table.index_of("Chile"), Some(1));
}

#[test]
fn border_table_is_read_from_csv_text_after_its_header() {
    let text = "country_code,country_name,country_border_code,country_border_name\n\
                AR,Argentina,BO,Bolivia (Plurinational State Of)\n\
                AR,Argentina,BR,Brazil\n\
                AD,Andorra,FR,France\n";
    let table = parse_country_borders(text).unwrap();
    assert_eq!(table.len(), 2);
    assert_eq!(
        table.get("Argentina").unwrap(),
        &vec![
            "Bolivia (Plurinational State Of)".to_string(),
            "Brazil".to_string()
        ]
    );
    assert_eq!(table.get("Andorra").unwrap(), &vec!["France".to_string()]);
    assert!(table.get("country_name").is_none());
    let quoted = "a,b,c,d\nX,\" Côte d'Ivoire \",Y,\"Ghana, Republic\"\n";
    let table = parse_country_borders(quoted).unwrap();
    assert_eq!(
        table.get("Côte d'Ivoire").unwrap(),
        &vec!["Ghana, Republic".to_string()]
    );
}

#[test]
fn csv_rows_of_unequal_length_are_an_error() {
    let text = "a,b,c,d\nAR,Argentina,BR,Brazil\nAR,Argentina\n";
    let message = parse_country_borders(text).unwrap_err();
    assert!(message.starts_with("CSV parse error: "));
    assert!(message.len() > "CSV parse error: ".len());
}
