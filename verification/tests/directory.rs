use trayasen::directory::{
    first_desk, get_desk_to_connect, get_desks, matches_filter, search_adapter_for_desks,
    ExpandedPeripheral, PotentialDesk, SavedDeskStates, SeenProperties, Sighting, DESK_KEYWORD,
};
use trayasen::error::BtError;
use trayasen::text::{chars_of, text_contains, text_ends_with};

fn named(perp: u32, name: &str) -> Sighting<u32> {
    Sighting { perp, properties: Some(SeenProperties { local_name: Some(name.to_string()) }) }
}

fn nameless(perp: u32) -> Sighting<u32> {
    Sighting { perp, properties: Some(SeenProperties { local_name: None }) }
}

fn unknown(perp: u32) -> Sighting<u32> {
    Sighting { perp, properties: None }
}

fn desk(perp: u32, name: &str) -> ExpandedPeripheral<u32> {
    ExpandedPeripheral { perp, name: name.to_string() }
}

#[test]
fn a_search_by_name_finds_the_one_desk_of_that_name() {
    let seen = vec![named(1, "Desk A"), named(2, "Desk B")];
    let found = search_adapter_for_desks(seen, &Some("Desk A".to_string()));
    assert_eq!(found, vec![desk(1, "Desk A")]);
}

#[test]
fn discovery_by_name_returns_exactly_the_named_desk() {
    let seen = vec![named(1, "Desk A"), named(2, "Desk B")];
    let scan = Ok(search_adapter_for_desks(seen, &Some("Desk A".to_string())));
    let found = get_desks(vec![scan]).unwrap();
    assert_eq!(found.len(), 1);
    assert_eq!(found[0].name, "Desk A");
    assert_eq!(found[0].perp, 1);
}

#[test]
fn a_search_by_name_is_exact_and_minds_the_case() {
    let seen = vec![
        named(1, "desk a"),
        named(2, "Desk A "),
        named(3, "Desk"),
        named(4, "Desk A"),
        named(5, "My Desk A"),
    ];
    let found = search_adapter_for_desks(seen, &Some("Desk A".to_string()));
    assert_eq!(found, vec![desk(4, "Desk A")]);
}

#[test]
fn a_search_by_name_keeps_every_peripheral_of_that_name_in_order() {
    let seen = vec![named(7, "Desk A"), named(3, "Lamp"), named(9, "Desk A")];
    let found = search_adapter_for_desks(seen, &Some("Desk A".to_string()));
    assert_eq!(found, vec![desk(7, "Desk A"), desk(9, "Desk A")]);
}

#[test]
fn a_search_without_a_name_goes_by_the_keyword() {
    let seen = vec![
        named(1, "Desk 4711"),
        named(2, "Lamp"),
        nameless(3),
        named(4, "IKEA Desk"),
        named(5, "desk"),
        named(6, "Des"),
    ];
    let found = search_adapter_for_desks(seen, &None);
    assert_eq!(found, vec![desk(1, "Desk 4711"), desk(4, "IKEA Desk")]);
}

#[test]
fn the_keyword_is_the_products() {
    assert_eq!(DESK_KEYWORD, "Desk");
}

#[test]
fn a_peripheral_without_a_name_goes_by_the_empty_name() {
    let seen = vec![nameless(1), named(2, "Desk A"), named(3, "")];
    let found = search_adapter_for_desks(seen, &Some(String::new()));
    assert_eq!(found, vec![desk(1, ""), desk(3, "")]);
}

#[test]
fn a_peripheral_of_which_nothing_is_known_is_passed_over() {
    let seen = vec![unknown(1), named(2, "Desk A"), unknown(3)];
    assert_eq!(
        search_adapter_for_desks(seen.clone(), &Some("Desk A".to_string())),
        vec![desk(2, "Desk A")]
    );
    assert_eq!(search_adapter_for_desks(seen.clone(), &None), vec![desk(2, "Desk A")]);
    assert_eq!(search_adapter_for_desks(seen, &Some(String::new())), Vec::new());
}

#[test]
fn a_search_of_nothing_finds_nothing() {
    let seen: Vec<Sighting<u32>> = Vec::new();
    assert!(search_adapter_for_desks(seen, &None).is_empty());
}

#[test]
fn the_filter_decides_name_by_name() {
    let asked = Some("Desk A".to_string());
    assert!(matches_filter(&asked, &Some("Desk A".to_string())));
    assert!(!matches_filter(&asked, &Some("Desk B".to_string())));
    assert!(!matches_filter(&asked, &None));
    assert!(matches_filter(&Some(String::new()), &None));
    assert!(matches_filter(&None, &Some("Desk".to_string())));
    assert!(matches_filter(&None, &Some("My Desk 2".to_string())));
    assert!(!matches_filter(&None, &Some("Table".to_string())));
    assert!(!matches_filter(&None, &None));
}

#[test]
fn the_desks_of_all_adapters_are_joined_in_order() {
    let scans = vec![
        Ok(vec![desk(1, "Desk A")]),
        Ok(Vec::new()),
        Ok(vec![desk(2, "Desk B"), desk(3, "Desk A")]),
    ];
    assert_eq!(
        get_desks(scans),
        Ok(vec![desk(1, "Desk A"), desk(2, "Desk B"), desk(3, "Desk A")])
    );
}

#[test]
fn no_desk_on_any_adapter_is_an_error() {
    let scans: Vec<Result<Vec<ExpandedPeripheral<u32>>, BtError>> =
        vec![Ok(Vec::new()), Ok(Vec::new())];
    assert_eq!(get_desks(scans), Err(BtError::CannotFindDevice));
}

#[test]
fn no_adapter_at_all_is_an_error() {
    let scans: Vec<Result<Vec<ExpandedPeripheral<u32>>, BtError>> = Vec::new();
    assert_eq!(get_desks(scans), Err(BtError::CannotFindDevice));
}

#[test]
fn the_first_failed_scan_is_handed_on() {
    let first = BtError::TransportError("adapter off".to_string());
    let second = BtError::TransportError("adapter gone".to_string());
    let scans = vec![
        Ok(vec![desk(1, "Desk A")]),
        Err(first.clone()),
        Ok(vec![desk(2, "Desk B")]),
        Err(second),
    ];
    assert_eq!(get_desks(scans), Err(first));
}

#[test]
fn the_first_desk_found_is_the_one_to_connect_to() {
    assert_eq!(first_desk(vec![desk(4, "Desk A"), desk(2, "Desk A")]), Ok(desk(4, "Desk A")));
    assert_eq!(first_desk(vec![desk(9, "Desk B")]), Ok(desk(9, "Desk B")));
}

#[test]
fn with_no_desk_found_there_is_none_to_connect_to() {
    let none: Vec<ExpandedPeripheral<u32>> = Vec::new();
    assert_eq!(first_desk(none), Err(BtError::CannotFindDevice));
}

#[test]
fn found_desks_are_shown_as_saved_where_a_name_is_on_record() {
    let desks = vec![desk(1, "Desk A"), desk(2, "Desk A")];
    let shown = get_desk_to_connect(&desks, &Some("Desk A".to_string()));
    assert_eq!(
        shown,
        vec![
            PotentialDesk { name: "Desk A".to_string(), status: "saved".to_string() },
            PotentialDesk { name: "Desk A".to_string(), status: "saved".to_string() },
        ]
    );
}

#[test]
fn found_desks_are_shown_as_new_where_none_is_on_record() {
    let desks = vec![desk(1, "Desk A"), desk(2, "Desk B")];
    let shown = get_desk_to_connect(&desks, &None);
    assert_eq!(
        shown,
        vec![
            PotentialDesk { name: "Desk A".to_string(), status: "new".to_string() },
            PotentialDesk { name: "Desk B".to_string(), status: "new".to_string() },
        ]
    );
}

#[test]
fn the_states_go_by_their_words() {
    assert_eq!(SavedDeskStates::New.as_str(), "new");
    assert_eq!(SavedDeskStates::Saved.as_str(), "saved");
}

#[test]
fn a_text_holds_its_parts() {
    assert!(text_contains("IKEA Desk 01", "Desk"));
    assert!(text_contains("Desk", "Desk"));
    assert!(text_contains("Desk", ""));
    assert!(text_contains("", ""));
    assert!(text_contains("DeDesk", "Desk"));
    assert!(text_contains("Schreibtisch für Desk", "Desk"));
    assert!(!text_contains("Des", "Desk"));
    assert!(!text_contains("desk", "Desk"));
    assert!(!text_contains("", "Desk"));
    assert!(!text_contains("D e s k", "Desk"));
}

#[test]
fn a_text_is_split_into_its_characters() {
    assert_eq!(chars_of("Tür 1"), vec!['T', 'ü', 'r', ' ', '1']);
    assert_eq!(chars_of(""), Vec::new());
}

#[test]
fn a_text_ends_with_its_last_character() {
    assert!(text_ends_with("/home/me/", '/'));
    assert!(!text_ends_with("/home/me", '/'));
    assert!(!text_ends_with("", '/'));
    assert!(text_ends_with("/", '/'));
}
