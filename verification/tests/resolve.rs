use tzclock::table::{resolve_cities, CityTable};

fn sample_table() -> CityTable {
    let mut t = CityTable::new();
    assert!(t.add("Oslo".to_string(), "Europe/Oslo".to_string()));
    assert!(t.add("Tokyo".to_string(), "Asia/Tokyo".to_string()));
    assert!(t.add("New York".to_string(), "America/New_York".to_string()));
    t
}

#[test]
fn lookup_returns_exact_paired_identifier() {
    let t = sample_table();
    assert_eq!(t.lookup(&"Oslo".to_string()), Some(&"Europe/Oslo".to_string()));
    assert_eq!(t.lookup(&"Tokyo".to_string()), Some(&"Asia/Tokyo".to_string()));
    assert_eq!(t.lookup(&"New York".to_string()), Some(&"America/New_York".to_string()));
}

#[test]
fn lookup_is_case_sensitive_and_exact() {
    let t = sample_table();
    assert_eq!(t.lookup(&"oslo".to_string()), None);
    assert_eq!(t.lookup(&"Osl".to_string()), None);
    assert_eq!(t.lookup(&"Oslo ".to_string()), None);
    assert_eq!(t.lookup(&"Atlantis".to_string()), None);
}

#[test]
fn add_refuses_duplicate_city() {
    let mut t = sample_table();
    assert_eq!(t.len(), 3);
    assert!(!t.add("Oslo".to_string(), "Europe/Paris".to_string()));
    assert_eq!(t.len(), 3);
    // The original pairing survives.
    assert_eq!(t.lookup(&"Oslo".to_string()), Some(&"Europe/Oslo".to_string()));
}

#[test]
fn resolution_pairs_every_present_city_in_order() {
    let t = sample_table();
    let cities = vec!["Tokyo".to_string(), "Oslo".to_string()];
    let pairs = resolve_cities(&t, &cities).expect("all present");
    assert_eq!(
        pairs,
        vec![
            ("Tokyo".to_string(), "Asia/Tokyo".to_string()),
            ("Oslo".to_string(), "Europe/Oslo".to_string()),
        ]
    );
}

#[test]
fn resolution_of_no_cities_is_empty() {
    let t = sample_table();
    let pairs = resolve_cities(&t, &vec![]).expect("nothing to resolve");
    assert!(pairs.is_empty());
}

#[test]
fn resolution_fails_on_first_absent_name() {
    let t = sample_table();
    let cities = vec![
        "Oslo".to_string(),
        "Atlantis".to_string(),
        "Tokyo".to_string(),
        "Nowhere".to_string(),
    ];
    let err = resolve_cities(&t, &cities).expect_err("Atlantis is absent");
    assert_eq!(err.city, "Atlantis");
    assert_eq!(err.index, 1);
}

#[test]
fn not_found_message_names_the_city() {
    let t = CityTable::new();
    let err = resolve_cities(&t, &vec!["Atlantis".to_string()]).expect_err("empty table");
    assert_eq!(err.message(), "Timezone not found for city: Atlantis");
}
