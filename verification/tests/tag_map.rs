use mecab_ko_core::tag_map::init_tag_map;

#[test]
fn test_init_tag_map_verb_endings() {
    let map = init_tag_map();
    assert_eq!(map.get("VV+EF"), Some(&vec!["VV".to_string(), "EF".to_string()]));
    assert_eq!(map.get("VV+EC"), Some(&vec!["VV".to_string(), "EC".to_string()]));
    assert_eq!(map.get("VV+ETM"), Some(&vec!["VV".to_string(), "ETM".to_string()]));
}

#[test]
fn test_init_tag_map_three_way_splits() {
    let map = init_tag_map();
    assert_eq!(
        map.get("VV+EP+EF"),
        Some(&vec!["VV".to_string(), "EP".to_string(), "EF".to_string()])
    );
    assert_eq!(
        map.get("VA+EP+EF"),
        Some(&vec!["VA".to_string(), "EP".to_string(), "EF".to_string()])
    );
}

#[test]
fn test_init_tag_map_noun_particle_entries() {
    let map = init_tag_map();
    assert_eq!(map.get("NNG+JKS"), Some(&vec!["NNG".to_string(), "JKS".to_string()]));
    assert_eq!(map.get("NNG+JX"), Some(&vec!["NNG".to_string(), "JX".to_string()]));
    assert!(map.get("UNKNOWN+TAG").is_none());
}

#[test]
fn test_tag_map_one_entry_per_tag() {
    let map = init_tag_map();
    let parts = map.get("EP+EF").unwrap();
    assert_eq!(parts, &vec!["VCP".to_string(), "EF".to_string()]);
    assert!(map.get("NNG+JC+JX").is_none());
}
