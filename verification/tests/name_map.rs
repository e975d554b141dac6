use oas_car::name_map::NameMap;

#[test]
fn insert_replaces_and_get_finds() {
    let mut map: NameMap<u64> = NameMap::new();
    assert_eq!(map.get("a"), None);
    map.insert("a".to_string(), 1);
    map.insert("b".to_string(), 2);
    map.insert("a".to_string(), 3);
    assert_eq!(map.get("a"), Some(&3));
    assert_eq!(map.get("b"), Some(&2));
    assert_eq!(map.get("c"), None);
    assert_eq!(map.get(""), None);
    map.insert(String::new(), 4);
    assert_eq!(map.get(""), Some(&4));
}

#[test]
fn clone_keeps_the_entries() {
    let mut map: NameMap<u64> = NameMap::new();
    map.insert("x".to_string(), 7);
    map.insert("y".to_string(), 8);
    let copy = map.clone();
    assert_eq!(copy.get("x"), Some(&7));
    assert_eq!(copy.get("y"), Some(&8));
    assert_eq!(copy.get("z"), None);
}
