use deps_status::name_map::NameMap;

#[test]
fn new_map_is_empty() {
    let map: NameMap<u32> = NameMap::new();
    assert_eq!(map.len(), 0);
    assert_eq!(map.get("a"), None);
    assert!(map.entry(0).is_none());
}

#[test]
fn insert_then_get() {
    let mut map: NameMap<u32> = NameMap::new();
    map.insert("a".to_string(), 1);
    map.insert("b".to_string(), 2);
    assert_eq!(map.len(), 2);
    assert_eq!(map.get("a"), Some(&1));
    assert_eq!(map.get("b"), Some(&2));
    assert_eq!(map.get("c"), None);
}

#[test]
fn insert_replaces_in_place() {
    let mut map: NameMap<u32> = NameMap::new();
    map.insert("a".to_string(), 1);
    map.insert("b".to_string(), 2);
    map.insert("a".to_string(), 3);
    assert_eq!(map.len(), 2);
    assert_eq!(map.get("a"), Some(&3));
    assert_eq!(map.entry(0), Some((&"a".to_string(), &3)));
    assert_eq!(map.entry(1), Some((&"b".to_string(), &2)));
    assert_eq!(map.entry(2), None);
}

#[test]
fn names_are_case_sensitive() {
    let mut map: NameMap<u32> = NameMap::new();
    map.insert("Dep".to_string(), 1);
    map.insert("dep".to_string(), 2);
    assert_eq!(map.len(), 2);
    assert_eq!(map.get("Dep"), Some(&1));
    assert_eq!(map.get("dep"), Some(&2));
    assert_eq!(map.get("DEP"), None);
}
