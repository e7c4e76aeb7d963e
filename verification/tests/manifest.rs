use deps_status::error::Failure;
use deps_status::manifest::{parse_manifest, DependencyClass, DependencyConstraint, DependencySet};

fn constraint(name: &str, requirement: Option<&str>) -> DependencyConstraint {
    DependencyConstraint { name: name.to_string(), requirement: requirement.map(str::to_string) }
}

#[test]
fn section_names() {
    assert_eq!(DependencyClass::Primary.section(), "dependencies");
    assert_eq!(DependencyClass::Development.section(), "dev-dependencies");
}

#[test]
fn dependency_set_insert_and_get() {
    let mut set = DependencySet::new();
    assert!(set.is_empty());
    set.insert(constraint("dep", Some("1.0.0")));
    set.insert(constraint("other", None));
    assert!(!set.is_empty());
    assert_eq!(set.len(), 2);
    assert_eq!(set.get("dep"), Some(&Some("1.0.0".to_string())));
    assert_eq!(set.get("other"), Some(&None));
    assert_eq!(set.get("missing"), None);
    assert_eq!(set.entry(0), Some((&"dep".to_string(), &Some("1.0.0".to_string()))));
    assert_eq!(set.entry(1), Some((&"other".to_string(), &None)));
    assert_eq!(set.entry(2), None);
}

#[test]
fn dependency_set_insert_replaces() {
    let mut set = DependencySet::new();
    set.insert(constraint("dep", Some("1.0.0")));
    set.insert(constraint("dep", Some("2.0.0")));
    assert_eq!(set.len(), 1);
    assert_eq!(set.get("dep"), Some(&Some("2.0.0".to_string())));
}

#[test]
fn manifest_declares_primary_dependencies() {
    let text = "[package]\nname = \"x\"\n\n[dependencies]\ndep = \"0.1.0\"\nother = \"2.0.0\"\n\n[dev-dependencies]\ntool = \"3.0.0\"\n";
    let set = parse_manifest(text, DependencyClass::Primary).unwrap().unwrap();
    assert_eq!(set.len(), 2);
    assert_eq!(set.get("dep"), Some(&Some("0.1.0".to_string())));
    assert_eq!(set.get("other"), Some(&Some("2.0.0".to_string())));
    assert_eq!(set.get("tool"), None);
}

#[test]
fn manifest_declares_development_dependencies() {
    let text = "[dependencies]\ndep = \"0.1.0\"\n\n[dev-dependencies]\ntool = \"3.0.0\"\n";
    let set = parse_manifest(text, DependencyClass::Development).unwrap().unwrap();
    assert_eq!(set.len(), 1);
    assert_eq!(set.get("tool"), Some(&Some("3.0.0".to_string())));
    assert_eq!(set.get("dep"), None);
}

#[test]
fn manifest_without_section_declares_nothing() {
    let text = "[package]\nname = \"x\"\n\n[dependencies]\ndep = \"0.1.0\"\n";
    assert!(parse_manifest(text, DependencyClass::Development).unwrap().is_none());
    assert!(parse_manifest("", DependencyClass::Primary).unwrap().is_none());
}

#[test]
fn manifest_section_that_is_no_table_declares_nothing() {
    assert!(parse_manifest("dependencies = 3\n", DependencyClass::Primary).unwrap().is_none());
}

#[test]
fn manifest_with_empty_section() {
    let set = parse_manifest("[dependencies]\n", DependencyClass::Primary).unwrap().unwrap();
    assert!(set.is_empty());
    assert_eq!(set.len(), 0);
}

#[test]
fn manifest_entry_that_is_no_string_has_no_requirement() {
    let text = "[dependencies]\ndep = { version = \"1.0.0\", features = [\"a\"] }\nplain = \"1.2.3\"\nnumber = 4\n";
    let set = parse_manifest(text, DependencyClass::Primary).unwrap().unwrap();
    assert_eq!(set.len(), 3);
    assert_eq!(set.get("dep"), Some(&None));
    assert_eq!(set.get("number"), Some(&None));
    assert_eq!(set.get("plain"), Some(&Some("1.2.3".to_string())));
}

#[test]
fn invalid_manifest_is_rejected() {
    assert!(matches!(
        parse_manifest("[dependencies\ndep = ", DependencyClass::Primary),
        Err(Failure::InvalidManifest)
    ));
    assert!(matches!(
        parse_manifest("dep = \"1.0.0\"\ndep = \"2.0.0\"\n", DependencyClass::Primary),
        Err(Failure::InvalidManifest)
    ));
}
