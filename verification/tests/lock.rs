use deps_status::error::{ErrorKind, Failure};
use deps_status::lock::{parse_lock, split_descriptor, ResolvedDependency, ResolvedSet};

fn resolved(name: &str, version: &str) -> ResolvedDependency {
    ResolvedDependency { name: name.to_string(), version: version.to_string() }
}

#[test]
fn descriptor_with_source_gives_first_two_tokens() {
    assert_eq!(
        split_descriptor("dep 0.2.0 (registry+https://github.com/rust-lang/crates.io-index)"),
        Some(resolved("dep", "0.2.0"))
    );
}

#[test]
fn descriptor_with_two_tokens() {
    assert_eq!(split_descriptor("dep 0.2.0"), Some(resolved("dep", "0.2.0")));
}

#[test]
fn descriptor_with_one_token_is_malformed() {
    assert_eq!(split_descriptor("dep"), None);
}

#[test]
fn empty_descriptor_is_malformed() {
    assert_eq!(split_descriptor(""), None);
}

#[test]
fn descriptor_tokens_may_be_empty() {
    assert_eq!(split_descriptor("dep "), Some(resolved("dep", "")));
    assert_eq!(split_descriptor(" 1.0.0"), Some(resolved("", "1.0.0")));
    assert_eq!(split_descriptor("dep  1.0.0"), Some(resolved("dep", "")));
    assert_eq!(split_descriptor(" "), Some(resolved("", "")));
}

#[test]
fn only_spaces_delimit_tokens() {
    assert_eq!(split_descriptor("dep\t1.0.0"), None);
    assert_eq!(split_descriptor("dep\n1.0.0"), None);
    assert_eq!(split_descriptor("dep\t1.0.0 x"), Some(resolved("dep\t1.0.0", "x")));
}

#[test]
fn descriptor_with_wide_characters() {
    assert_eq!(split_descriptor("dép 1.0.0 ü"), Some(resolved("dép", "1.0.0")));
}

#[test]
fn resolved_set_insert_and_get() {
    let mut set = ResolvedSet::new();
    assert_eq!(set.len(), 0);
    set.insert(resolved("dep", "1.0.0"));
    set.insert(resolved("other", "2.0.0"));
    assert_eq!(set.len(), 2);
    assert_eq!(set.get("dep"), Some("1.0.0"));
    assert_eq!(set.get("other"), Some("2.0.0"));
    assert_eq!(set.get("missing"), None);
    assert_eq!(set.get("Dep"), None);
}

#[test]
fn from_descriptors_reads_each_descriptor() {
    let set = ResolvedSet::from_descriptors(&["dep 1.0.0 (x)", "other 2.0.0"]).unwrap();
    assert_eq!(set.len(), 2);
    assert_eq!(set.get("dep"), Some("1.0.0"));
    assert_eq!(set.get("other"), Some("2.0.0"));
}

#[test]
fn from_descriptors_of_nothing_is_empty() {
    let set = ResolvedSet::from_descriptors(&[]).unwrap();
    assert_eq!(set.len(), 0);
}

#[test]
fn from_descriptors_later_entry_replaces_earlier() {
    let set = ResolvedSet::from_descriptors(&["dep 1.0.0", "dep 1.1.0"]).unwrap();
    assert_eq!(set.len(), 1);
    assert_eq!(set.get("dep"), Some("1.1.0"));
}

#[test]
fn from_descriptors_rejects_malformed_entry() {
    let r = ResolvedSet::from_descriptors(&["dep 1.0.0", "broken", "other 2.0.0"]);
    assert!(matches!(r, Err(Failure::InvalidDescriptor)));
}

#[test]
fn parse_lock_reads_root_dependencies() {
    let text = "[root]\nname = \"sandbox\"\nversion = \"0.1.0\"\ndependencies = [\n \"dep 0.2.0 (registry+https://example.org/index)\",\n \"other 2.0.0 (registry+https://example.org/index)\",\n]\n\n[[package]]\nname = \"dep\"\nversion = \"0.2.0\"\n";
    let set = parse_lock(text).unwrap();
    assert_eq!(set.len(), 2);
    assert_eq!(set.get("dep"), Some("0.2.0"));
    assert_eq!(set.get("other"), Some("2.0.0"));
}

#[test]
fn parse_lock_with_empty_list() {
    let set = parse_lock("[root]\ndependencies = []\n").unwrap();
    assert_eq!(set.len(), 0);
}

#[test]
fn parse_lock_twice_gives_equal_sets() {
    let text = "[root]\ndependencies = [\"dep 0.2.0\", \"other 2.0.0\", \"dep 0.3.0\"]\n";
    let first = parse_lock(text).unwrap();
    let second = parse_lock(text).unwrap();
    assert_eq!(first.len(), second.len());
    for name in ["dep", "other", "missing"] {
        assert_eq!(first.get(name), second.get(name));
    }
    assert_eq!(first.get("dep"), Some("0.3.0"));
}

#[test]
fn parse_lock_rejects_invalid_text() {
    assert!(matches!(parse_lock("[root\ndependencies = ["), Err(Failure::InvalidLock)));
}

#[test]
fn parse_lock_rejects_missing_root() {
    assert!(matches!(parse_lock("[package]\nname = \"x\"\n"), Err(Failure::MissingRoot)));
    assert!(matches!(parse_lock(""), Err(Failure::MissingRoot)));
}

#[test]
fn parse_lock_rejects_missing_dependencies() {
    assert!(matches!(parse_lock("[root]\nname = \"x\"\n"), Err(Failure::MissingDependencies)));
}

#[test]
fn parse_lock_rejects_root_that_is_no_table() {
    assert!(matches!(parse_lock("root = 1\n"), Err(Failure::MissingDependencies)));
}

#[test]
fn parse_lock_rejects_dependencies_that_are_no_list() {
    assert!(matches!(
        parse_lock("[root]\ndependencies = \"dep 1.0.0\"\n"),
        Err(Failure::MalformedDependencies)
    ));
}

#[test]
fn parse_lock_rejects_malformed_descriptor() {
    let r = parse_lock("[root]\ndependencies = [\"dep 1.0.0\", \"broken\"]\n");
    match r {
        Err(failure) => {
            assert_eq!(failure, Failure::InvalidDescriptor);
            assert_eq!(failure.kind(), ErrorKind::LockParseError);
        }
        Ok(_) => panic!("a malformed descriptor was accepted"),
    }
}

#[test]
fn parse_lock_rejects_descriptor_that_is_no_string() {
    assert!(matches!(
        parse_lock("[root]\ndependencies = [1, 2]\n"),
        Err(Failure::InvalidDescriptor)
    ));
}
