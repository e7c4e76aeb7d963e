use deps_status::sandbox::{join_path, lock_path, plan_sandbox, resolver_command};

#[test]
fn sandbox_plan_holds_manifest_unchanged() {
    let manifest = "[dependencies]\ndep = \"0.1.0\"\n# trailing comment, no newline";
    let plan = plan_sandbox("owner", "project", manifest);
    assert_eq!(plan.prefix, "owner_project");
    assert_eq!(plan.manifest_name, "Cargo.toml");
    assert_eq!(plan.manifest_text, manifest);
    assert_eq!(plan.manifest_text.as_bytes(), manifest.as_bytes());
    assert_eq!(plan.source_dir, "src");
    assert_eq!(plan.placeholder_name, "lib.rs");
}

#[test]
fn resolver_is_run_against_the_sandbox_manifest() {
    let command = resolver_command("/tmp/owner_project.abc");
    assert_eq!(command.program, "cargo");
    assert_eq!(
        command.arguments,
        vec![
            "update".to_string(),
            "--manifest-path".to_string(),
            "/tmp/owner_project.abc/Cargo.toml".to_string()
        ]
    );
}

#[test]
fn lock_file_lies_beside_the_manifest() {
    assert_eq!(lock_path("/tmp/owner_project.abc"), "/tmp/owner_project.abc/Cargo.lock");
}

#[test]
fn paths_are_joined_with_a_slash() {
    assert_eq!(join_path("a", "b"), "a/b");
    assert_eq!(join_path("", "b"), "/b");
}
