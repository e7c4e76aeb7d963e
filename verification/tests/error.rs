use deps_status::error::{ErrorKind, Failure};

#[test]
fn fetch_failures_are_fetch_errors() {
    assert_eq!(Failure::Unreachable.kind(), ErrorKind::FetchError);
    assert_eq!(Failure::BadStatus(404).kind(), ErrorKind::FetchError);
    assert_eq!(Failure::UnreadableBody.kind(), ErrorKind::FetchError);
}

#[test]
fn invalid_manifest_is_parse_error() {
    assert_eq!(Failure::InvalidManifest.kind(), ErrorKind::ParseError);
}

#[test]
fn sandbox_failure_is_sandbox_error() {
    assert_eq!(Failure::SandboxUnavailable.kind(), ErrorKind::SandboxError);
}

#[test]
fn resolver_failures_are_resolve_errors() {
    assert_eq!(Failure::ResolverNotStarted.kind(), ErrorKind::ResolveError);
    assert_eq!(Failure::ResolverFailed.kind(), ErrorKind::ResolveError);
    assert_eq!(Failure::ResolverTimedOut.kind(), ErrorKind::ResolveError);
}

#[test]
fn lock_failures_are_lock_parse_errors() {
    assert_eq!(Failure::UnreadableLock.kind(), ErrorKind::LockParseError);
    assert_eq!(Failure::InvalidLock.kind(), ErrorKind::LockParseError);
    assert_eq!(Failure::MissingRoot.kind(), ErrorKind::LockParseError);
    assert_eq!(Failure::MissingDependencies.kind(), ErrorKind::LockParseError);
    assert_eq!(Failure::MalformedDependencies.kind(), ErrorKind::LockParseError);
    assert_eq!(Failure::InvalidDescriptor.kind(), ErrorKind::LockParseError);
}

#[test]
fn context_says_what_was_attempted() {
    assert_eq!(Failure::Unreachable.context(), "Unable to download Cargo.toml");
    assert_eq!(Failure::BadStatus(500).context(), "Bad status code retrieving Cargo.toml");
    assert_eq!(Failure::UnreadableBody.context(), "Unable to read Cargo.toml body");
    assert_eq!(Failure::InvalidManifest.context(), "Unable to parse manifest");
    assert_eq!(Failure::SandboxUnavailable.context(), "Unable to create tmp file structure");
    assert_eq!(Failure::ResolverNotStarted.context(), "Unable to exec cargo update");
    assert_eq!(Failure::ResolverFailed.context(), "cargo update reported failure");
    assert_eq!(Failure::ResolverTimedOut.context(), "cargo update did not finish in time");
    assert_eq!(Failure::UnreadableLock.context(), "Unable to read Cargo.lock");
    assert_eq!(Failure::InvalidLock.context(), "Unable to parse Cargo.lock");
    assert_eq!(Failure::MissingRoot.context(), "Unable to find root in lockfile");
    assert_eq!(Failure::MissingDependencies.context(), "Unable to find dependencies in lockfile");
    assert_eq!(Failure::MalformedDependencies.context(), "Dependencies in lockfile are not a list");
    assert_eq!(Failure::InvalidDescriptor.context(), "Invalid dependency found");
}
