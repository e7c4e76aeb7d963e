//! Failures that end a request, and the five kinds they fall into.

use vstd::prelude::*;

verus! {

/// The kinds of terminal failure, one per stage of a request.
#[derive(Clone, Copy, Debug, PartialEq, Eq, Structural)]
pub enum ErrorKind {
    /// The manifest could not be had from the remote host.
    FetchError,
    /// The manifest is not a valid structured document.
    ParseError,
    /// The resolution sandbox could not be set up.
    SandboxError,
    /// The resolver could not be run, or reported failure.
    ResolveError,
    /// The lock file is missing, unreadable or malformed.
    LockParseError,
}

/// A terminal failure, with the operation that was being attempted.
#[derive(Clone, Copy, Debug, PartialEq, Eq, Structural)]
pub enum Failure {
    /// No response came back from the remote host.
    Unreachable,
    /// The remote host answered with a status outside the success range.
    BadStatus(u16),
    /// The response arrived but its body could not be read as text.
    UnreadableBody,
    /// The manifest text is not a valid document.
    InvalidManifest,
    /// The sandbox directory or one of its files could not be created.
    SandboxUnavailable,
    /// The resolver process could not be started.
    ResolverNotStarted,
    /// The resolver process ran and reported failure.
    ResolverFailed,
    /// The resolver process did not exit within the time allowed.
    ResolverTimedOut,
    /// The lock file could not be read.
    UnreadableLock,
    /// The lock text is not a valid document.
    InvalidLock,
    /// The lock document has no root entry.
    MissingRoot,
    /// The root entry lists no dependencies.
    MissingDependencies,
    /// The root entry's dependencies are not a list.
    MalformedDependencies,
    /// A dependency descriptor has fewer than two space-delimited tokens.
    InvalidDescriptor,
}

impl Failure {
    /// The kind a failure belongs to.
    pub open spec fn spec_kind(self) -> ErrorKind {
        match self {
            Failure::Unreachable | Failure::BadStatus(_) | Failure::UnreadableBody => ErrorKind::FetchError,
            Failure::InvalidManifest => ErrorKind::ParseError,
            Failure::SandboxUnavailable => ErrorKind::SandboxError,
            Failure::ResolverNotStarted | Failure::ResolverFailed | Failure::ResolverTimedOut => ErrorKind::ResolveError,
            Failure::UnreadableLock
            | Failure::InvalidLock
            | Failure::MissingRoot
            | Failure::MissingDependencies
            | Failure::MalformedDependencies
            | Failure::InvalidDescriptor => ErrorKind::LockParseError,
        }
    }

    /// The kind a failure belongs to.
    pub fn kind(self) -> (k: ErrorKind)
        ensures
            k == self.spec_kind(),
    {
        match self {
            Failure::Unreachable | Failure::BadStatus(_) | Failure::UnreadableBody => ErrorKind::FetchError,
            Failure::InvalidManifest => ErrorKind::ParseError,
            Failure::SandboxUnavailable => ErrorKind::SandboxError,
            Failure::ResolverNotStarted | Failure::ResolverFailed | Failure::ResolverTimedOut => ErrorKind::ResolveError,
            Failure::UnreadableLock
            | Failure::InvalidLock
            | Failure::MissingRoot
            | Failure::MissingDependencies
            | Failure::MalformedDependencies
            | Failure::InvalidDescriptor => ErrorKind::LockParseError,
        }
    }

    /// What was being attempted when the failure occurred.
    pub open spec fn spec_context(self) -> Seq<char> {
        match self {
            Failure::Unreachable => "Unable to download Cargo.toml"@,
            Failure::BadStatus(_) => "Bad status code retrieving Cargo.toml"@,
            Failure::UnreadableBody => "Unable to read Cargo.toml body"@,
            Failure::InvalidManifest => "Unable to parse manifest"@,
            Failure::SandboxUnavailable => "Unable to create tmp file structure"@,
            Failure::ResolverNotStarted => "Unable to exec cargo update"@,
            Failure::ResolverFailed => "cargo update reported failure"@,
            Failure::ResolverTimedOut => "cargo update did not finish in time"@,
            Failure::UnreadableLock => "Unable to read Cargo.lock"@,
            Failure::InvalidLock => "Unable to parse Cargo.lock"@,
            Failure::MissingRoot => "Unable to find root in lockfile"@,
            Failure::MissingDependencies => "Unable to find dependencies in lockfile"@,
            Failure::MalformedDependencies => "Dependencies in lockfile are not a list"@,
            Failure::InvalidDescriptor => "Invalid dependency found"@,
        }
    }

    /// What was being attempted when the failure occurred, for diagnostics.
    pub fn context(self) -> (text: &'static str)
        ensures
            text@ == self.spec_context(),
    {
        match self {
            Failure::Unreachable => "Unable to download Cargo.toml",
            Failure::BadStatus(_) => "Bad status code retrieving Cargo.toml",
            Failure::UnreadableBody => "Unable to read Cargo.toml body",
            Failure::InvalidManifest => "Unable to parse manifest",
            Failure::SandboxUnavailable => "Unable to create tmp file structure",
            Failure::ResolverNotStarted => "Unable to exec cargo update",
            Failure::ResolverFailed => "cargo update reported failure",
            Failure::ResolverTimedOut => "cargo update did not finish in time",
            Failure::UnreadableLock => "Unable to read Cargo.lock",
            Failure::InvalidLock => "Unable to parse Cargo.lock",
            Failure::MissingRoot => "Unable to find root in lockfile",
            Failure::MissingDependencies => "Unable to find dependencies in lockfile",
            Failure::MalformedDependencies => "Dependencies in lockfile are not a list",
            Failure::InvalidDescriptor => "Invalid dependency found",
        }
    }
}

} // verus!
