//! One request, stage by stage. The pipeline decides; whoever drives it
//! performs each action it asks for and reports back what happened.

use vstd::prelude::*;
use crate::engine::{aggregate, aggregate_status};
use crate::error::{ErrorKind, Failure};
use crate::lock::{lock_reading, parse_lock};
use crate::manifest::{manifest_reading, parse_manifest, DependencyClass, DependencySet};
use crate::sandbox::{lock_path, path_under, plan_sandbox, plans_sandbox, resolver_command, runs_resolver, ResolverCommand, SandboxPlan};
use crate::source::{accept_response, is_success, manifest_url, manifest_url_of, response_outcome};
use crate::status::Status;

verus! {

/// Where a request stands: what it is waiting for, or how it ended.
#[derive(Clone, Copy, Debug, PartialEq, Eq)]
pub enum Stage {
    /// Waiting for the manifest to be fetched.
    Fetching,
    /// Waiting for the sandbox to be laid out.
    Preparing,
    /// Waiting for the resolver to exit.
    Resolving,
    /// Waiting for the lock file to be read.
    Reading,
    /// Over, with a status or with the failure that ended the request.
    Finished(Result<Status, Failure>),
}

/// What the pipeline asks its driver to do next.
#[derive(Debug, PartialEq, Eq)]
pub enum Action {
    /// Fetch the text at an address.
    Fetch { url: String },
    /// Lay out a fresh sandbox.
    PrepareSandbox(SandboxPlan),
    /// Run the resolver and wait for it to exit.
    RunResolver(ResolverCommand),
    /// Read the text of the file at a path.
    ReadLock { path: String },
    /// Nothing more: the request is over.
    Finish(Result<Status, Failure>),
}

/// What the driver reports back.
#[derive(Debug, PartialEq, Eq)]
pub enum Event {
    /// The request to the remote host brought no response.
    FetchFailed,
    /// The remote host responded; the body is there if it could be read as text.
    Fetched { status: u16, body: Option<String> },
    /// The sandbox could not be laid out.
    SandboxFailed,
    /// The sandbox is laid out, in the directory at `path`.
    SandboxReady { path: String },
    /// The resolver could not be started.
    ResolverNotStarted,
    /// The resolver ran and exited, reporting success or failure.
    ResolverExited { success: bool },
    /// The resolver was stopped because it did not exit in time.
    ResolverTimedOut,
    /// The lock file could not be read.
    LockUnreadable,
    /// The lock file holds `text`.
    LockRead { text: String },
}

/// The state of one request.
pub struct Pipeline {
    owner: String,
    project: String,
    class: DependencyClass,
    stage: Stage,
    declared: DependencySet,
    sandbox: String,
}

/// Whether a step ends the request with `outcome`.
pub open spec fn finishes(after: Pipeline, action: Action, outcome: Result<Status, Failure>) -> bool {
    &&& after.stage() == Stage::Finished(outcome)
    &&& action == Action::Finish(outcome)
}

/// The step taken on an event while the manifest is awaited. A manifest that
/// declares nothing in the requested class ends the request as up to date;
/// one that declares something asks for a sandbox.
pub open spec fn fetch_step(before: Pipeline, event: Event, after: Pipeline, action: Action) -> bool {
    match event {
        Event::Fetched { status, body } => match response_outcome(status, body) {
            Err(failure) => finishes(after, action, Err(failure)),
            Ok(manifest) => match manifest_reading(manifest, before.class().spec_section()) {
                Err(failure) => finishes(after, action, Err(failure)),
                Ok(None) => finishes(after, action, Ok(Status::UpToDate)),
                Ok(Some(declared)) => if declared == Map::<Seq<char>, Option<Seq<char>>>::empty() {
                    finishes(after, action, Ok(Status::UpToDate))
                } else {
                    &&& after.stage() == Stage::Preparing
                    &&& after.declared() == declared
                    &&& action is PrepareSandbox
                    &&& plans_sandbox(
                        action->PrepareSandbox_0,
                        before.owner(),
                        before.project(),
                        manifest,
                    )
                },
            },
        },
        _ => finishes(after, action, Err(Failure::Unreachable)),
    }
}

/// The step taken on an event while the sandbox is awaited.
pub open spec fn prepare_step(before: Pipeline, event: Event, after: Pipeline, action: Action) -> bool {
    match event {
        Event::SandboxReady { path } => {
            &&& after.stage() == Stage::Resolving
            &&& after.declared() == before.declared()
            &&& after.sandbox() == path@
            &&& action is RunResolver
            &&& runs_resolver(action->RunResolver_0, path@)
        },
        _ => finishes(after, action, Err(Failure::SandboxUnavailable)),
    }
}

/// The step taken on an event while the resolver's exit is awaited.
pub open spec fn resolve_step(before: Pipeline, event: Event, after: Pipeline, action: Action) -> bool {
    match event {
        Event::ResolverExited { success } => if success {
            &&& after.stage() == Stage::Reading
            &&& after.declared() == before.declared()
            &&& after.sandbox() == before.sandbox()
            &&& action is ReadLock
            &&& action->path@ == path_under(before.sandbox(), "Cargo.lock"@)
        } else {
            finishes(after, action, Err(Failure::ResolverFailed))
        },
        Event::ResolverTimedOut => finishes(after, action, Err(Failure::ResolverTimedOut)),
        _ => finishes(after, action, Err(Failure::ResolverNotStarted)),
    }
}

/// The step taken on an event while the lock text is awaited.
pub open spec fn read_step(before: Pipeline, event: Event, after: Pipeline, action: Action) -> bool {
    match event {
        Event::LockRead { text } => match lock_reading(text@) {
            Ok(resolved) => finishes(after, action, Ok(aggregate(before.declared(), resolved))),
            Err(failure) => finishes(after, action, Err(failure)),
        },
        _ => finishes(after, action, Err(Failure::UnreadableLock)),
    }
}

/// The step that the pipeline takes on an event. An event that does not
/// answer what the pipeline is waiting for counts as the failure of the
/// pending stage; once the request is over, every event is answered with its
/// outcome.
pub open spec fn step(before: Pipeline, event: Event, after: Pipeline, action: Action) -> bool {
    &&& after.owner() == before.owner()
    &&& after.project() == before.project()
    &&& after.class() == before.class()
    &&& match before.stage() {
        Stage::Fetching => fetch_step(before, event, after, action),
        Stage::Preparing => prepare_step(before, event, after, action),
        Stage::Resolving => resolve_step(before, event, after, action),
        Stage::Reading => read_step(before, event, after, action),
        Stage::Finished(outcome) => finishes(after, action, outcome),
    }
}

/// Whether a manifest reading declares nothing: the section is absent, or
/// it is there and empty.
pub open spec fn declares_nothing(
    reading: Result<Option<Map<Seq<char>, Option<Seq<char>>>>, Failure>,
) -> bool {
    match reading {
        Ok(None) => true,
        Ok(Some(declared)) => declared == Map::<Seq<char>, Option<Seq<char>>>::empty(),
        Err(_) => false,
    }
}

/// A manifest that declares nothing in the requested class ends the request
/// at once as up to date: no sandbox is asked for and no resolver is run.
pub proof fn lemma_nothing_declared_ends_request(
    before: Pipeline,
    status: u16,
    manifest: String,
    after: Pipeline,
    action: Action,
)
    requires
        before.stage() == Stage::Fetching,
        is_success(status),
        declares_nothing(manifest_reading(manifest@, before.class().spec_section())),
        step(before, Event::Fetched { status, body: Some(manifest) }, after, action),
    ensures
        action == Action::Finish(Ok(Status::UpToDate)),
        after.stage() == Stage::Finished(Ok::<Status, Failure>(Status::UpToDate)),
{
}

/// A request that is over stays over: whatever is reported next, the
/// pipeline asks for nothing but gives the same outcome again.
pub proof fn lemma_finished_is_final(
    before: Pipeline,
    outcome: Result<Status, Failure>,
    event: Event,
    after: Pipeline,
    action: Action,
)
    requires
        before.stage() == Stage::Finished(outcome),
        step(before, event, after, action),
    ensures
        action == Action::Finish(outcome),
        after.stage() == Stage::Finished(outcome),
{
}

/// Each stage fails with its own kind of failure: a request that ends in a
/// failure at some step ends with the kind of the stage it was in.
pub proof fn lemma_failure_kinds(
    before: Pipeline,
    event: Event,
    after: Pipeline,
    action: Action,
    failure: Failure,
)
    requires
        step(before, event, after, action),
        !(before.stage() is Finished),
        after.stage() == Stage::Finished(Err::<Status, Failure>(failure)),
    ensures
        before.stage() is Fetching ==> failure.spec_kind() == ErrorKind::FetchError
            || failure.spec_kind() == ErrorKind::ParseError,
        before.stage() is Preparing ==> failure.spec_kind() == ErrorKind::SandboxError,
        before.stage() is Resolving ==> failure.spec_kind() == ErrorKind::ResolveError,
        before.stage() is Reading ==> failure.spec_kind() == ErrorKind::LockParseError,
{
}

impl Pipeline {
    /// The owner of the project.
    pub closed spec fn owner(&self) -> Seq<char> {
        self.owner@
    }

    /// The project whose dependencies are evaluated.
    pub closed spec fn project(&self) -> Seq<char> {
        self.project@
    }

    /// The class of dependencies that is evaluated.
    pub closed spec fn class(&self) -> DependencyClass {
        self.class
    }

    /// Where the request stands.
    pub closed spec fn stage(&self) -> Stage {
        self.stage
    }

    /// The dependencies that the manifest declares, once it is read.
    pub closed spec fn declared(&self) -> Map<Seq<char>, Option<Seq<char>>> {
        self.declared@
    }

    /// The directory of the sandbox, once it is laid out.
    pub closed spec fn sandbox(&self) -> Seq<char> {
        self.sandbox@
    }

    /// Opens a request. The first action is to fetch the project's manifest.
    pub fn start(owner: &str, project: &str, class: DependencyClass) -> (r: (Pipeline, Action))
        ensures
            r.0.owner() == owner@,
            r.0.project() == project@,
            r.0.class() == class,
            r.0.stage() == Stage::Fetching,
            r.0.declared() == Map::<Seq<char>, Option<Seq<char>>>::empty(),
            r.0.sandbox() == Seq::<char>::empty(),
            r.1 is Fetch,
            r.1->url@ == manifest_url_of(owner@, project@),
    {
        let pipeline = Pipeline {
            owner: owner.to_owned(),
            project: project.to_owned(),
            class,
            stage: Stage::Fetching,
            declared: DependencySet::new(),
            sandbox: String::new(),
        };
        (pipeline, Action::Fetch { url: manifest_url(owner, project) })
    }

    /// Where the request stands.
    pub fn current_stage(&self) -> (stage: Stage)
        ensures
            stage == self.stage(),
    {
        self.stage
    }

    /// Ends the request.
    fn finish(&mut self, outcome: Result<Status, Failure>) -> (action: Action)
        ensures
            finishes(*final(self), action, outcome),
            final(self).owner() == old(self).owner(),
            final(self).project() == old(self).project(),
            final(self).class() == old(self).class(),
    {
        self.stage = Stage::Finished(outcome);
        Action::Finish(outcome)
    }

    /// Takes what the driver reports and decides what comes next.
    pub fn advance(&mut self, event: Event) -> (action: Action)
        ensures
            step(*old(self), event, *final(self), action),
    {
        match self.stage {
            Stage::Fetching => match event {
                Event::Fetched { status, body } => {
                    let manifest = match accept_response(status, body) {
                        Ok(manifest) => manifest,
                        Err(failure) => {
                            return self.finish(Err(failure));
                        },
                    };
                    match parse_manifest(manifest.as_str(), self.class) {
                        Err(failure) => self.finish(Err(failure)),
                        Ok(None) => self.finish(Ok(Status::UpToDate)),
                        Ok(Some(declared)) => {
                            if declared.is_empty() {
                                self.finish(Ok(Status::UpToDate))
                            } else {
                                let plan = plan_sandbox(
                                    self.owner.as_str(),
                                    self.project.as_str(),
                                    manifest.as_str(),
                                );
                                self.declared = declared;
                                self.stage = Stage::Preparing;
                                Action::PrepareSandbox(plan)
                            }
                        },
                    }
                },
                _ => self.finish(Err(Failure::Unreachable)),
            },
            Stage::Preparing => match event {
                Event::SandboxReady { path } => {
                    let command = resolver_command(path.as_str());
                    self.sandbox = path;
                    self.stage = Stage::Resolving;
                    Action::RunResolver(command)
                },
                _ => self.finish(Err(Failure::SandboxUnavailable)),
            },
            Stage::Resolving => match event {
                Event::ResolverExited { success } => {
                    if success {
                        self.stage = Stage::Reading;
                        Action::ReadLock { path: lock_path(self.sandbox.as_str()) }
                    } else {
                        self.finish(Err(Failure::ResolverFailed))
                    }
                },
                Event::ResolverTimedOut => self.finish(Err(Failure::ResolverTimedOut)),
                _ => self.finish(Err(Failure::ResolverNotStarted)),
            },
            Stage::Reading => match event {
                Event::LockRead { text } => match parse_lock(text.as_str()) {
                    Ok(resolved) => {
                        let status = aggregate_status(&self.declared, &resolved);
                        self.finish(Ok(status))
                    },
                    Err(failure) => self.finish(Err(failure)),
                },
                _ => self.finish(Err(Failure::UnreadableLock)),
            },
            Stage::Finished(outcome) => Action::Finish(outcome),
        }
    }
}

} // verus!
