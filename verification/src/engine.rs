//! The reconciliation engine: given what the probes report about the
//! current directory, the registry, the repository and its remote, it
//! decides the next action to take and the next state to wait in.
//!
//! The engine performs no work of its own. The driver executes each
//! returned [`Action`] — a probe, a prompt, or one state-changing
//! operation — and feeds the result back as an [`Event`]; the exchange
//! repeats until the action is [`Action::Stop`]. Every state-changing step
//! is guarded by an explicit confirmation prompt whose answer arrives as
//! [`Event::Confirmed`], and a decline never leads to a mutating action.
//!
//! An event that does not answer the pending action, or a probe that could
//! not be run at all, aborts the exchange with
//! [`Outcome::ProcessInvocationError`].

use vstd::prelude::*;
use crate::sync::SyncClass;
use crate::sync::classify_spec;
use crate::sync::classify;
use crate::text::copy_bytes;
use crate::text::trim_ascii;
use crate::text::trim_spec;

verus! {

/// How a reconciliation run ended. `UpToDate` and `Diverged` are reported
/// states, not errors; declines record that the user kept the engine from
/// acting.
#[derive(Clone, Copy, Debug, PartialEq, Eq, Structural)]
pub enum Outcome {
    /// The current directory holds no repository.
    NotARepository,
    /// The directory lacks a descriptor and the user declined adoption.
    NotManaged,
    /// The registry has entries but none matches the current directory.
    UntrackedDirectory,
    /// A prompted-for name or commit message was empty after trimming.
    EmptyInput,
    /// The descriptor or the registry could not be written.
    PersistenceError,
    /// An external tool could not be launched, or its answer did not fit
    /// the pending question.
    ProcessInvocationError,
    /// An external tool ran and reported failure.
    ProcessFailure,
    /// The hosting tool is not authenticated.
    HostingAuthRequired,
    /// Local and remote agree.
    UpToDate,
    /// Both sides have commits of their own; manual resolution is needed.
    Diverged { ahead: u64, behind: u64 },
    /// The offered push ran and succeeded.
    Pushed,
    /// The user declined the offered push.
    PushDeclined,
    /// The offered pull ran and succeeded.
    Pulled,
    /// The user declined the offered pull.
    PullDeclined,
    /// A hosted repository was created (and the source pushed).
    RemoteCreated,
    /// The user declined to create a hosted repository.
    BootstrapDeclined,
    /// The user cancelled at the name-conflict choice.
    BootstrapCancelled,
    /// Creating, recreating or deleting the hosted repository failed.
    BootstrapFailed,
}

/// What follows the remote-bootstrap sub-flow: entered from adoption it
/// falls through to the commit phase, entered from the sync phase it ends
/// the run.
#[derive(Clone, Copy, Debug, PartialEq, Eq, Structural)]
pub enum Cont {
    ThenCommit,
    ThenStop,
}

/// What the hosting tool reported for a repository creation.
#[derive(Clone, Copy, Debug, PartialEq, Eq, Structural)]
pub enum CreateResult {
    Created,
    /// The distinguished name-conflict failure, special-cased by the engine.
    NameTaken,
    CreateFailed,
}

/// What the hosting tool reported for a repository deletion.
#[derive(Clone, Copy, Debug, PartialEq, Eq, Structural)]
pub enum DeleteResult {
    Deleted,
    /// The distinguished missing-authorization-scope failure: the engine
    /// refreshes the scope and retries the deletion exactly once.
    ScopeMissing,
    DeleteFailed,
}

/// The three answers to the name-conflict prompt.
#[derive(Clone, Copy, Debug, PartialEq, Eq, Structural)]
pub enum ConflictChoice {
    Rename,
    Overwrite,
    Cancel,
}

/// Where the engine waits for the driver's next event.
#[derive(Debug, PartialEq, Eq)]
pub enum State {
    AwaitRepo,
    AwaitDescriptor,
    AwaitAdoptAnswer,
    AwaitName,
    AwaitDescriptorWrite { name: Vec<u8> },
    AwaitRegistryAppend { name: Vec<u8> },
    AwaitAdoptRemote { name: Vec<u8> },
    AwaitAdoptBootstrapAnswer { name: Vec<u8> },
    AwaitValidate,
    AwaitChanges,
    AwaitStage,
    AwaitMessage,
    AwaitCommit,
    AwaitRemote,
    AwaitBootstrapAnswer,
    AwaitBootstrapName,
    AwaitAuth { name: Vec<u8>, cont: Cont },
    AwaitCreate { name: Vec<u8>, cont: Cont },
    AwaitConflictChoice { name: Vec<u8>, cont: Cont },
    AwaitNewName { cont: Cont },
    AwaitRetryCreate { cont: Cont },
    AwaitDelete { name: Vec<u8>, cont: Cont, retried: bool },
    AwaitRefresh { name: Vec<u8>, cont: Cont },
    AwaitRecreate { cont: Cont },
    AwaitFetch,
    AwaitCounts,
    AwaitPushAnswer,
    AwaitPush,
    AwaitPullAnswer,
    AwaitPull,
    Done { outcome: Outcome },
}

/// What the driver reports back to the engine.
#[derive(Debug, PartialEq, Eq)]
pub enum Event {
    RepoChecked { present: bool },
    DescriptorChecked { present: bool },
    RegistryChecked { has_entries: bool, current_registered: bool },
    Confirmed { yes: bool },
    LineEntered { line: Vec<u8> },
    DescriptorName { name: Vec<u8> },
    WriteFinished { ok: bool },
    ChangesChecked { present: bool },
    StageFinished { ok: bool },
    CommitFinished { ok: bool },
    RemoteChecked { present: bool },
    FetchFinished { ok: bool },
    CountsChecked { ahead: u64, behind: u64 },
    PushFinished { ok: bool },
    PullFinished { ok: bool },
    AuthChecked { ok: bool },
    CreateFinished { result: CreateResult },
    DeleteFinished { status: DeleteResult },
    RefreshFinished { ok: bool },
    ChoiceMade { choice: ConflictChoice },
    ProbeFailed,
}

/// What the driver must do next.
#[derive(Debug, PartialEq, Eq)]
pub enum Action {
    ProbeRepo,
    ProbeDescriptor,
    AskAdopt,
    AskName,
    WriteDescriptor { name: Vec<u8> },
    AppendRegistry { name: Vec<u8> },
    ProbeRegistry,
    ProbeChanges,
    StageAll,
    AskMessage,
    Commit { message: Vec<u8> },
    ProbeRemote,
    Fetch,
    ProbeCounts,
    AskPush { ahead: u64 },
    Push,
    AskPull { behind: u64 },
    Pull,
    AskBootstrap,
    ReadDescriptorName,
    ProbeAuth,
    CreateRepo { name: Vec<u8> },
    AskConflictChoice { name: Vec<u8> },
    AskNewName,
    DeleteRepo { name: Vec<u8> },
    RefreshScope,
    Stop { outcome: Outcome },
}

/// The mathematical shape of a [`State`]: byte payloads as sequences.
pub ghost enum StateModel {
    AwaitRepo,
    AwaitDescriptor,
    AwaitAdoptAnswer,
    AwaitName,
    AwaitDescriptorWrite { name: Seq<u8> },
    AwaitRegistryAppend { name: Seq<u8> },
    AwaitAdoptRemote { name: Seq<u8> },
    AwaitAdoptBootstrapAnswer { name: Seq<u8> },
    AwaitValidate,
    AwaitChanges,
    AwaitStage,
    AwaitMessage,
    AwaitCommit,
    AwaitRemote,
    AwaitBootstrapAnswer,
    AwaitBootstrapName,
    AwaitAuth { name: Seq<u8>, cont: Cont },
    AwaitCreate { name: Seq<u8>, cont: Cont },
    AwaitConflictChoice { name: Seq<u8>, cont: Cont },
    AwaitNewName { cont: Cont },
    AwaitRetryCreate { cont: Cont },
    AwaitDelete { name: Seq<u8>, cont: Cont, retried: bool },
    AwaitRefresh { name: Seq<u8>, cont: Cont },
    AwaitRecreate { cont: Cont },
    AwaitFetch,
    AwaitCounts,
    AwaitPushAnswer,
    AwaitPush,
    AwaitPullAnswer,
    AwaitPull,
    Done { outcome: Outcome },
}

/// The mathematical shape of an [`Event`].
pub ghost enum EventModel {
    RepoChecked { present: bool },
    DescriptorChecked { present: bool },
    RegistryChecked { has_entries: bool, current_registered: bool },
    Confirmed { yes: bool },
    LineEntered { line: Seq<u8> },
    DescriptorName { name: Seq<u8> },
    WriteFinished { ok: bool },
    ChangesChecked { present: bool },
    StageFinished { ok: bool },
    CommitFinished { ok: bool },
    RemoteChecked { present: bool },
    FetchFinished { ok: bool },
    CountsChecked { ahead: u64, behind: u64 },
    PushFinished { ok: bool },
    PullFinished { ok: bool },
    AuthChecked { ok: bool },
    CreateFinished { result: CreateResult },
    DeleteFinished { status: DeleteResult },
    RefreshFinished { ok: bool },
    ChoiceMade { choice: ConflictChoice },
    ProbeFailed,
}

/// The mathematical shape of an [`Action`].
pub ghost enum ActionModel {
    ProbeRepo,
    ProbeDescriptor,
    AskAdopt,
    AskName,
    WriteDescriptor { name: Seq<u8> },
    AppendRegistry { name: Seq<u8> },
    ProbeRegistry,
    ProbeChanges,
    StageAll,
    AskMessage,
    Commit { message: Seq<u8> },
    ProbeRemote,
    Fetch,
    ProbeCounts,
    AskPush { ahead: u64 },
    Push,
    AskPull { behind: u64 },
    Pull,
    AskBootstrap,
    ReadDescriptorName,
    ProbeAuth,
    CreateRepo { name: Seq<u8> },
    AskConflictChoice { name: Seq<u8> },
    AskNewName,
    DeleteRepo { name: Seq<u8> },
    RefreshScope,
    Stop { outcome: Outcome },
}

impl View for State {
    type V = StateModel;

    open spec fn view(&self) -> StateModel {
        match self {
            State::AwaitRepo => StateModel::AwaitRepo,
            State::AwaitDescriptor => StateModel::AwaitDescriptor,
            State::AwaitAdoptAnswer => StateModel::AwaitAdoptAnswer,
            State::AwaitName => StateModel::AwaitName,
            State::AwaitDescriptorWrite { name } => StateModel::AwaitDescriptorWrite {
                name: name@,
            },
            State::AwaitRegistryAppend { name } => StateModel::AwaitRegistryAppend { name: name@ },
            State::AwaitAdoptRemote { name } => StateModel::AwaitAdoptRemote { name: name@ },
            State::AwaitAdoptBootstrapAnswer { name } => StateModel::AwaitAdoptBootstrapAnswer {
                name: name@,
            },
            State::AwaitValidate => StateModel::AwaitValidate,
            State::AwaitChanges => StateModel::AwaitChanges,
            State::AwaitStage => StateModel::AwaitStage,
            State::AwaitMessage => StateModel::AwaitMessage,
            State::AwaitCommit => StateModel::AwaitCommit,
            State::AwaitRemote => StateModel::AwaitRemote,
            State::AwaitBootstrapAnswer => StateModel::AwaitBootstrapAnswer,
            State::AwaitBootstrapName => StateModel::AwaitBootstrapName,
            State::AwaitAuth { name, cont } => StateModel::AwaitAuth { name: name@, cont: *cont },
            State::AwaitCreate { name, cont } => StateModel::AwaitCreate {
                name: name@,
                cont: *cont,
            },
            State::AwaitConflictChoice { name, cont } => StateModel::AwaitConflictChoice {
                name: name@,
                cont: *cont,
            },
            State::AwaitNewName { cont } => StateModel::AwaitNewName { cont: *cont },
            State::AwaitRetryCreate { cont } => StateModel::AwaitRetryCreate { cont: *cont },
            State::AwaitDelete { name, cont, retried } => StateModel::AwaitDelete {
                name: name@,
                cont: *cont,
                retried: *retried,
            },
            State::AwaitRefresh { name, cont } => StateModel::AwaitRefresh {
                name: name@,
                cont: *cont,
            },
            State::AwaitRecreate { cont } => StateModel::AwaitRecreate { cont: *cont },
            State::AwaitFetch => StateModel::AwaitFetch,
            State::AwaitCounts => StateModel::AwaitCounts,
            State::AwaitPushAnswer => StateModel::AwaitPushAnswer,
            State::AwaitPush => StateModel::AwaitPush,
            State::AwaitPullAnswer => StateModel::AwaitPullAnswer,
            State::AwaitPull => StateModel::AwaitPull,
            State::Done { outcome } => StateModel::Done { outcome: *outcome },
        }
    }
}

impl View for Event {
    type V = EventModel;

    open spec fn view(&self) -> EventModel {
        match self {
            Event::RepoChecked { present } => EventModel::RepoChecked { present: *present },
            Event::DescriptorChecked { present } => EventModel::DescriptorChecked {
                present: *present,
            },
            Event::RegistryChecked { has_entries, current_registered } => {
                EventModel::RegistryChecked {
                    has_entries: *has_entries,
                    current_registered: *current_registered,
                }
            },
            Event::Confirmed { yes } => EventModel::Confirmed { yes: *yes },
            Event::LineEntered { line } => EventModel::LineEntered { line: line@ },
            Event::DescriptorName { name } => EventModel::DescriptorName { name: name@ },
            Event::WriteFinished { ok } => EventModel::WriteFinished { ok: *ok },
            Event::ChangesChecked { present } => EventModel::ChangesChecked { present: *present },
            Event::StageFinished { ok } => EventModel::StageFinished { ok: *ok },
            Event::CommitFinished { ok } => EventModel::CommitFinished { ok: *ok },
            Event::RemoteChecked { present } => EventModel::RemoteChecked { present: *present },
            Event::FetchFinished { ok } => EventModel::FetchFinished { ok: *ok },
            Event::CountsChecked { ahead, behind } => EventModel::CountsChecked {
                ahead: *ahead,
                behind: *behind,
            },
            Event::PushFinished { ok } => EventModel::PushFinished { ok: *ok },
            Event::PullFinished { ok } => EventModel::PullFinished { ok: *ok },
            Event::AuthChecked { ok } => EventModel::AuthChecked { ok: *ok },
            Event::CreateFinished { result } => EventModel::CreateFinished { result: *result },
            Event::DeleteFinished { status } => EventModel::DeleteFinished { status: *status },
            Event::RefreshFinished { ok } => EventModel::RefreshFinished { ok: *ok },
            Event::ChoiceMade { choice } => EventModel::ChoiceMade { choice: *choice },
            Event::ProbeFailed => EventModel::ProbeFailed,
        }
    }
}

impl View for Action {
    type V = ActionModel;

    open spec fn view(&self) -> ActionModel {
        match self {
            Action::ProbeRepo => ActionModel::ProbeRepo,
            Action::ProbeDescriptor => ActionModel::ProbeDescriptor,
            Action::AskAdopt => ActionModel::AskAdopt,
            Action::AskName => ActionModel::AskName,
            Action::WriteDescriptor { name } => ActionModel::WriteDescriptor { name: name@ },
            Action::AppendRegistry { name } => ActionModel::AppendRegistry { name: name@ },
            Action::ProbeRegistry => ActionModel::ProbeRegistry,
            Action::ProbeChanges => ActionModel::ProbeChanges,
            Action::StageAll => ActionModel::StageAll,
            Action::AskMessage => ActionModel::AskMessage,
            Action::Commit { message } => ActionModel::Commit { message: message@ },
            Action::ProbeRemote => ActionModel::ProbeRemote,
            Action::Fetch => ActionModel::Fetch,
            Action::ProbeCounts => ActionModel::ProbeCounts,
            Action::AskPush { ahead } => ActionModel::AskPush { ahead: *ahead },
            Action::Push => ActionModel::Push,
            Action::AskPull { behind } => ActionModel::AskPull { behind: *behind },
            Action::Pull => ActionModel::Pull,
            Action::AskBootstrap => ActionModel::AskBootstrap,
            Action::ReadDescriptorName => ActionModel::ReadDescriptorName,
            Action::ProbeAuth => ActionModel::ProbeAuth,
            Action::CreateRepo { name } => ActionModel::CreateRepo { name: name@ },
            Action::AskConflictChoice { name } => ActionModel::AskConflictChoice { name: name@ },
            Action::AskNewName => ActionModel::AskNewName,
            Action::DeleteRepo { name } => ActionModel::DeleteRepo { name: name@ },
            Action::RefreshScope => ActionModel::RefreshScope,
            Action::Stop { outcome } => ActionModel::Stop { outcome: *outcome },
        }
    }
}

/// A terminal step: the engine is done and tells the driver to stop.
pub open spec fn halt(outcome: Outcome) -> (StateModel, ActionModel) {
    (StateModel::Done { outcome }, ActionModel::Stop { outcome })
}

/// What follows the bootstrap sub-flow once it has run its course with the
/// given outcome: from adoption the run falls through to the commit phase,
/// from the sync phase it stops.
pub open spec fn after_bootstrap(cont: Cont, outcome: Outcome) -> (StateModel, ActionModel) {
    match cont {
        Cont::ThenCommit => (StateModel::AwaitChanges, ActionModel::ProbeChanges),
        Cont::ThenStop => halt(outcome),
    }
}

/// The complete transition function of the reconciliation engine.
pub open spec fn spec_step(s: StateModel, e: EventModel) -> (StateModel, ActionModel) {
    match (s, e) {
        (StateModel::Done { outcome }, _) => halt(outcome),
        (_, EventModel::ProbeFailed) => halt(Outcome::ProcessInvocationError),
        (StateModel::AwaitRepo, EventModel::RepoChecked { present }) => {
            if present {
                (StateModel::AwaitDescriptor, ActionModel::ProbeDescriptor)
            } else {
                halt(Outcome::NotARepository)
            }
        },
        (StateModel::AwaitDescriptor, EventModel::DescriptorChecked { present }) => {
            if present {
                (StateModel::AwaitValidate, ActionModel::ProbeRegistry)
            } else {
                (StateModel::AwaitAdoptAnswer, ActionModel::AskAdopt)
            }
        },
        (StateModel::AwaitAdoptAnswer, EventModel::Confirmed { yes }) => {
            if yes {
                (StateModel::AwaitName, ActionModel::AskName)
            } else {
                halt(Outcome::NotManaged)
            }
        },
        (StateModel::AwaitName, EventModel::LineEntered { line }) => {
            let t = trim_spec(line);
            if t.len() == 0 {
                halt(Outcome::EmptyInput)
            } else {
                (
                    StateModel::AwaitDescriptorWrite { name: t },
                    ActionModel::WriteDescriptor { name: t },
                )
            }
        },
        (StateModel::AwaitDescriptorWrite { name }, EventModel::WriteFinished { ok }) => {
            if ok {
                (StateModel::AwaitRegistryAppend { name }, ActionModel::AppendRegistry { name })
            } else {
                halt(Outcome::PersistenceError)
            }
        },
        (StateModel::AwaitRegistryAppend { name }, EventModel::WriteFinished { ok }) => {
            if ok {
                (StateModel::AwaitAdoptRemote { name }, ActionModel::ProbeRemote)
            } else {
                halt(Outcome::PersistenceError)
            }
        },
        (StateModel::AwaitAdoptRemote { name }, EventModel::RemoteChecked { present }) => {
            if present {
                (StateModel::AwaitChanges, ActionModel::ProbeChanges)
            } else {
                (StateModel::AwaitAdoptBootstrapAnswer { name }, ActionModel::AskBootstrap)
            }
        },
        (StateModel::AwaitAdoptBootstrapAnswer { name }, EventModel::Confirmed { yes }) => {
            if yes {
                (
                    StateModel::AwaitAuth { name, cont: Cont::ThenCommit },
                    ActionModel::ProbeAuth,
                )
            } else {
                (StateModel::AwaitChanges, ActionModel::ProbeChanges)
            }
        },
        (
            StateModel::AwaitValidate,
            EventModel::RegistryChecked { has_entries, current_registered },
        ) => {
            if has_entries && !current_registered {
                halt(Outcome::UntrackedDirectory)
            } else {
                (StateModel::AwaitChanges, ActionModel::ProbeChanges)
            }
        },
        (StateModel::AwaitChanges, EventModel::ChangesChecked { present }) => {
            if present {
                (StateModel::AwaitStage, ActionModel::StageAll)
            } else {
                (StateModel::AwaitRemote, ActionModel::ProbeRemote)
            }
        },
        (StateModel::AwaitStage, EventModel::StageFinished { ok }) => {
            if ok {
                (StateModel::AwaitMessage, ActionModel::AskMessage)
            } else {
                halt(Outcome::ProcessFailure)
            }
        },
        (StateModel::AwaitMessage, EventModel::LineEntered { line }) => {
            let t = trim_spec(line);
            if t.len() == 0 {
                halt(Outcome::EmptyInput)
            } else {
                (StateModel::AwaitCommit, ActionModel::Commit { message: t })
            }
        },
        (StateModel::AwaitCommit, EventModel::CommitFinished { ok }) => {
            if ok {
                (StateModel::AwaitRemote, ActionModel::ProbeRemote)
            } else {
                halt(Outcome::ProcessFailure)
            }
        },
        (StateModel::AwaitRemote, EventModel::RemoteChecked { present }) => {
            if present {
                (StateModel::AwaitFetch, ActionModel::Fetch)
            } else {
                (StateModel::AwaitBootstrapAnswer, ActionModel::AskBootstrap)
            }
        },
        (StateModel::AwaitBootstrapAnswer, EventModel::Confirmed { yes }) => {
            if yes {
                (StateModel::AwaitBootstrapName, ActionModel::ReadDescriptorName)
            } else {
                halt(Outcome::BootstrapDeclined)
            }
        },
        (StateModel::AwaitBootstrapName, EventModel::DescriptorName { name }) => {
            (StateModel::AwaitAuth { name, cont: Cont::ThenStop }, ActionModel::ProbeAuth)
        },
        (StateModel::AwaitAuth { name, cont }, EventModel::AuthChecked { ok }) => {
            if ok {
                (StateModel::AwaitCreate { name, cont }, ActionModel::CreateRepo { name })
            } else {
                halt(Outcome::HostingAuthRequired)
            }
        },
        (StateModel::AwaitCreate { name, cont }, EventModel::CreateFinished { result }) => {
            match result {
                CreateResult::Created => after_bootstrap(cont, Outcome::RemoteCreated),
                CreateResult::NameTaken => (
                    StateModel::AwaitConflictChoice { name, cont },
                    ActionModel::AskConflictChoice { name },
                ),
                CreateResult::CreateFailed => after_bootstrap(cont, Outcome::BootstrapFailed),
            }
        },
        (StateModel::AwaitConflictChoice { name, cont }, EventModel::ChoiceMade { choice }) => {
            match choice {
                ConflictChoice::Rename => (
                    StateModel::AwaitNewName { cont },
                    ActionModel::AskNewName,
                ),
                ConflictChoice::Overwrite => (
                    StateModel::AwaitDelete { name, cont, retried: false },
                    ActionModel::DeleteRepo { name },
                ),
                ConflictChoice::Cancel => after_bootstrap(cont, Outcome::BootstrapCancelled),
            }
        },
        (StateModel::AwaitNewName { cont }, EventModel::LineEntered { line }) => {
            let t = trim_spec(line);
            if t.len() == 0 {
                halt(Outcome::EmptyInput)
            } else {
                (StateModel::AwaitRetryCreate { cont }, ActionModel::CreateRepo { name: t })
            }
        },
        (StateModel::AwaitRetryCreate { cont }, EventModel::CreateFinished { result }) => {
            match result {
                CreateResult::Created => after_bootstrap(cont, Outcome::RemoteCreated),
                _ => after_bootstrap(cont, Outcome::BootstrapFailed),
            }
        },
        (StateModel::AwaitDelete { name, cont, retried }, EventModel::DeleteFinished { status }) => {
            match status {
                DeleteResult::Deleted => (
                    StateModel::AwaitRecreate { cont },
                    ActionModel::CreateRepo { name },
                ),
                DeleteResult::ScopeMissing => {
                    if retried {
                        after_bootstrap(cont, Outcome::BootstrapFailed)
                    } else {
                        (StateModel::AwaitRefresh { name, cont }, ActionModel::RefreshScope)
                    }
                },
                DeleteResult::DeleteFailed => after_bootstrap(cont, Outcome::BootstrapFailed),
            }
        },
        (StateModel::AwaitRefresh { name, cont }, EventModel::RefreshFinished { ok }) => {
            if ok {
                (
                    StateModel::AwaitDelete { name, cont, retried: true },
                    ActionModel::DeleteRepo { name },
                )
            } else {
                after_bootstrap(cont, Outcome::BootstrapFailed)
            }
        },
        (StateModel::AwaitRecreate { cont }, EventModel::CreateFinished { result }) => {
            match result {
                CreateResult::Created => after_bootstrap(cont, Outcome::RemoteCreated),
                _ => after_bootstrap(cont, Outcome::BootstrapFailed),
            }
        },
        (StateModel::AwaitFetch, EventModel::FetchFinished { ok }) => {
            if ok {
                (StateModel::AwaitCounts, ActionModel::ProbeCounts)
            } else {
                halt(Outcome::ProcessFailure)
            }
        },
        (StateModel::AwaitCounts, EventModel::CountsChecked { ahead, behind }) => {
            match classify_spec(ahead, behind) {
                SyncClass::PushOffer => (StateModel::AwaitPushAnswer, ActionModel::AskPush { ahead }),
                SyncClass::PullOffer => (
                    StateModel::AwaitPullAnswer,
                    ActionModel::AskPull { behind },
                ),
                SyncClass::Diverged => halt(Outcome::Diverged { ahead, behind }),
                SyncClass::UpToDate => halt(Outcome::UpToDate),
            }
        },
        (StateModel::AwaitPushAnswer, EventModel::Confirmed { yes }) => {
            if yes {
                (StateModel::AwaitPush, ActionModel::Push)
            } else {
                halt(Outcome::PushDeclined)
            }
        },
        (StateModel::AwaitPush, EventModel::PushFinished { ok }) => {
            if ok {
                halt(Outcome::Pushed)
            } else {
                halt(Outcome::ProcessFailure)
            }
        },
        (StateModel::AwaitPullAnswer, EventModel::Confirmed { yes }) => {
            if yes {
                (StateModel::AwaitPull, ActionModel::Pull)
            } else {
                halt(Outcome::PullDeclined)
            }
        },
        (StateModel::AwaitPull, EventModel::PullFinished { ok }) => {
            if ok {
                halt(Outcome::Pulled)
            } else {
                halt(Outcome::ProcessFailure)
            }
        },
        _ => halt(Outcome::ProcessInvocationError),
    }
}

/// The engine's starting point: wait for the repository probe.
pub fn start() -> (r: (State, Action))
    ensures
        r.0@ == StateModel::AwaitRepo,
        r.1@ == ActionModel::ProbeRepo,
{
    (State::AwaitRepo, Action::ProbeRepo)
}

fn halt_exec(outcome: Outcome) -> (r: (State, Action))
    ensures
        (r.0@, r.1@) == halt(outcome),
{
    (State::Done { outcome }, Action::Stop { outcome })
}

fn after_bootstrap_exec(cont: Cont, outcome: Outcome) -> (r: (State, Action))
    ensures
        (r.0@, r.1@) == after_bootstrap(cont, outcome),
{
    match cont {
        Cont::ThenCommit => (State::AwaitChanges, Action::ProbeChanges),
        Cont::ThenStop => halt_exec(outcome),
    }
}

/// One step of the reconciliation engine: consumes the waiting state and
/// the driver's event, returns the next state and the next action, exactly
/// as [`spec_step`] prescribes.
#[verifier::rlimit(50)]
pub fn step(s: State, e: Event) -> (r: (State, Action))
    ensures
        (r.0@, r.1@) == spec_step(s@, e@),
{
    match (s, e) {
        (State::Done { outcome }, _) => halt_exec(outcome),
        (_, Event::ProbeFailed) => halt_exec(Outcome::ProcessInvocationError),
        (State::AwaitRepo, Event::RepoChecked { present }) => {
            if present {
                (State::AwaitDescriptor, Action::ProbeDescriptor)
            } else {
                halt_exec(Outcome::NotARepository)
            }
        },
        (State::AwaitDescriptor, Event::DescriptorChecked { present }) => {
            if present {
                (State::AwaitValidate, Action::ProbeRegistry)
            } else {
                (State::AwaitAdoptAnswer, Action::AskAdopt)
            }
        },
        (State::AwaitAdoptAnswer, Event::Confirmed { yes }) => {
            if yes {
                (State::AwaitName, Action::AskName)
            } else {
                halt_exec(Outcome::NotManaged)
            }
        },
        (State::AwaitName, Event::LineEntered { line }) => {
            let t = trim_ascii(&line);
            if t.len() == 0 {
                halt_exec(Outcome::EmptyInput)
            } else {
                let t2 = copy_bytes(&t);
                (State::AwaitDescriptorWrite { name: t }, Action::WriteDescriptor { name: t2 })
            }
        },
        (State::AwaitDescriptorWrite { name }, Event::WriteFinished { ok }) => {
            if ok {
                let n2 = copy_bytes(&name);
                (State::AwaitRegistryAppend { name }, Action::AppendRegistry { name: n2 })
            } else {
                halt_exec(Outcome::PersistenceError)
            }
        },
        (State::AwaitRegistryAppend { name }, Event::WriteFinished { ok }) => {
            if ok {
                (State::AwaitAdoptRemote { name }, Action::ProbeRemote)
            } else {
                halt_exec(Outcome::PersistenceError)
            }
        },
        (State::AwaitAdoptRemote { name }, Event::RemoteChecked { present }) => {
            if present {
                (State::AwaitChanges, Action::ProbeChanges)
            } else {
                (State::AwaitAdoptBootstrapAnswer { name }, Action::AskBootstrap)
            }
        },
        (State::AwaitAdoptBootstrapAnswer { name }, Event::Confirmed { yes }) => {
            if yes {
                (State::AwaitAuth { name, cont: Cont::ThenCommit }, Action::ProbeAuth)
            } else {
                (State::AwaitChanges, Action::ProbeChanges)
            }
        },
        (State::AwaitValidate, Event::RegistryChecked { has_entries, current_registered }) => {
            if has_entries && !current_registered {
                halt_exec(Outcome::UntrackedDirectory)
            } else {
                (State::AwaitChanges, Action::ProbeChanges)
            }
        },
        (State::AwaitChanges, Event::ChangesChecked { present }) => {
            if present {
                (State::AwaitStage, Action::StageAll)
            } else {
                (State::AwaitRemote, Action::ProbeRemote)
            }
        },
        (State::AwaitStage, Event::StageFinished { ok }) => {
            if ok {
                (State::AwaitMessage, Action::AskMessage)
            } else {
                halt_exec(Outcome::ProcessFailure)
            }
        },
        (State::AwaitMessage, Event::LineEntered { line }) => {
            let t = trim_ascii(&line);
            if t.len() == 0 {
                halt_exec(Outcome::EmptyInput)
            } else {
                (State::AwaitCommit, Action::Commit { message: t })
            }
        },
        (State::AwaitCommit, Event::CommitFinished { ok }) => {
            if ok {
                (State::AwaitRemote, Action::ProbeRemote)
            } else {
                halt_exec(Outcome::ProcessFailure)
            }
        },
        (State::AwaitRemote, Event::RemoteChecked { present }) => {
            if present {
                (State::AwaitFetch, Action::Fetch)
            } else {
                (State::AwaitBootstrapAnswer, Action::AskBootstrap)
            }
        },
        (State::AwaitBootstrapAnswer, Event::Confirmed { yes }) => {
            if yes {
                (State::AwaitBootstrapName, Action::ReadDescriptorName)
            } else {
                halt_exec(Outcome::BootstrapDeclined)
            }
        },
        (State::AwaitBootstrapName, Event::DescriptorName { name }) => {
            (State::AwaitAuth { name, cont: Cont::ThenStop }, Action::ProbeAuth)
        },
        (State::AwaitAuth { name, cont }, Event::AuthChecked { ok }) => {
            if ok {
                let n2 = copy_bytes(&name);
                (State::AwaitCreate { name, cont }, Action::CreateRepo { name: n2 })
            } else {
                halt_exec(Outcome::HostingAuthRequired)
            }
        },
        (State::AwaitCreate { name, cont }, Event::CreateFinished { result }) => {
            match result {
                CreateResult::Created => after_bootstrap_exec(cont, Outcome::RemoteCreated),
                CreateResult::NameTaken => {
                    let n2 = copy_bytes(&name);
                    (
                        State::AwaitConflictChoice { name, cont },
                        Action::AskConflictChoice { name: n2 },
                    )
                },
                CreateResult::CreateFailed => after_bootstrap_exec(cont, Outcome::BootstrapFailed),
            }
        },
        (State::AwaitConflictChoice { name, cont }, Event::ChoiceMade { choice }) => {
            match choice {
                ConflictChoice::Rename => (State::AwaitNewName { cont }, Action::AskNewName),
                ConflictChoice::Overwrite => {
                    let n2 = copy_bytes(&name);
                    (
                        State::AwaitDelete { name, cont, retried: false },
                        Action::DeleteRepo { name: n2 },
                    )
                },
                ConflictChoice::Cancel => after_bootstrap_exec(cont, Outcome::BootstrapCancelled),
            }
        },
        (State::AwaitNewName { cont }, Event::LineEntered { line }) => {
            let t = trim_ascii(&line);
            if t.len() == 0 {
                halt_exec(Outcome::EmptyInput)
            } else {
                (State::AwaitRetryCreate { cont }, Action::CreateRepo { name: t })
            }
        },
        (State::AwaitRetryCreate { cont }, Event::CreateFinished { result }) => {
            match result {
                CreateResult::Created => after_bootstrap_exec(cont, Outcome::RemoteCreated),
                _ => after_bootstrap_exec(cont, Outcome::BootstrapFailed),
            }
        },
        (State::AwaitDelete { name, cont, retried }, Event::DeleteFinished { status }) => {
            match status {
                DeleteResult::Deleted => (State::AwaitRecreate { cont }, Action::CreateRepo { name }),
                DeleteResult::ScopeMissing => {
                    if retried {
                        after_bootstrap_exec(cont, Outcome::BootstrapFailed)
                    } else {
                        (State::AwaitRefresh { name, cont }, Action::RefreshScope)
                    }
                },
                DeleteResult::DeleteFailed => after_bootstrap_exec(cont, Outcome::BootstrapFailed),
            }
        },
        (State::AwaitRefresh { name, cont }, Event::RefreshFinished { ok }) => {
            if ok {
                let n2 = copy_bytes(&name);
                (State::AwaitDelete { name, cont, retried: true }, Action::DeleteRepo { name: n2 })
            } else {
                after_bootstrap_exec(cont, Outcome::BootstrapFailed)
            }
        },
        (State::AwaitRecreate { cont }, Event::CreateFinished { result }) => {
            match result {
                CreateResult::Created => after_bootstrap_exec(cont, Outcome::RemoteCreated),
                _ => after_bootstrap_exec(cont, Outcome::BootstrapFailed),
            }
        },
        (State::AwaitFetch, Event::FetchFinished { ok }) => {
            if ok {
                (State::AwaitCounts, Action::ProbeCounts)
            } else {
                halt_exec(Outcome::ProcessFailure)
            }
        },
        (State::AwaitCounts, Event::CountsChecked { ahead, behind }) => {
            match classify(ahead, behind) {
                SyncClass::PushOffer => (State::AwaitPushAnswer, Action::AskPush { ahead }),
                SyncClass::PullOffer => (State::AwaitPullAnswer, Action::AskPull { behind }),
                SyncClass::Diverged => halt_exec(Outcome::Diverged { ahead, behind }),
                SyncClass::UpToDate => halt_exec(Outcome::UpToDate),
            }
        },
        (State::AwaitPushAnswer, Event::Confirmed { yes }) => {
            if yes {
                (State::AwaitPush, Action::Push)
            } else {
                halt_exec(Outcome::PushDeclined)
            }
        },
        (State::AwaitPush, Event::PushFinished { ok }) => {
            if ok {
                halt_exec(Outcome::Pushed)
            } else {
                halt_exec(Outcome::ProcessFailure)
            }
        },
        (State::AwaitPullAnswer, Event::Confirmed { yes }) => {
            if yes {
                (State::AwaitPull, Action::Pull)
            } else {
                halt_exec(Outcome::PullDeclined)
            }
        },
        (State::AwaitPull, Event::PullFinished { ok }) => {
            if ok {
                halt_exec(Outcome::Pulled)
            } else {
                halt_exec(Outcome::ProcessFailure)
            }
        },
        _ => halt_exec(Outcome::ProcessInvocationError),
    }
}

/// The conflict answer a raw input line stands for: a single `n` or `N`
/// (bytes 110, 78) picks renaming, a single `o` or `O` (bytes 111, 79)
/// picks overwriting, and everything else cancels.
pub open spec fn conflict_choice_spec(s: Seq<u8>) -> ConflictChoice {
    let t = trim_spec(s);
    if t == seq![110u8] || t == seq![78u8] {
        ConflictChoice::Rename
    } else if t == seq![111u8] || t == seq![79u8] {
        ConflictChoice::Overwrite
    } else {
        ConflictChoice::Cancel
    }
}

/// Parses the answer to the name-conflict prompt.
pub fn parse_conflict_choice(line: &Vec<u8>) -> (r: ConflictChoice)
    ensures
        r == conflict_choice_spec(line@),
{
    let t = trim_ascii(line);
    proof {
        if t@.len() == 1 {
            if t@[0] == 110u8 {
                assert(t@ =~= seq![110u8]);
            } else if t@[0] == 78u8 {
                assert(t@ =~= seq![78u8]);
            } else if t@[0] == 111u8 {
                assert(t@ =~= seq![111u8]);
            } else if t@[0] == 79u8 {
                assert(t@ =~= seq![79u8]);
            } else {
                assert(t@ != seq![110u8] && t@ != seq![78u8] && t@ != seq![111u8] && t@
                    != seq![79u8]);
            }
        }
    }
    if t.len() == 1 && (t[0] == 110 || t[0] == 78) {
        ConflictChoice::Rename
    } else if t.len() == 1 && (t[0] == 111 || t[0] == 79) {
        ConflictChoice::Overwrite
    } else {
        ConflictChoice::Cancel
    }
}

/// Whether an action changes anything: the working tree, the history, the
/// descriptor, the registry, the hosted repository or the authorization
/// grant. Probes, prompts and the final stop change nothing.
pub open spec fn is_mutating(a: ActionModel) -> bool {
    match a {
        ActionModel::WriteDescriptor { .. } => true,
        ActionModel::AppendRegistry { .. } => true,
        ActionModel::StageAll => true,
        ActionModel::Commit { .. } => true,
        ActionModel::Push => true,
        ActionModel::Pull => true,
        ActionModel::CreateRepo { .. } => true,
        ActionModel::DeleteRepo { .. } => true,
        ActionModel::RefreshScope => true,
        _ => false,
    }
}

/// Whether an action speaks to the configured remote: a fetch, push or
/// pull.
pub open spec fn is_remote_op(a: ActionModel) -> bool {
    match a {
        ActionModel::Fetch => true,
        ActionModel::Push => true,
        ActionModel::Pull => true,
        _ => false,
    }
}

/// The states the engine reaches only after a probe reported a configured
/// remote.
pub open spec fn remote_confirmed(s: StateModel) -> bool {
    match s {
        StateModel::AwaitFetch => true,
        StateModel::AwaitCounts => true,
        StateModel::AwaitPushAnswer => true,
        StateModel::AwaitPush => true,
        StateModel::AwaitPullAnswer => true,
        StateModel::AwaitPull => true,
        _ => false,
    }
}

/// Law: declining a confirmation is safe. Whatever the engine was waiting
/// for, answering `no` never produces a mutating action and never a
/// fetch, push or pull: registry, descriptor and repository are left as
/// they are. The run either stops or goes on with a mere probe.
pub proof fn lemma_decline_is_safe(s: StateModel)
    ensures
        !is_mutating(spec_step(s, EventModel::Confirmed { yes: false }).1),
        !is_remote_op(spec_step(s, EventModel::Confirmed { yes: false }).1),
        spec_step(s, EventModel::Confirmed { yes: false }).1 is Stop || spec_step(
            s,
            EventModel::Confirmed { yes: false },
        ).1 == ActionModel::ProbeChanges,
{
}

/// Law: a fetch, push or pull is issued only from a state that follows a
/// remote-present probe result, or as the immediate consequence of one.
pub proof fn lemma_remote_op_needs_remote(s: StateModel, e: EventModel)
    ensures
        is_remote_op(spec_step(s, e).1) ==> remote_confirmed(s) || e == (EventModel::RemoteChecked {
            present: true,
        }),
{
}

/// Law: the remote-facing states are entered only from one another or on a
/// remote-present probe result.
pub proof fn lemma_remote_context_needs_remote(s: StateModel, e: EventModel)
    ensures
        remote_confirmed(spec_step(s, e).0) ==> remote_confirmed(s) || e
            == (EventModel::RemoteChecked { present: true }),
{
}

/// Law: when the probe reports no configured remote, the engine offers the
/// bootstrap instead — in the sync phase and in the adoption flow alike —
/// and issues no fetch, push or pull.
pub proof fn lemma_no_remote_offers_bootstrap(name: Seq<u8>)
    ensures
        spec_step(StateModel::AwaitRemote, EventModel::RemoteChecked { present: false }) == (
            StateModel::AwaitBootstrapAnswer,
            ActionModel::AskBootstrap,
        ),
        spec_step(
            StateModel::AwaitAdoptRemote { name },
            EventModel::RemoteChecked { present: false },
        ) == (StateModel::AwaitAdoptBootstrapAnswer { name }, ActionModel::AskBootstrap),
{
}

/// The actions a run of the engine issues from state `s` under the given
/// events, in order.
pub open spec fn actions_of(s: StateModel, events: Seq<EventModel>) -> Seq<ActionModel>
    decreases events.len(),
{
    if events.len() == 0 {
        Seq::empty()
    } else {
        let next = spec_step(s, events[0]);
        seq![next.1] + actions_of(next.0, events.drop_first())
    }
}

/// Law: as long as no probe reports a configured remote, a run of the
/// engine contains no fetch, push or pull, whatever else the events hold.
pub proof fn lemma_no_remote_ops_without_remote(s: StateModel, events: Seq<EventModel>)
    requires
        !remote_confirmed(s),
        forall|i: int| 0 <= i < events.len() ==> events[i] != (EventModel::RemoteChecked {
            present: true,
        }),
    ensures
        forall|k: int| 0 <= k < actions_of(s, events).len() ==> !is_remote_op(
            #[trigger] actions_of(s, events)[k],
        ),
    decreases events.len(),
{
    if events.len() > 0 {
        let next = spec_step(s, events[0]);
        lemma_remote_op_needs_remote(s, events[0]);
        lemma_remote_context_needs_remote(s, events[0]);
        assert(events[0] != (EventModel::RemoteChecked { present: true }));
        assert(forall|i: int| 0 <= i < events.drop_first().len() ==> events.drop_first()[i]
            != (EventModel::RemoteChecked { present: true }));
        lemma_no_remote_ops_without_remote(next.0, events.drop_first());
        assert forall|k: int| 0 <= k < actions_of(s, events).len() implies !is_remote_op(
            #[trigger] actions_of(s, events)[k],
        ) by {
            if k == 0 {
                assert(actions_of(s, events)[0] == next.1);
            } else {
                assert(actions_of(s, events)[k] == actions_of(next.0, events.drop_first())[k - 1]);
            }
        }
    }
}

} // verus!
