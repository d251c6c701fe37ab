use odin::engine::start;
use odin::engine::step;
use odin::engine::Action;
use odin::engine::ConflictChoice;
use odin::engine::CreateResult;
use odin::engine::DeleteResult;
use odin::engine::Event;
use odin::engine::Outcome;
use odin::engine::State;

/// Drives the engine from its start through the given events, returning the
/// final state and every action it issued, the initial probe included.
fn run(events: Vec<Event>) -> (State, Vec<Action>) {
    let (mut s, a0) = start();
    let mut actions = vec![a0];
    for e in events {
        let (s2, a) = step(s, e);
        s = s2;
        actions.push(a);
    }
    (s, actions)
}

fn mutating(a: &Action) -> bool {
    matches!(
        a,
        Action::WriteDescriptor { .. }
            | Action::AppendRegistry { .. }
            | Action::StageAll
            | Action::Commit { .. }
            | Action::Push
            | Action::Pull
            | Action::CreateRepo { .. }
            | Action::DeleteRepo { .. }
            | Action::RefreshScope
    )
}

fn remote_op(a: &Action) -> bool {
    matches!(a, Action::Fetch | Action::Push | Action::Pull)
}

/// The events of a clean pass over a registered, committed repository, up
/// to the point where the remote probe answers.
fn to_remote_probe() -> Vec<Event> {
    vec![
        Event::RepoChecked { present: true },
        Event::DescriptorChecked { present: true },
        Event::RegistryChecked { has_entries: true, current_registered: true },
        Event::ChangesChecked { present: false },
    ]
}

#[test]
fn missing_repository_stops_at_once() {
    let (s, actions) = run(vec![Event::RepoChecked { present: false }]);
    assert_eq!(s, State::Done { outcome: Outcome::NotARepository });
    assert_eq!(actions.last(), Some(&Action::Stop { outcome: Outcome::NotARepository }));
}

#[test]
fn adoption_writes_descriptor_and_registry_then_only_offers_bootstrap() {
    let (s, actions) = run(vec![
        Event::RepoChecked { present: true },
        Event::DescriptorChecked { present: false },
        Event::Confirmed { yes: true },
        Event::LineEntered { line: b" demo\n".to_vec() },
        Event::WriteFinished { ok: true },
        Event::WriteFinished { ok: true },
        Event::RemoteChecked { present: false },
    ]);
    assert_eq!(actions[3], Action::AskName);
    assert_eq!(actions[4], Action::WriteDescriptor { name: b"demo".to_vec() });
    assert_eq!(actions[5], Action::AppendRegistry { name: b"demo".to_vec() });
    assert_eq!(actions[6], Action::ProbeRemote);
    // no remote: the engine offers to create one but takes no remote action
    // without a further explicit confirmation
    assert_eq!(actions[7], Action::AskBootstrap);
    assert!(!matches!(s, State::Done { .. }));
    assert!(actions.iter().all(|a| !remote_op(a)));
    assert!(actions.iter().all(|a| !matches!(a, Action::CreateRepo { .. })));
}

#[test]
fn declined_adoption_mutates_nothing() {
    let (s, actions) = run(vec![
        Event::RepoChecked { present: true },
        Event::DescriptorChecked { present: false },
        Event::Confirmed { yes: false },
    ]);
    assert_eq!(s, State::Done { outcome: Outcome::NotManaged });
    assert!(actions.iter().all(|a| !mutating(a)));
}

#[test]
fn empty_project_name_is_rejected() {
    let (s, actions) = run(vec![
        Event::RepoChecked { present: true },
        Event::DescriptorChecked { present: false },
        Event::Confirmed { yes: true },
        Event::LineEntered { line: b"  \n".to_vec() },
    ]);
    assert_eq!(s, State::Done { outcome: Outcome::EmptyInput });
    assert!(actions.iter().all(|a| !mutating(a)));
}

#[test]
fn untracked_registered_directory_is_refused() {
    let (s, _) = run(vec![
        Event::RepoChecked { present: true },
        Event::DescriptorChecked { present: true },
        Event::RegistryChecked { has_entries: true, current_registered: false },
    ]);
    assert_eq!(s, State::Done { outcome: Outcome::UntrackedDirectory });
}

#[test]
fn empty_registry_passes_validation() {
    let (s, actions) = run(vec![
        Event::RepoChecked { present: true },
        Event::DescriptorChecked { present: true },
        Event::RegistryChecked { has_entries: false, current_registered: false },
    ]);
    assert!(!matches!(s, State::Done { .. }));
    assert_eq!(actions.last(), Some(&Action::ProbeChanges));
}

#[test]
fn commit_phase_uses_trimmed_message() {
    let (_, actions) = run(vec![
        Event::RepoChecked { present: true },
        Event::DescriptorChecked { present: true },
        Event::RegistryChecked { has_entries: true, current_registered: true },
        Event::ChangesChecked { present: true },
        Event::StageFinished { ok: true },
        Event::LineEntered { line: b"fix things\n".to_vec() },
    ]);
    assert_eq!(actions[4], Action::StageAll);
    assert_eq!(actions[5], Action::AskMessage);
    assert_eq!(actions[6], Action::Commit { message: b"fix things".to_vec() });
}

#[test]
fn empty_commit_message_is_a_hard_failure() {
    let (s, _) = run(vec![
        Event::RepoChecked { present: true },
        Event::DescriptorChecked { present: true },
        Event::RegistryChecked { has_entries: true, current_registered: true },
        Event::ChangesChecked { present: true },
        Event::StageFinished { ok: true },
        Event::LineEntered { line: b"\n".to_vec() },
    ]);
    assert_eq!(s, State::Done { outcome: Outcome::EmptyInput });
}

#[test]
fn stage_failure_aborts() {
    let (s, _) = run(vec![
        Event::RepoChecked { present: true },
        Event::DescriptorChecked { present: true },
        Event::RegistryChecked { has_entries: true, current_registered: true },
        Event::ChangesChecked { present: true },
        Event::StageFinished { ok: false },
    ]);
    assert_eq!(s, State::Done { outcome: Outcome::ProcessFailure });
}

#[test]
fn ahead_three_behind_zero_pushes_exactly_once_when_confirmed() {
    let mut events = to_remote_probe();
    events.push(Event::RemoteChecked { present: true });
    events.push(Event::FetchFinished { ok: true });
    events.push(Event::CountsChecked { ahead: 3, behind: 0 });
    events.push(Event::Confirmed { yes: true });
    events.push(Event::PushFinished { ok: true });
    let (s, actions) = run(events);
    assert_eq!(s, State::Done { outcome: Outcome::Pushed });
    assert_eq!(actions[7], Action::AskPush { ahead: 3 });
    assert_eq!(actions.iter().filter(|a| matches!(a, Action::Push)).count(), 1);
    assert_eq!(actions.iter().filter(|a| matches!(a, Action::Pull)).count(), 0);
}

#[test]
fn behind_two_ahead_zero_offers_pull() {
    let mut events = to_remote_probe();
    events.push(Event::RemoteChecked { present: true });
    events.push(Event::FetchFinished { ok: true });
    events.push(Event::CountsChecked { ahead: 0, behind: 2 });
    events.push(Event::Confirmed { yes: true });
    events.push(Event::PullFinished { ok: true });
    let (s, actions) = run(events);
    assert_eq!(s, State::Done { outcome: Outcome::Pulled });
    assert_eq!(actions[7], Action::AskPull { behind: 2 });
    assert_eq!(actions.iter().filter(|a| matches!(a, Action::Pull)).count(), 1);
    assert_eq!(actions.iter().filter(|a| matches!(a, Action::Push)).count(), 0);
}

#[test]
fn diverged_reports_and_issues_no_push_or_pull() {
    let mut events = to_remote_probe();
    events.push(Event::RemoteChecked { present: true });
    events.push(Event::FetchFinished { ok: true });
    events.push(Event::CountsChecked { ahead: 2, behind: 1 });
    let (s, actions) = run(events);
    assert_eq!(s, State::Done { outcome: Outcome::Diverged { ahead: 2, behind: 1 } });
    assert_eq!(actions.iter().filter(|a| matches!(a, Action::Push)).count(), 0);
    assert_eq!(actions.iter().filter(|a| matches!(a, Action::Pull)).count(), 0);
}

#[test]
fn both_zero_is_up_to_date() {
    let mut events = to_remote_probe();
    events.push(Event::RemoteChecked { present: true });
    events.push(Event::FetchFinished { ok: true });
    events.push(Event::CountsChecked { ahead: 0, behind: 0 });
    let (s, _) = run(events);
    assert_eq!(s, State::Done { outcome: Outcome::UpToDate });
}

#[test]
fn declined_push_leaves_everything_unchanged() {
    let mut events = to_remote_probe();
    events.push(Event::RemoteChecked { present: true });
    events.push(Event::FetchFinished { ok: true });
    events.push(Event::CountsChecked { ahead: 3, behind: 0 });
    events.push(Event::Confirmed { yes: false });
    let (s, actions) = run(events);
    assert_eq!(s, State::Done { outcome: Outcome::PushDeclined });
    assert!(actions.iter().all(|a| !mutating(a)));
}

#[test]
fn declined_pull_leaves_everything_unchanged() {
    let mut events = to_remote_probe();
    events.push(Event::RemoteChecked { present: true });
    events.push(Event::FetchFinished { ok: true });
    events.push(Event::CountsChecked { ahead: 0, behind: 4 });
    events.push(Event::Confirmed { yes: false });
    let (s, actions) = run(events);
    assert_eq!(s, State::Done { outcome: Outcome::PullDeclined });
    assert!(actions.iter().all(|a| !mutating(a)));
}

#[test]
fn fetch_failure_aborts_without_retry() {
    let mut events = to_remote_probe();
    events.push(Event::RemoteChecked { present: true });
    events.push(Event::FetchFinished { ok: false });
    let (s, actions) = run(events);
    assert_eq!(s, State::Done { outcome: Outcome::ProcessFailure });
    assert_eq!(actions.iter().filter(|a| matches!(a, Action::Fetch)).count(), 1);
}

#[test]
fn no_remote_offers_bootstrap_and_never_fetches() {
    let mut events = to_remote_probe();
    events.push(Event::RemoteChecked { present: false });
    let (_, actions) = run(events);
    assert_eq!(actions.last(), Some(&Action::AskBootstrap));
    assert!(actions.iter().all(|a| !remote_op(a)));
}

#[test]
fn declined_bootstrap_mutates_nothing() {
    let mut events = to_remote_probe();
    events.push(Event::RemoteChecked { present: false });
    events.push(Event::Confirmed { yes: false });
    let (s, actions) = run(events);
    assert_eq!(s, State::Done { outcome: Outcome::BootstrapDeclined });
    assert!(actions.iter().all(|a| !mutating(a)));
}

/// The events that bring a bootstrap accepted in the sync phase up to the
/// first creation attempt.
fn to_first_create() -> Vec<Event> {
    let mut events = to_remote_probe();
    events.push(Event::RemoteChecked { present: false });
    events.push(Event::Confirmed { yes: true });
    events.push(Event::DescriptorName { name: b"demo".to_vec() });
    events.push(Event::AuthChecked { ok: true });
    events
}

#[test]
fn unauthenticated_hosting_stops_the_bootstrap() {
    let mut events = to_remote_probe();
    events.push(Event::RemoteChecked { present: false });
    events.push(Event::Confirmed { yes: true });
    events.push(Event::DescriptorName { name: b"demo".to_vec() });
    events.push(Event::AuthChecked { ok: false });
    let (s, actions) = run(events);
    assert_eq!(s, State::Done { outcome: Outcome::HostingAuthRequired });
    assert!(actions.iter().all(|a| !matches!(a, Action::CreateRepo { .. })));
}

#[test]
fn name_conflict_with_rename_retries_once_and_never_deletes() {
    let mut events = to_first_create();
    events.push(Event::CreateFinished { result: CreateResult::NameTaken });
    events.push(Event::ChoiceMade { choice: ConflictChoice::Rename });
    events.push(Event::LineEntered { line: b"demo2\n".to_vec() });
    events.push(Event::CreateFinished { result: CreateResult::Created });
    let (s, actions) = run(events);
    assert_eq!(s, State::Done { outcome: Outcome::RemoteCreated });
    let creates: Vec<&Action> =
        actions.iter().filter(|a| matches!(a, Action::CreateRepo { .. })).collect();
    assert_eq!(creates.len(), 2);
    assert_eq!(creates[0], &Action::CreateRepo { name: b"demo".to_vec() });
    assert_eq!(creates[1], &Action::CreateRepo { name: b"demo2".to_vec() });
    assert_eq!(actions.iter().filter(|a| matches!(a, Action::DeleteRepo { .. })).count(), 0);
}

#[test]
fn conflict_cancel_creates_and_deletes_nothing_further() {
    let mut events = to_first_create();
    events.push(Event::CreateFinished { result: CreateResult::NameTaken });
    events.push(Event::ChoiceMade { choice: ConflictChoice::Cancel });
    let (s, actions) = run(events);
    assert_eq!(s, State::Done { outcome: Outcome::BootstrapCancelled });
    assert_eq!(actions.iter().filter(|a| matches!(a, Action::CreateRepo { .. })).count(), 1);
    assert_eq!(actions.iter().filter(|a| matches!(a, Action::DeleteRepo { .. })).count(), 0);
}

#[test]
fn overwrite_with_missing_scope_refreshes_and_retries_delete_once() {
    let mut events = to_first_create();
    events.push(Event::CreateFinished { result: CreateResult::NameTaken });
    events.push(Event::ChoiceMade { choice: ConflictChoice::Overwrite });
    events.push(Event::DeleteFinished { status: DeleteResult::ScopeMissing });
    events.push(Event::RefreshFinished { ok: true });
    events.push(Event::DeleteFinished { status: DeleteResult::Deleted });
    events.push(Event::CreateFinished { result: CreateResult::Created });
    let (s, actions) = run(events);
    assert_eq!(s, State::Done { outcome: Outcome::RemoteCreated });
    assert_eq!(actions.iter().filter(|a| matches!(a, Action::DeleteRepo { .. })).count(), 2);
    assert_eq!(actions.iter().filter(|a| matches!(a, Action::RefreshScope)).count(), 1);
    assert_eq!(actions.iter().filter(|a| matches!(a, Action::CreateRepo { .. })).count(), 2);
}

#[test]
fn missing_scope_after_the_one_retry_gives_up() {
    let mut events = to_first_create();
    events.push(Event::CreateFinished { result: CreateResult::NameTaken });
    events.push(Event::ChoiceMade { choice: ConflictChoice::Overwrite });
    events.push(Event::DeleteFinished { status: DeleteResult::ScopeMissing });
    events.push(Event::RefreshFinished { ok: true });
    events.push(Event::DeleteFinished { status: DeleteResult::ScopeMissing });
    let (s, actions) = run(events);
    assert_eq!(s, State::Done { outcome: Outcome::BootstrapFailed });
    assert_eq!(actions.iter().filter(|a| matches!(a, Action::RefreshScope)).count(), 1);
    assert_eq!(actions.iter().filter(|a| matches!(a, Action::DeleteRepo { .. })).count(), 2);
}

#[test]
fn accepted_adoption_bootstrap_failure_still_reaches_commit_phase() {
    let (s, actions) = run(vec![
        Event::RepoChecked { present: true },
        Event::DescriptorChecked { present: false },
        Event::Confirmed { yes: true },
        Event::LineEntered { line: b"demo\n".to_vec() },
        Event::WriteFinished { ok: true },
        Event::WriteFinished { ok: true },
        Event::RemoteChecked { present: false },
        Event::Confirmed { yes: true },
        Event::AuthChecked { ok: true },
        Event::CreateFinished { result: CreateResult::CreateFailed },
    ]);
    assert!(!matches!(s, State::Done { .. }));
    assert_eq!(actions.last(), Some(&Action::ProbeChanges));
}

#[test]
fn failed_descriptor_write_is_a_persistence_error() {
    let (s, _) = run(vec![
        Event::RepoChecked { present: true },
        Event::DescriptorChecked { present: false },
        Event::Confirmed { yes: true },
        Event::LineEntered { line: b"demo\n".to_vec() },
        Event::WriteFinished { ok: false },
    ]);
    assert_eq!(s, State::Done { outcome: Outcome::PersistenceError });
}

#[test]
fn failed_registry_write_is_a_persistence_error() {
    let (s, _) = run(vec![
        Event::RepoChecked { present: true },
        Event::DescriptorChecked { present: false },
        Event::Confirmed { yes: true },
        Event::LineEntered { line: b"demo\n".to_vec() },
        Event::WriteFinished { ok: true },
        Event::WriteFinished { ok: false },
    ]);
    assert_eq!(s, State::Done { outcome: Outcome::PersistenceError });
}

#[test]
fn commit_failure_aborts() {
    let (s, _) = run(vec![
        Event::RepoChecked { present: true },
        Event::DescriptorChecked { present: true },
        Event::RegistryChecked { has_entries: true, current_registered: true },
        Event::ChangesChecked { present: true },
        Event::StageFinished { ok: true },
        Event::LineEntered { line: b"fix\n".to_vec() },
        Event::CommitFinished { ok: false },
    ]);
    assert_eq!(s, State::Done { outcome: Outcome::ProcessFailure });
}

#[test]
fn push_failure_is_reported() {
    let mut events = to_remote_probe();
    events.push(Event::RemoteChecked { present: true });
    events.push(Event::FetchFinished { ok: true });
    events.push(Event::CountsChecked { ahead: 1, behind: 0 });
    events.push(Event::Confirmed { yes: true });
    events.push(Event::PushFinished { ok: false });
    let (s, _) = run(events);
    assert_eq!(s, State::Done { outcome: Outcome::ProcessFailure });
}

#[test]
fn failed_probe_aborts_the_run() {
    let (s, _) = run(vec![Event::ProbeFailed]);
    assert_eq!(s, State::Done { outcome: Outcome::ProcessInvocationError });
}

#[test]
fn mismatched_event_aborts_the_run() {
    let (s, _) = run(vec![Event::PushFinished { ok: true }]);
    assert_eq!(s, State::Done { outcome: Outcome::ProcessInvocationError });
}
