use mergequeue::agents::tmux::{session_name, window_name};
use mergequeue::domain::agent_backend::AgentBackend;
use mergequeue::domain::ids::{QueueEntryId, RepoId};
use mergequeue::engine::shutdown::{ShutdownLevel, ShutdownToken};

#[test]
fn session_name_includes_pid() {
    assert_eq!(session_name(4242), "mergequeue-4242");
}

#[test]
fn window_name_prefixed() {
    assert_eq!(window_name("abcd1234"), "conflict-abcd1234");
}

#[test]
fn round_trip_opencode() {
    let b = AgentBackend::Opencode;
    let parsed: AgentBackend = b.to_string().parse().unwrap();
    assert_eq!(b, parsed);
}

#[test]
fn rejects_unknown() {
    assert!("nope".parse::<AgentBackend>().is_err());
}

#[test]
fn round_trip_via_string() {
    let id = RepoId::new();
    let s = id.to_string();
    let parsed: RepoId = s.parse().unwrap();
    assert_eq!(id, parsed);
}

#[test]
fn short_is_six_chars() {
    assert_eq!(QueueEntryId::new().short().len(), 6);
}

#[test]
fn levels_only_escalate() {
    let t = ShutdownToken::new();
    assert_eq!(t.level(), ShutdownLevel::Running);
    t.set_soft();
    assert_eq!(t.level(), ShutdownLevel::Soft);
    t.set_hard();
    assert_eq!(t.level(), ShutdownLevel::Hard);
    // Once hard, set_soft is a no-op.
    t.set_soft();
    assert_eq!(t.level(), ShutdownLevel::Hard);
}

#[test]
fn merged_observes_parent_escalation() {
    let parent = ShutdownToken::new();
    let child = ShutdownToken::merged([parent.clone()]);
    assert!(!child.is_set());

    parent.set_soft();
    assert_eq!(child.level(), ShutdownLevel::Soft);
    assert_eq!(parent.level(), ShutdownLevel::Soft);

    // Hard on the parent shows through the child.
    parent.set_hard();
    assert_eq!(child.level(), ShutdownLevel::Hard);
}

#[test]
fn merged_set_does_not_affect_parent() {
    let parent = ShutdownToken::new();
    let child = ShutdownToken::merged([parent.clone()]);

    child.set_soft();
    assert_eq!(child.level(), ShutdownLevel::Soft);
    assert_eq!(parent.level(), ShutdownLevel::Running, "parent untouched");
}

#[test]
fn merged_reports_max_of_multiple_parents() {
    let a = ShutdownToken::new();
    let b = ShutdownToken::new();
    let c = ShutdownToken::merged([a.clone(), b.clone()]);
    b.set_hard();
    assert_eq!(c.level(), ShutdownLevel::Hard);
}

#[test]
fn fresh_ids_are_version_4() {
    let t = mergequeue::domain::ids::ConflictSessionId::new().to_string();
    let c: Vec<char> = t.chars().collect();
    assert_eq!(c[14], '4');
    assert!(matches!(c[19], '8' | '9' | 'a' | 'b'));
}
