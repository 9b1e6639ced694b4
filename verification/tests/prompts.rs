use mergequeue::agents::prompts::{render, rendered_prompt};
use mergequeue::domain::ports::ConflictPrompt;
use mergequeue::error::Error;

fn sample() -> ConflictPrompt {
    ConflictPrompt {
        repo_name: "mergequeue".into(),
        source_branch: "feat/auth".into(),
        target_branch: "main".into(),
        conflicted_files: vec!["src/lib.rs".into(), "Cargo.toml".into()],
        ci_command_hint: Some("cargo test".into()),
    }
}

#[test]
fn renders_branches_and_files() {
    let r = render(&sample()).unwrap();
    assert!(r.user.contains("feat/auth"));
    assert!(r.user.contains("main"));
    assert!(r.user.contains("mergequeue"));
    assert!(r.user.contains("`src/lib.rs`"));
    assert!(r.user.contains("`Cargo.toml`"));
    assert!(r.user.contains("cargo test"));
}

#[test]
fn renders_without_ci_hint() {
    let mut p = sample();
    p.ci_command_hint = None;
    let r = render(&p).unwrap();
    assert!(r.user.contains("run the project's tests"));
    assert!(!r.user.contains("```")); // No fenced block when no hint.
}

#[test]
fn system_prompt_present() {
    let r = render(&sample()).unwrap();
    assert!(r.system.contains("Do not push"));
    assert!(r.system.contains("MERGEQUEUE: ready for retry"));
}

#[test]
fn combined_separates_sections() {
    let r = render(&sample()).unwrap();
    assert!(r.combined().contains("\n---\n"));
}

#[test]
fn render_errors_become_template_errors() {
    match rendered_prompt(Err("syntax error".into())) {
        Err(Error::Template(m)) => assert_eq!(m, "rendering user prompt: syntax error"),
        other => panic!("unexpected {other:?}"),
    }
    assert_eq!(rendered_prompt(Ok("u".into())).unwrap().user, "u");
}
