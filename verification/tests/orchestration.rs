use issue_autofix::errors::FlowError;
use issue_autofix::orchestrator::{start, step, Action, Event, Phase, Run};
use issue_autofix::tracker::{Issue, IssueContent};

fn issue(id: i32, title: &str, body: &str) -> Issue {
    Issue { id, title: title.to_string(), content: IssueContent { raw: body.to_string() } }
}

fn is_clean_done(run: &Run) -> bool {
    matches!(run.phase, Phase::Done { fatal: false })
}

#[test]
fn run_opens_by_fetching_the_base_commit() {
    let (run, action) = start("javascript".to_string());
    assert!(matches!(run.phase, Phase::FetchBaseCommit));
    assert!(matches!(action, Action::FetchLatestCommit));
}

#[test]
fn fatal_when_base_commit_fetch_fails() {
    let (run, _) = start("javascript".to_string());
    let (run, action) = step(run, Event::LatestCommit(Err(FlowError::NotFound)));
    assert!(matches!(run.phase, Phase::Done { fatal: true }));
    assert!(action.is_none());
}

#[test]
fn fatal_when_issue_fetch_fails() {
    let (run, _) = start("javascript".to_string());
    let (run, _) = step(run, Event::LatestCommit(Ok("c0".to_string())));
    let (run, action) = step(
        run,
        Event::Issues(Err(FlowError::Network("down".to_string()))),
    );
    assert!(matches!(run.phase, Phase::Done { fatal: true }));
    assert!(action.is_none());
}

#[test]
fn clean_end_on_empty_issue_listing() {
    let (run, _) = start("javascript".to_string());
    let (run, action) = step(run, Event::LatestCommit(Ok("c0".to_string())));
    assert!(matches!(action, Some(Action::FetchIssues)));
    let (run, action) = step(run, Event::Issues(Ok(Vec::new())));
    assert!(is_clean_done(&run));
    assert!(action.is_none());
}

#[test]
fn existing_branch_is_reused_without_creation() {
    let (run, _) = start("javascript".to_string());
    let (run, _) = step(run, Event::LatestCommit(Ok("c0".to_string())));
    let (run, _) = step(run, Event::Issues(Ok(vec![issue(1, "One", "b1")])));
    let (run, _) = step(run, Event::BranchName(Ok("feature/1-one".to_string())));
    let (run, action) = step(run, Event::BranchExists(Ok(true)));
    assert!(matches!(run.phase, Phase::GenerateFix));
    assert!(matches!(action, Some(Action::RequestFix { issue_id: 1, .. })));
}

#[test]
fn two_issues_one_commit_despite_second_failing() {
    // First issue succeeds through commit; the second fails at branch
    // naming. Both are processed, the run ends cleanly, and exactly one
    // commit is asked for.
    let mut commits_requested = 0;
    let (mut run, mut pending) = {
        let (r, a) = start("javascript".to_string());
        (r, Some(a))
    };
    let issues = vec![issue(1, "Fix Login!! Bug", "login broken"), issue(2, "Two", "b2")];
    let mut seen_name_requests: Vec<i32> = Vec::new();
    let mut steps = 0;
    while let Some(action) = pending {
        steps += 1;
        assert!(steps < 20, "the run must terminate");
        let event = match action {
            Action::FetchLatestCommit => Event::LatestCommit(Ok("c0".to_string())),
            Action::FetchIssues => Event::Issues(Ok(clone_issues(&issues))),
            Action::RequestBranchName { issue_id, .. } => {
                seen_name_requests.push(issue_id);
                if issue_id == 1 {
                    Event::BranchName(Ok("feature/1-fix-login-bug".to_string()))
                } else {
                    Event::BranchName(Err(FlowError::EmptyResponse))
                }
            }
            Action::CheckBranch { branch } => {
                assert_eq!(branch, "feature/1-fix-login-bug");
                Event::BranchExists(Ok(false))
            }
            Action::CreateBranch { branch, from_commit } => {
                assert_eq!(branch, "feature/1-fix-login-bug");
                assert_eq!(from_commit, "c0");
                Event::BranchCreated(Ok(()))
            }
            Action::RequestFix { issue_id, language, .. } => {
                assert_eq!(issue_id, 1);
                assert_eq!(language, "javascript");
                Event::Fix(Ok(("src/1-fix.js".to_string(), "code".to_string())))
            }
            Action::CommitFile { branch, path, content } => {
                commits_requested += 1;
                assert_eq!(branch, "feature/1-fix-login-bug");
                assert_eq!(path, "src/1-fix.js");
                assert_eq!(content, "code");
                Event::Committed(Ok(()))
            }
        };
        let (next, act) = step(run, event);
        run = next;
        pending = act;
    }
    assert!(is_clean_done(&run));
    assert_eq!(commits_requested, 1);
    assert_eq!(seen_name_requests, vec![1, 2]);
}

fn clone_issues(v: &[Issue]) -> Vec<Issue> {
    v.iter()
        .map(|i| Issue {
            id: i.id,
            title: i.title.clone(),
            content: IssueContent { raw: i.content.raw.clone() },
        })
        .collect()
}

#[test]
fn per_issue_failures_never_stop_the_loop() {
    // Three issues failing at three different per-issue stages: every one
    // is taken up, no commit happens, and the run ends cleanly.
    let (run, _) = start("python".to_string());
    let (run, _) = step(run, Event::LatestCommit(Ok("c9".to_string())));
    let (run, a) = step(
        run,
        Event::Issues(Ok(vec![issue(1, "A", "x"), issue(2, "B", "y"), issue(3, "C", "z")])),
    );
    assert!(matches!(a, Some(Action::RequestBranchName { issue_id: 1, .. })));
    // Issue 1 fails at naming.
    let (run, a) = step(run, Event::BranchName(Err(FlowError::EmptyResponse)));
    assert!(matches!(a, Some(Action::RequestBranchName { issue_id: 2, .. })));
    // Issue 2 fails at branch creation.
    let (run, _) = step(run, Event::BranchName(Ok("feature/2-b".to_string())));
    let (run, _) = step(run, Event::BranchExists(Ok(false)));
    let (run, a) = step(
        run,
        Event::BranchCreated(Err(FlowError::Network("409".to_string()))),
    );
    assert!(matches!(a, Some(Action::RequestBranchName { issue_id: 3, .. })));
    // Issue 3 fails at fix generation.
    let (run, _) = step(run, Event::BranchName(Ok("feature/3-c".to_string())));
    let (run, a) = step(run, Event::BranchExists(Ok(true)));
    assert!(matches!(a, Some(Action::RequestFix { issue_id: 3, .. })));
    let (run, a) = step(run, Event::Fix(Err(FlowError::EmptyResponse)));
    assert!(is_clean_done(&run));
    assert!(a.is_none());
}

#[test]
fn failed_commit_still_advances() {
    let (run, _) = start("javascript".to_string());
    let (run, _) = step(run, Event::LatestCommit(Ok("c0".to_string())));
    let (run, _) = step(run, Event::Issues(Ok(vec![issue(1, "A", "x"), issue(2, "B", "y")])));
    let (run, _) = step(run, Event::BranchName(Ok("feature/1-a".to_string())));
    let (run, _) = step(run, Event::BranchExists(Ok(true)));
    let (run, _) = step(run, Event::Fix(Ok(("src/f.js".to_string(), "c".to_string()))));
    let (run, a) = step(
        run,
        Event::Committed(Err(FlowError::Network("500".to_string()))),
    );
    assert!(matches!(run.phase, Phase::NameBranch));
    assert!(matches!(a, Some(Action::RequestBranchName { issue_id: 2, .. })));
}
