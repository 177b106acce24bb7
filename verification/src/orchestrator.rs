//! The orchestration state machine: one run fetches the base commit and
//! the open issues, then walks the issues strictly in order, deriving a
//! branch name, provisioning the branch idempotently, drafting a fix and
//! committing it. Every failure inside the per-issue pipeline ends only
//! that issue's processing; the loop always advances to the next issue.
//!
//! The machine is pure: it maps a state and the outcome of the last
//! remote call to the next state and the next remote call to make. The
//! surrounding binary performs the calls and feeds the outcomes back.

use vstd::prelude::*;
use crate::errors::FlowError;
use crate::tracker::Issue;

verus! {

/// Where a run stands.
pub enum Phase {
    /// Waiting for the tip commit of the base branch.
    FetchBaseCommit,
    /// Waiting for the issue listing.
    FetchIssues,
    /// Waiting for the generated branch name of the current issue.
    NameBranch,
    /// Waiting to learn whether the branch already exists.
    ProvisionBranch,
    /// Waiting for the outcome of branch creation.
    CreatingBranch,
    /// Waiting for the drafted fix of the current issue.
    GenerateFix,
    /// Waiting for the outcome of committing the fix file.
    CommitFix,
    /// The run is over; `fatal` records a configuration or fetch-phase
    /// failure, never a per-issue one.
    Done { fatal: bool },
}

/// The next remote call the surrounding binary is asked to make.
pub enum Action {
    FetchLatestCommit,
    FetchIssues,
    RequestBranchName { issue_id: i32, title: String },
    CheckBranch { branch: String },
    CreateBranch { branch: String, from_commit: String },
    RequestFix { issue_id: i32, title: String, body: String, language: String },
    CommitFile { branch: String, path: String, content: String },
}

/// The outcome of the last remote call, fed back into the machine.
pub enum Event {
    LatestCommit(Result<String, FlowError>),
    Issues(Result<Vec<Issue>, FlowError>),
    BranchName(Result<String, FlowError>),
    BranchExists(Result<bool, FlowError>),
    BranchCreated(Result<(), FlowError>),
    Fix(Result<(String, String), FlowError>),
    Committed(Result<(), FlowError>),
}

/// The state of one run.
pub struct Run {
    pub phase: Phase,
    /// The run-level target language for drafted fixes.
    pub language: String,
    /// The tip of the base branch, fetched once and reused as the origin
    /// of every branch created in this run.
    pub base_commit: Option<String>,
    /// The issues of this run, in tracker order.
    pub issues: Vec<Issue>,
    /// The position of the issue being processed.
    pub idx: usize,
    /// The branch of the issue being processed.
    pub branch: Option<String>,
}

impl Run {
    /// The phases that process one particular issue.
    pub open spec fn in_issue_phase(self) -> bool {
        match self.phase {
            Phase::NameBranch
            | Phase::ProvisionBranch
            | Phase::CreatingBranch
            | Phase::GenerateFix
            | Phase::CommitFix => true,
            _ => false,
        }
    }

    /// What every reachable state satisfies: the pieces each phase works
    /// with are present.
    pub open spec fn wf(self) -> bool {
        &&& (self.phase is FetchIssues ==> self.base_commit is Some)
        &&& (self.in_issue_phase() ==> self.idx < self.issues@.len() && self.base_commit is Some)
        &&& (match self.phase {
            Phase::ProvisionBranch | Phase::CreatingBranch | Phase::GenerateFix
            | Phase::CommitFix => self.branch is Some,
            _ => true,
        })
    }
}

/// The event kind that answers each phase's pending call.
pub open spec fn event_fits(phase: Phase, event: Event) -> bool {
    match (phase, event) {
        (Phase::FetchBaseCommit, Event::LatestCommit(_)) => true,
        (Phase::FetchIssues, Event::Issues(_)) => true,
        (Phase::NameBranch, Event::BranchName(_)) => true,
        (Phase::ProvisionBranch, Event::BranchExists(_)) => true,
        (Phase::CreatingBranch, Event::BranchCreated(_)) => true,
        (Phase::GenerateFix, Event::Fix(_)) => true,
        (Phase::CommitFix, Event::Committed(_)) => true,
        _ => false,
    }
}

/// The run ended on a fatal fetch-phase failure.
pub open spec fn is_fatal_done(r: Run) -> bool {
    r.phase matches Phase::Done { fatal } && fatal
}

/// The run ended normally.
pub open spec fn is_clean_done(r: Run) -> bool {
    r.phase matches Phase::Done { fatal } && !fatal
}

/// The run-level pieces and the current issue are unchanged.
pub open spec fn same_issue_pos(r: Run, prev: Run) -> bool {
    r.idx == prev.idx && r.issues == prev.issues && r.base_commit == prev.base_commit
}

/// The action asks for a branch name for exactly this issue.
pub open spec fn name_request_ok(a: Option<Action>, issue: Issue) -> bool {
    a matches Some(Action::RequestBranchName { issue_id, title }) && issue_id == issue.id && title@
        == issue.title@
}

/// The action asks for a fix draft for exactly this issue, in the run's
/// language.
pub open spec fn fix_request_ok(a: Option<Action>, issue: Issue, language: String) -> bool {
    a matches Some(Action::RequestFix { issue_id, title, body, language: lang }) && issue_id
        == issue.id && title@ == issue.title@ && body@ == issue.content.raw@ && lang@ == language@
}

/// Per-issue isolation: whatever ended the current issue's pipeline, the
/// machine takes up the next issue, or ends the run cleanly when none is
/// left. No per-issue outcome ever ends the run fatally.
pub open spec fn advanced(r: Run, a: Option<Action>, prev: Run) -> bool {
    &&& r.issues == prev.issues
    &&& r.base_commit == prev.base_commit
    &&& r.idx == prev.idx + 1
    &&& (prev.idx + 1 < prev.issues@.len() ==> r.phase is NameBranch && name_request_ok(
        a,
        prev.issues@[prev.idx + 1],
    ))
    &&& (prev.idx + 1 == prev.issues@.len() ==> is_clean_done(r) && a is None)
}

/// Takes up the next issue after the current one's pipeline has resolved,
/// successfully or not.
fn advance_issue(run: Run) -> (r: (Run, Option<Action>))
    requires
        run.base_commit is Some,
        run.idx < run.issues@.len(),
    ensures
        r.0.wf(),
        r.0.language@ == run.language@,
        advanced(r.0, r.1, run),
{
    let n = run.issues.len();
    let idx = run.idx + 1;
    if idx < n {
        let issue_id = run.issues[idx].id;
        let title = run.issues[idx].title.clone();
        let next = Run { phase: Phase::NameBranch, idx, branch: None, ..run };
        (next, Some(Action::RequestBranchName { issue_id, title }))
    } else {
        (Run { phase: Phase::Done { fatal: false }, idx, branch: None, ..run }, None)
    }
}

/// Asks for a fix draft for the current issue on its provisioned branch.
fn request_fix(run: Run) -> (r: (Run, Option<Action>))
    requires
        run.base_commit is Some,
        run.idx < run.issues@.len(),
        run.branch is Some,
    ensures
        r.0.wf(),
        r.0.phase is GenerateFix,
        r.0.language@ == run.language@,
        same_issue_pos(r.0, run),
        r.0.branch == run.branch,
        fix_request_ok(r.1, run.issues@[run.idx as int], run.language),
{
    let issue_id = run.issues[run.idx].id;
    let title = run.issues[run.idx].title.clone();
    let body = run.issues[run.idx].content.raw.clone();
    let language = run.language.clone();
    (
        Run { phase: Phase::GenerateFix, ..run },
        Some(Action::RequestFix { issue_id, title, body, language }),
    )
}

/// Opens a run: the first thing asked for is the tip commit of the base
/// branch; without it no issue is processed.
pub fn start(language: String) -> (r: (Run, Action))
    ensures
        r.0.wf(),
        r.0.phase is FetchBaseCommit,
        r.0.language@ == language@,
        r.0.base_commit is None,
        r.0.issues@.len() == 0,
        r.0.idx == 0,
        r.0.branch is None,
        r.1 is FetchLatestCommit,
{
    (
        Run {
            phase: Phase::FetchBaseCommit,
            language,
            base_commit: None,
            issues: Vec::new(),
            idx: 0,
            branch: None,
        },
        Action::FetchLatestCommit,
    )
}

/// One transition of the run: consumes the outcome of the pending remote
/// call and yields the next state with the next call to make, `None` when
/// the run is over.
///
/// A failed base-commit or issue fetch ends the whole run fatally; every
/// failure inside the per-issue pipeline ends only that issue, and the
/// machine advances — per-issue isolation is stated by `advanced`.
pub fn step(run: Run, event: Event) -> (r: (Run, Option<Action>))
    requires
        run.wf(),
        event_fits(run.phase, event),
    ensures
        r.0.wf(),
        r.0.language@ == run.language@,
        match event {
            Event::LatestCommit(res) => match res {
                Ok(h) => {
                    &&& r.0.phase is FetchIssues
                    &&& r.0.base_commit == Some(h)
                    &&& r.1 matches Some(Action::FetchIssues)
                },
                Err(_) => is_fatal_done(r.0) && r.1 is None,
            },
            Event::Issues(res) => match res {
                Ok(issues) => {
                    if issues@.len() == 0 {
                        is_clean_done(r.0) && r.1 is None
                    } else {
                        &&& r.0.phase is NameBranch
                        &&& r.0.idx == 0
                        &&& r.0.issues == issues
                        &&& r.0.base_commit == run.base_commit
                        &&& name_request_ok(r.1, issues@[0])
                    }
                },
                Err(_) => is_fatal_done(r.0) && r.1 is None,
            },
            Event::BranchName(res) => match res {
                Ok(b) => {
                    &&& r.0.phase is ProvisionBranch
                    &&& r.0.branch == Some(b)
                    &&& same_issue_pos(r.0, run)
                    &&& (r.1 matches Some(Action::CheckBranch { branch }) && branch@ == b@)
                },
                Err(_) => advanced(r.0, r.1, run),
            },
            Event::BranchExists(res) => match res {
                Ok(exists) => {
                    if exists {
                        &&& r.0.phase is GenerateFix
                        &&& same_issue_pos(r.0, run)
                        &&& r.0.branch == run.branch
                        &&& fix_request_ok(r.1, run.issues@[run.idx as int], run.language)
                    } else {
                        &&& r.0.phase is CreatingBranch
                        &&& same_issue_pos(r.0, run)
                        &&& r.0.branch == run.branch
                        &&& (r.1 matches Some(Action::CreateBranch { branch, from_commit }) && ((
                        run.branch matches Some(rb) && branch@ == rb@) && (
                        run.base_commit matches Some(bc) && from_commit@ == bc@)))
                    }
                },
                Err(_) => advanced(r.0, r.1, run),
            },
            Event::BranchCreated(res) => match res {
                Ok(_) => {
                    &&& r.0.phase is GenerateFix
                    &&& same_issue_pos(r.0, run)
                    &&& r.0.branch == run.branch
                    &&& fix_request_ok(r.1, run.issues@[run.idx as int], run.language)
                },
                Err(_) => advanced(r.0, r.1, run),
            },
            Event::Fix(res) => match res {
                Ok(p) => {
                    &&& r.0.phase is CommitFix
                    &&& same_issue_pos(r.0, run)
                    &&& r.0.branch == run.branch
                    &&& (r.1 matches Some(Action::CommitFile { branch, path, content }) && ((
                    run.branch matches Some(rb) && branch@ == rb@) && path@ == p.0@ && content@
                        == p.1@))
                },
                Err(_) => advanced(r.0, r.1, run),
            },
            Event::Committed(_) => advanced(r.0, r.1, run),
        },
{
    match event {
        Event::LatestCommit(res) => match res {
            Ok(h) => (
                Run { phase: Phase::FetchIssues, base_commit: Some(h), ..run },
                Some(Action::FetchIssues),
            ),
            Err(_) => (Run { phase: Phase::Done { fatal: true }, ..run }, None),
        },
        Event::Issues(res) => match res {
            Ok(issues) => {
                if issues.len() == 0 {
                    (Run { phase: Phase::Done { fatal: false }, issues, ..run }, None)
                } else {
                    let issue_id = issues[0].id;
                    let title = issues[0].title.clone();
                    (
                        Run { phase: Phase::NameBranch, issues, idx: 0, ..run },
                        Some(Action::RequestBranchName { issue_id, title }),
                    )
                }
            },
            Err(_) => (Run { phase: Phase::Done { fatal: true }, ..run }, None),
        },
        Event::BranchName(res) => match res {
            Ok(b) => {
                let action = Action::CheckBranch { branch: b.clone() };
                (Run { phase: Phase::ProvisionBranch, branch: Some(b), ..run }, Some(action))
            },
            Err(_) => advance_issue(run),
        },
        Event::BranchExists(res) => match res {
            Ok(true) => request_fix(run),
            Ok(false) => {
                let branch = match &run.branch {
                    Some(b) => b.clone(),
                    None => {
                        proof {
                            assert(false);
                        }
                        String::new()
                    },
                };
                let from_commit = match &run.base_commit {
                    Some(c) => c.clone(),
                    None => {
                        proof {
                            assert(false);
                        }
                        String::new()
                    },
                };
                (
                    Run { phase: Phase::CreatingBranch, ..run },
                    Some(Action::CreateBranch { branch, from_commit }),
                )
            },
            Err(_) => advance_issue(run),
        },
        Event::BranchCreated(res) => match res {
            Ok(_) => request_fix(run),
            Err(_) => advance_issue(run),
        },
        Event::Fix(res) => match res {
            Ok(p) => {
                let branch = match &run.branch {
                    Some(b) => b.clone(),
                    None => {
                        proof {
                            assert(false);
                        }
                        String::new()
                    },
                };
                (
                    Run { phase: Phase::CommitFix, ..run },
                    Some(Action::CommitFile { branch, path: p.0, content: p.1 }),
                )
            },
            Err(_) => advance_issue(run),
        },
        Event::Committed(_) => advance_issue(run),
    }
}

} // verus!
