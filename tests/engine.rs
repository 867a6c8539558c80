use tg2site::engine::{
    plan_batch, updates_from_response, Plan, RepoOp, SyncEngine, SyncRun, TransportError,
};
use tg2site::envelope::Envelope;
use tg2site::git::{git_clone, pull_commands, push_commands};

fn post(id: i64, chat: &str) -> Envelope {
    Envelope {
        id,
        message: None,
        edited_message: None,
        channel_post: Some(format!("{{\"chat\":{{\"id\":{}}}}}", chat)),
        edited_channel_post: None,
    }
}

#[test]
fn empty_fetch_is_idle_and_keeps_cursor() {
    let mut e = SyncEngine::new(10, 42);
    assert!(matches!(e.on_fetch(Ok(Vec::new())), Plan::Idle));
    assert_eq!(e.cursor, 10);
}

#[test]
fn failed_fetch_retries_and_keeps_cursor() {
    let mut e = SyncEngine::new(10, 42);
    assert!(matches!(e.on_fetch(Err(TransportError::Rejected)), Plan::RetryLater));
    assert_eq!(e.cursor, 10);
    assert_eq!(e.next_offset(), Some(11));
}

#[test]
fn irrelevant_batch_advances_cursor_without_sync() {
    let mut e = SyncEngine::new(10, 42);
    let plan = e.on_fetch(Ok(vec![post(11, "5"), post(12, "\"6\"")]));
    assert!(matches!(plan, Plan::Idle));
    assert_eq!(e.cursor, 12);
    assert_eq!(e.next_offset(), Some(13));
}

#[test]
fn cursor_is_max_seen_across_batches() {
    let mut e = SyncEngine::new(-1, 42);
    let _ = e.on_fetch(Ok(vec![post(3, "1"), post(4, "42")]));
    assert_eq!(e.cursor, 4);
    let _ = e.on_fetch(Err(TransportError::Malformed));
    assert_eq!(e.cursor, 4);
    let _ = e.on_fetch(Ok(Vec::new()));
    assert_eq!(e.cursor, 4);
    let _ = e.on_fetch(Ok(vec![post(9, "2")]));
    assert_eq!(e.cursor, 9);
}

#[test]
fn two_relevant_envelopes_share_one_pull_and_push() {
    let batch = vec![post(20, "42"), post(21, "7"), post(22, "\"42\"")];
    match plan_batch(&batch, 42) {
        Plan::Sync(ops) => {
            assert_eq!(ops.len(), 4);
            assert!(matches!(ops[0], RepoOp::Pull));
            match &ops[1] {
                RepoOp::Write(a) => {
                    assert_eq!(a.id, 20);
                    assert_eq!(a.payload, "{\"chat\":{\"id\":42}}");
                }
                _ => panic!("expected a write"),
            }
            match &ops[2] {
                RepoOp::Write(a) => {
                    assert_eq!(a.id, 22);
                    assert_eq!(a.payload, "{\"chat\":{\"id\":\"42\"}}");
                }
                _ => panic!("expected a write"),
            }
            assert!(matches!(ops[3], RepoOp::Push));
        }
        _ => panic!("expected a sync plan"),
    }
}

#[test]
fn same_batch_plans_the_same_writes_twice() {
    let batch = vec![post(30, "42")];
    let first = plan_batch(&batch, 42);
    let second = plan_batch(&batch, 42);
    match (first, second) {
        (Plan::Sync(a), Plan::Sync(b)) => match (&a[1], &b[1]) {
            (RepoOp::Write(x), RepoOp::Write(y)) => {
                assert_eq!(x.id, y.id);
                assert_eq!(x.payload, y.payload);
            }
            _ => panic!("expected writes"),
        },
        _ => panic!("expected sync plans"),
    }
}

#[test]
fn cursor_at_the_top_has_no_next_offset() {
    let e = SyncEngine::new(i64::MAX, 1);
    assert_eq!(e.next_offset(), None);
}

#[test]
fn response_classification() {
    assert!(matches!(updates_from_response(502, None), Err(TransportError::Status(502))));
    assert!(matches!(
        updates_from_response(404, Some((true, Vec::new()))),
        Err(TransportError::Status(404))
    ));
    assert!(matches!(updates_from_response(200, None), Err(TransportError::Malformed)));
    assert!(matches!(
        updates_from_response(200, Some((false, Vec::new()))),
        Err(TransportError::Rejected)
    ));
    match updates_from_response(200, Some((true, vec![post(1, "1")]))) {
        Ok(v) => assert_eq!(v.len(), 1),
        Err(_) => panic!("expected envelopes"),
    }
}

#[test]
fn clone_commands() {
    let cmds = git_clone("https://example.org/r.git", "pages", "/tmp/w/repo", "bot@tg2site");
    assert_eq!(cmds.len(), 3);
    assert_eq!(
        cmds[0].args,
        vec!["clone", "--depth", "1", "--branch", "pages", "https://example.org/r.git", "/tmp/w/repo"]
    );
    assert!(!cmds[0].in_worktree);
    assert_eq!(cmds[1].args, vec!["config", "user.email", "bot@tg2site"]);
    assert_eq!(cmds[2].args, vec!["config", "user.name", "bot@tg2site"]);
    assert!(cmds[1].in_worktree && cmds[2].in_worktree);
}

#[test]
fn pull_and_push_commands() {
    let pull = pull_commands();
    assert_eq!(pull.len(), 1);
    assert_eq!(pull[0].args, vec!["pull"]);
    let push = push_commands();
    assert_eq!(push[0].args, vec!["add", "."]);
    assert_eq!(push[1].args, vec!["commit", "-m", "Sync updates"]);
    assert_eq!(push[2].args, vec!["push"]);
}

#[test]
fn push_failure_halts_the_run() {
    let batch = vec![post(40, "42")];
    let ops = match plan_batch(&batch, 42) {
        Plan::Sync(ops) => ops,
        _ => panic!("expected a sync plan"),
    };
    let mut run = SyncRun::new(ops);
    assert!(matches!(run.current(), Some(RepoOp::Pull)));
    run.record(true);
    assert!(matches!(run.current(), Some(RepoOp::Write(_))));
    run.record(true);
    assert!(matches!(run.current(), Some(RepoOp::Push)));
    run.record(false);
    assert!(run.current().is_none());
    assert!(!run.finished());
}

#[test]
fn successful_run_finishes() {
    let mut run = SyncRun::new(vec![RepoOp::Pull, RepoOp::Push]);
    assert!(!run.finished());
    run.record(true);
    run.record(true);
    assert!(run.current().is_none());
    assert!(run.finished());
}
