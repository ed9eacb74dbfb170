use but::commit::{
    commit_oplog_snapshot_if_success, discard_failure_message, discard_failure_text,
    amend_snapshot_details, commit_amend, commit_reword_with_perm, commit_undo_with_perm,
    reword_snapshot_details, undo_snapshot_details, OperationKind, SnapshotDetails,
    rejected_changes, too_many_parents_text,
    should_commit_oplog_snapshot, undo_base_parent, undo_step, CommitCreateResult,
    MutationAnchor, RelativeTo, UndoStep,
};
use but::repo::{commit_date_variable, SignaturePurpose, GITBUTLER_COMMIT_AUTHOR_EMAIL, GITBUTLER_COMMIT_AUTHOR_NAME};
use but::text::{join, replace_dashes, shell_single_quote, split_lines, starts_with, str_eq};

fn oid(hex: &str) -> gix::ObjectId {
    gix::ObjectId::from_hex(hex.as_bytes()).unwrap()
}

#[test]
fn oplog_snapshot_only_after_real_success() {
    assert!(should_commit_oplog_snapshot(false));
    assert!(!should_commit_oplog_snapshot(true));
    let ok: Result<u8, ()> = Ok(1);
    let err: Result<u8, ()> = Err(());
    assert_eq!(commit_oplog_snapshot_if_success(false, Some(7), &ok), Some(7));
    assert_eq!(commit_oplog_snapshot_if_success(true, Some(7), &ok), None);
    assert_eq!(commit_oplog_snapshot_if_success(false, Some(7), &err), None);
    assert_eq!(commit_oplog_snapshot_if_success::<u8, u8, ()>(false, None, &ok), None);
}

#[test]
fn undo_decisions() {
    let a = oid("1111111111111111111111111111111111111111");
    let b = oid("2222222222222222222222222222222222222222");
    let s = oid("3333333333333333333333333333333333333333");
    assert_eq!(undo_base_parent(s, &[]).unwrap(), None);
    assert_eq!(undo_base_parent(s, &[a]).unwrap(), Some(a));
    assert_eq!(undo_base_parent(s, &[a, b]).unwrap_err().subject, s);
    assert_eq!(undo_step(0), UndoStep::Discard);
    assert_eq!(undo_step(2), UndoStep::UncommitThenDiscard);
}

#[test]
fn rejected_change_paths_are_lossy_text_and_exact_bytes() {
    let specs = vec![(1u8, b"src/lib.rs".to_vec()), (2u8, vec![b'a', 0xff, b'b'])];
    let changes = rejected_changes(&specs);
    assert_eq!(changes.len(), 2);
    assert_eq!(changes[0].reason, 1);
    assert_eq!(changes[0].path, "src/lib.rs");
    assert_eq!(changes[1].path, "a\u{FFFD}b");
    assert_eq!(changes[1].path_bytes, vec![b'a', 0xff, b'b']);
    let created = CommitCreateResult::new(None, &specs, 5u8);
    assert_eq!(created.rejected_changes.len(), 2);
    assert_eq!(created.workspace, 5);
    assert!(created.new_commit.is_none());
}

#[test]
fn relative_to_reference_forms_are_one_anchor() {
    let name: gix::refs::FullName = "refs/heads/main".try_into().unwrap();
    match RelativeTo::ReferenceBytes(name.clone()).into_anchor() {
        MutationAnchor::Reference(r) => assert_eq!(r, name),
        other => panic!("unexpected {other:?}"),
    }
    match RelativeTo::Reference(name.clone()).into_anchor() {
        MutationAnchor::Reference(r) => assert_eq!(r, name),
        other => panic!("unexpected {other:?}"),
    }
    let c = oid("4444444444444444444444444444444444444444");
    match RelativeTo::Commit(c).into_anchor() {
        MutationAnchor::Commit(x) => assert_eq!(x, c),
        other => panic!("unexpected {other:?}"),
    }
}

#[test]
fn signature_identity() {
    assert_eq!(commit_date_variable(SignaturePurpose::Author), "GIT_AUTHOR_DATE");
    assert_eq!(commit_date_variable(SignaturePurpose::Committer), "GIT_COMMITTER_DATE");
    assert_eq!(GITBUTLER_COMMIT_AUTHOR_NAME, "GitButler");
    assert_eq!(GITBUTLER_COMMIT_AUTHOR_EMAIL, "gitbutler@gitbutler.com");
}

#[test]
fn shell_quoting_round_trips() {
    assert_eq!(shell_single_quote("plain"), "plain");
    assert_eq!(shell_single_quote("it's"), r"it'\''s");
    assert_eq!(shell_single_quote("''"), r"'\'''\''");
    assert_eq!(shell_single_quote(""), "");
    let quoted = shell_single_quote("a'b'c");
    assert_eq!(quoted.replace(r"'\''", "'"), "a'b'c");
}

#[test]
fn text_helpers() {
    assert!(str_eq("abc", "abc"));
    assert!(!str_eq("abc", "abd"));
    assert!(!str_eq("abc", "ab"));
    assert!(starts_with("checkout: x", "checkout:"));
    assert!(!starts_with("check", "checkout"));
    assert_eq!(replace_dashes("pre-commit-hook"), "pre_commit_hook");
    assert_eq!(join(&vec!["a".to_string(), "b".to_string(), "c".to_string()], ", "), "a, b, c");
    assert_eq!(join(&vec![], ", "), "");
    assert_eq!(split_lines("a\r\nb\n\nc\r"), vec!["a", "b", "", "c\r"]);
    assert_eq!(split_lines("x\n"), vec!["x"]);
    assert_eq!(split_lines(""), Vec::<String>::new());
    let s = "one\ntwo\r\n";
    let std: Vec<&str> = s.lines().collect();
    assert_eq!(split_lines(s), std);
}

#[test]
fn undo_error_messages_name_the_commit_in_hex() {
    let a = oid("1111111111111111111111111111111111111111");
    let b = oid("2222222222222222222222222222222222222222");
    let s = oid("abcdef0123456789abcdef0123456789abcdef01");
    let err = undo_base_parent(s, &[a, b]).unwrap_err();
    assert_eq!(
        err.message(),
        "expected abcdef0123456789abcdef0123456789abcdef01 to have at most one parent"
    );
    assert_eq!(
        discard_failure_message(&s),
        "failed to discard abcdef0123456789abcdef0123456789abcdef01"
    );
    assert_eq!(too_many_parents_text("0a1b"), "expected 0a1b to have at most one parent");
    assert_eq!(discard_failure_text("0a1b"), "failed to discard 0a1b");
}

fn log_prepare<'a>(
    log: &'a std::cell::RefCell<Vec<String>>,
    ok: bool,
) -> impl FnOnce(SnapshotDetails) -> Result<SnapshotDetails, String> + 'a {
    move |d: SnapshotDetails| {
        log.borrow_mut().push("prepare".to_string());
        if ok { Ok(d) } else { Err("no oplog".to_string()) }
    }
}

fn log_run<'a>(log: &'a std::cell::RefCell<Vec<String>>, ok: bool) -> impl FnOnce() -> Result<u8, String> + 'a {
    move || {
        log.borrow_mut().push("run".to_string());
        if ok { Ok(7) } else { Err("conflict".to_string()) }
    }
}

#[test]
fn snapshot_details_of_commit_operations() {
    let s = oid("abcdef0123456789abcdef0123456789abcdef01");
    let undo = undo_snapshot_details(&s);
    assert_eq!(undo.operation, OperationKind::UndoCommit);
    assert_eq!(undo.trailers.len(), 1);
    assert_eq!(undo.trailers[0].key, "sha");
    assert_eq!(undo.trailers[0].value, s.to_string());
    assert_eq!(undo.trailers[0].value, "abcdef0123456789abcdef0123456789abcdef01");
    let amend = amend_snapshot_details();
    assert_eq!(amend.operation, OperationKind::AmendCommit);
    assert!(amend.trailers.is_empty());
    let reword = reword_snapshot_details();
    assert_eq!(reword.operation, OperationKind::UpdateCommitMessage);
    assert!(reword.trailers.is_empty());
}

#[test]
fn undo_commits_its_snapshot_only_after_a_real_success() {
    let s = oid("abcdef0123456789abcdef0123456789abcdef01");
    let log = std::cell::RefCell::new(Vec::new());
    let (res, snap) = commit_undo_with_perm(&s, false, log_prepare(&log, true), log_run(&log, true));
    assert_eq!(res, Ok(7));
    let snap = snap.expect("snapshot to commit");
    assert_eq!(snap.operation, OperationKind::UndoCommit);
    assert_eq!(snap.trailers[0].value, "abcdef0123456789abcdef0123456789abcdef01");
    assert_eq!(*log.borrow(), vec!["prepare", "run"]);

    // A failed undo keeps its error and commits nothing.
    let (res, snap) = commit_undo_with_perm(&s, false, log_prepare(&log, true), log_run(&log, false));
    assert_eq!(res, Err("conflict".to_string()));
    assert!(snap.is_none());

    // A failed preparation does not change the result.
    let (res, snap) = commit_undo_with_perm(&s, false, log_prepare(&log, false), log_run(&log, true));
    assert_eq!(res, Ok(7));
    assert!(snap.is_none());
}

#[test]
fn dry_run_undo_prepares_no_snapshot() {
    let s = oid("abcdef0123456789abcdef0123456789abcdef01");
    let log = std::cell::RefCell::new(Vec::new());
    let (res, snap) = commit_undo_with_perm(&s, true, log_prepare(&log, true), log_run(&log, true));
    assert_eq!(res, Ok(7));
    assert!(snap.is_none());
    assert_eq!(*log.borrow(), vec!["run"]);
}

#[test]
fn amend_and_reword_prepare_even_on_a_dry_run() {
    let log = std::cell::RefCell::new(Vec::new());
    let (res, snap) = commit_amend(true, log_prepare(&log, true), log_run(&log, true));
    assert_eq!(res, Ok(7));
    assert!(snap.is_none());
    assert_eq!(*log.borrow(), vec!["prepare", "run"]);
    let (_, snap) = commit_amend(false, log_prepare(&log, true), log_run(&log, true));
    assert_eq!(snap.expect("snapshot").operation, OperationKind::AmendCommit);
    let (_, snap) = commit_reword_with_perm(false, log_prepare(&log, true), log_run(&log, true));
    assert_eq!(snap.expect("snapshot").operation, OperationKind::UpdateCommitMessage);
    let (res, snap) = commit_reword_with_perm(false, log_prepare(&log, true), log_run(&log, false));
    assert_eq!(res, Err("conflict".to_string()));
    assert!(snap.is_none());
}
