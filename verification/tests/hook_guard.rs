use but::hook::guard::{
    post_checkout, pre_commit, pre_push, previous_checkout_branch_name, CheckoutObservation,
};
use but::hook::types::LineStyle;

fn some(s: &str) -> Option<String> {
    Some(s.to_string())
}

#[test]
fn pre_commit_blocks_the_workspace_branch() {
    let err = pre_commit(&some("gitbutler/workspace")).unwrap_err();
    assert_eq!(err.message, "Cannot commit directly to gitbutler/workspace branch");
    assert_eq!(err.human.len(), 3 + 7 + 1);
    assert_eq!(err.human[0].style, LineStyle::Blank);
    assert_eq!(err.human[1].style, LineStyle::ErrorBold);
    assert!(!err.human[1].indented);
    assert_eq!(
        err.human[1].text,
        "GITBUTLER_ERROR: Cannot commit directly to gitbutler/workspace branch."
    );
    assert_eq!(err.human[3].style, LineStyle::Hint);
    assert!(err.human[3].indented);
    assert_eq!(
        err.human[4].text,
        "- Use the GitButler app to create commits"
    );
    assert_eq!(err.human[10].style, LineStyle::Blank);
}

#[test]
fn pre_commit_allows_other_branches_and_detached_head() {
    assert!(pre_commit(&some("main")).is_ok());
    assert!(pre_commit(&some("gitbutler/workspace2")).is_ok());
    assert!(pre_commit(&None).is_ok());
}

#[test]
fn pre_push_blocks_the_workspace_branch_only() {
    let err = pre_push(&some("gitbutler/workspace"), "origin", "git@x:y").unwrap_err();
    assert_eq!(err.message, "Cannot push the gitbutler/workspace branch");
    assert_eq!(err.human.len(), 3 + 9 + 1);
    assert!(pre_push(&some("feature"), "origin", "url").is_ok());
    assert!(pre_push(&None, "origin", "url").is_ok());
}

#[test]
fn previous_checkout_uses_the_most_recent_checkout_entry() {
    let log = vec![
        some("commit: something"),
        None,
        some("checkout: moving from gitbutler/workspace to main"),
        some("checkout: moving from main to gitbutler/workspace"),
    ];
    assert_eq!(
        previous_checkout_branch_name(&log).as_deref(),
        Some("gitbutler/workspace")
    );
}

#[test]
fn previous_checkout_splits_at_the_last_to() {
    let log = vec![some("checkout: moving from feature to main to develop")];
    assert_eq!(
        previous_checkout_branch_name(&log).as_deref(),
        Some("feature to main")
    );
}

#[test]
fn previous_checkout_none_cases() {
    assert_eq!(previous_checkout_branch_name(&vec![]), None);
    assert_eq!(previous_checkout_branch_name(&vec![some("commit: x")]), None);
    // An unparsable checkout entry stops the search.
    let log = vec![
        some("checkout: moving from nowhere"),
        some("checkout: moving from main to dev"),
    ];
    assert_eq!(previous_checkout_branch_name(&log), None);
    // An empty source branch is no branch.
    assert_eq!(
        previous_checkout_branch_name(&vec![some("checkout: moving from  to main")]),
        None
    );
}

fn repo(prev: &str, current: Option<&str>) -> Option<CheckoutObservation> {
    Some(CheckoutObservation {
        head_reflog: vec![some(&format!("checkout: moving from {prev} to somewhere"))],
        current_branch: current.map(|s| s.to_string()),
    })
}

#[test]
fn post_checkout_notes_leaving_the_workspace() {
    let lines = post_checkout(&repo("gitbutler/workspace", Some("main")), "a", "b", "1");
    assert_eq!(lines.len(), 4);
    assert_eq!(lines[1].style, LineStyle::Info);
    assert_eq!(
        lines[1].text,
        "NOTE: You have left GitButler's managed workspace branch."
    );
    assert_eq!(lines[2].style, LineStyle::CommandSuggestion);
    assert_eq!(lines[2].text, "To return to GitButler mode, run: but setup");
    // A detached HEAD after leaving the workspace also counts.
    assert_eq!(
        post_checkout(&repo("gitbutler/workspace", None), "a", "b", "1").len(),
        4
    );
}

#[test]
fn post_checkout_is_silent_otherwise() {
    // File checkout.
    assert!(post_checkout(&repo("gitbutler/workspace", Some("main")), "a", "b", "0").is_empty());
    // Repository could not be opened.
    assert!(post_checkout(&None, "a", "b", "1").is_empty());
    // Came from another branch.
    assert!(post_checkout(&repo("main", Some("dev")), "a", "b", "1").is_empty());
    // Stayed on the workspace branch.
    assert!(post_checkout(
        &repo("gitbutler/workspace", Some("gitbutler/workspace")),
        "a",
        "b",
        "1"
    )
    .is_empty());
}
