//! The workspace guards run as `pre-commit` and `pre-push` hooks, and the
//! `post-checkout` notice shown when leaving the workspace branch.

use vstd::prelude::*;
use vstd::string::*;

use crate::hook::types::{
    blank, blank_line, plain, plain_line, indented, indented_line, HumanLine, HumanLineView,
    LineStyle,
};
use crate::text::{has_prefix, starts_with, str_eq};

verus! {

/// The branch GitButler manages its workspace on.
pub open spec fn workspace_branch() -> Seq<char> {
    "gitbutler/workspace"@
}

/// The current branch is the workspace branch.
pub open spec fn on_workspace_branch(current_branch: Option<Seq<char>>) -> bool {
    current_branch == Some(workspace_branch())
}

/// Why a guard blocked an action: the error message it fails with, and the
/// explanation shown to a human.
#[derive(Debug)]
pub struct GuardRejection {
    pub message: String,
    pub human: Vec<HumanLine>,
}

/// The model of a [`GuardRejection`].
pub struct GuardRejectionView {
    pub message: Seq<char>,
    pub human: Seq<HumanLineView>,
}

impl DeepView for GuardRejection {
    type V = GuardRejectionView;

    open spec fn deep_view(&self) -> GuardRejectionView {
        GuardRejectionView { message: self.message@, human: self.human.deep_view() }
    }
}

/// The explanation a guard prints: a blank line, the headline, a blank line,
/// the indented help lines, and a closing blank line.
pub open spec fn guard_lines(headline: Seq<char>, help: Seq<Seq<char>>) -> Seq<HumanLineView> {
    seq![blank_line(), plain_line(LineStyle::ErrorBold, headline), blank_line()] + Seq::new(
        help.len(),
        |i: int| indented_line(LineStyle::Hint, help[i]),
    ) + seq![blank_line()]
}

/// Block an action when the current branch is `gitbutler/workspace`.
///
/// Allows it on any other branch, on a detached HEAD, or when the repository
/// could not be opened (both seen as no current branch).
fn workspace_guard(
    current_branch: &Option<String>,
    headline: &str,
    help_lines: &Vec<&str>,
    bail_msg: &str,
) -> (res: Result<(), GuardRejection>)
    ensures
        res is Err <==> on_workspace_branch(current_branch.deep_view()),
        res matches Err(r) ==> r.deep_view() == (GuardRejectionView {
            message: bail_msg@,
            human: guard_lines(headline@, help_lines.deep_view()),
        }),
{
    let on_workspace = match current_branch {
        Some(b) => str_eq(b.as_str(), "gitbutler/workspace"),
        None => false,
    };
    if !on_workspace {
        return Ok(());
    }
    let mut human: Vec<HumanLine> = Vec::new();
    human.push(blank());
    human.push(plain(LineStyle::ErrorBold, String::from_str(headline)));
    human.push(blank());
    let ghost base = human.deep_view();
    assert(base =~= seq![blank_line(), plain_line(LineStyle::ErrorBold, headline@), blank_line()]);
    let ghost help = help_lines.deep_view();
    let mut i: usize = 0;
    while i < help_lines.len()
        invariant
            i <= help_lines.len(),
            help == help_lines.deep_view(),
            human.deep_view() =~= base + Seq::new(
                i as nat,
                |k: int| indented_line(LineStyle::Hint, help[k]),
            ),
        decreases help_lines.len() - i,
    {
        let ghost before = human.deep_view();
        human.push(indented(LineStyle::Hint, String::from_str(help_lines[i])));
        assert(human.deep_view() =~= before.push(indented_line(LineStyle::Hint, help[i as int])));
        i += 1;
    }
    let ghost before = human.deep_view();
    human.push(blank());
    assert(human.deep_view() =~= before.push(blank_line()));
    let r = GuardRejection { message: String::from_str(bail_msg), human };
    assert(r.deep_view().human =~= guard_lines(headline@, help));
    Err(r)
}

/// The headline of the pre-commit guard.
pub open spec fn pre_commit_headline() -> Seq<char> {
    "GITBUTLER_ERROR: Cannot commit directly to gitbutler/workspace branch."@
}

/// The help lines of the pre-commit guard.
pub open spec fn pre_commit_help() -> Seq<Seq<char>> {
    seq![
        "GitButler manages commits on this branch. Please use GitButler to commit your changes:"@,
        "- Use the GitButler app to create commits"@,
        "- Or run 'but commit' from the command line"@,
        ""@,
        "If you want to exit GitButler mode and use normal git:"@,
        "- Run 'but teardown' to switch to a regular branch"@,
        "- Or directly checkout another branch: git checkout <branch>"@,
    ]
}

/// The error the pre-commit guard fails with.
pub open spec fn pre_commit_message() -> Seq<char> {
    "Cannot commit directly to gitbutler/workspace branch"@
}

/// Run the pre-commit workspace guard.
///
/// Blocks direct `git commit` on the `gitbutler/workspace` branch with a
/// helpful error message. Allows it on any other branch, on a detached HEAD,
/// or when the repository cannot be opened (`current_branch` is `None`).
pub fn pre_commit(current_branch: &Option<String>) -> (res: Result<(), GuardRejection>)
    ensures
        res is Err <==> on_workspace_branch(current_branch.deep_view()),
        res matches Err(r) ==> r.deep_view() == (GuardRejectionView {
            message: pre_commit_message(),
            human: guard_lines(pre_commit_headline(), pre_commit_help()),
        }),
{
    let help = vec![
        "GitButler manages commits on this branch. Please use GitButler to commit your changes:",
        "- Use the GitButler app to create commits",
        "- Or run 'but commit' from the command line",
        "",
        "If you want to exit GitButler mode and use normal git:",
        "- Run 'but teardown' to switch to a regular branch",
        "- Or directly checkout another branch: git checkout <branch>",
    ];
    assert(help.deep_view() =~= pre_commit_help());
    workspace_guard(
        current_branch,
        "GITBUTLER_ERROR: Cannot commit directly to gitbutler/workspace branch.",
        &help,
        "Cannot commit directly to gitbutler/workspace branch",
    )
}

/// The headline of the pre-push guard.
pub open spec fn pre_push_headline() -> Seq<char> {
    "GITBUTLER_ERROR: Cannot push the gitbutler/workspace branch."@
}

/// The help lines of the pre-push guard.
pub open spec fn pre_push_help() -> Seq<Seq<char>> {
    seq![
        "The workspace branch is a synthetic branch managed by GitButler."@,
        "Pushing it to a remote would publish GitButler's internal state."@,
        ""@,
        "To push your branches, use:"@,
        "- The GitButler app to push branches"@,
        "- Or run 'but push' from the command line"@,
        ""@,
        "If you want to exit GitButler mode and push normally:"@,
        "- Run 'but teardown' to switch to a regular branch"@,
    ]
}

/// The error the pre-push guard fails with.
pub open spec fn pre_push_message() -> Seq<char> {
    "Cannot push the gitbutler/workspace branch"@
}

/// Run the pre-push workspace guard.
///
/// Blocks `git push` when on the `gitbutler/workspace` branch with a helpful
/// error message. Allows it on any other branch, on a detached HEAD, or when
/// the repository cannot be opened. The remote name and URL match git's
/// pre-push hook signature but are not inspected.
pub fn pre_push(current_branch: &Option<String>, _remote_name: &str, _remote_url: &str) -> (res:
    Result<(), GuardRejection>)
    ensures
        res is Err <==> on_workspace_branch(current_branch.deep_view()),
        res matches Err(r) ==> r.deep_view() == (GuardRejectionView {
            message: pre_push_message(),
            human: guard_lines(pre_push_headline(), pre_push_help()),
        }),
{
    let help = vec![
        "The workspace branch is a synthetic branch managed by GitButler.",
        "Pushing it to a remote would publish GitButler's internal state.",
        "",
        "To push your branches, use:",
        "- The GitButler app to push branches",
        "- Or run 'but push' from the command line",
        "",
        "If you want to exit GitButler mode and push normally:",
        "- Run 'but teardown' to switch to a regular branch",
    ];
    assert(help.deep_view() =~= pre_push_help());
    workspace_guard(
        current_branch,
        "GITBUTLER_ERROR: Cannot push the gitbutler/workspace branch.",
        &help,
        "Cannot push the gitbutler/workspace branch",
    )
}

/// The prefix git writes on reflog entries for branch checkouts.
pub open spec fn checkout_prefix() -> Seq<char> {
    "checkout: moving from "@
}

/// What follows the checkout prefix in the most recent checkout entry of a
/// reflog listed most-recent-first, if any.  Unreadable entries are `None`.
pub open spec fn first_checkout_rest(entries: Seq<Option<Seq<char>>>) -> Option<Seq<char>>
    decreases entries.len(),
{
    if entries.len() == 0 {
        None
    } else if entries[0] is Some && has_prefix(entries[0]->0, checkout_prefix()) {
        Some(entries[0]->0.subrange(checkout_prefix().len() as int, entries[0]->0.len() as int))
    } else {
        first_checkout_rest(entries.drop_first())
    }
}

/// `sep` occurs in `s` at position `j`.
pub open spec fn occurs_at(s: Seq<char>, sep: Seq<char>, j: int) -> bool {
    0 <= j && j + sep.len() <= s.len() && s.subrange(j, j + sep.len()) == sep
}

/// `j` is the last position at which `sep` occurs in `s`.
pub open spec fn last_occurrence(s: Seq<char>, sep: Seq<char>, j: int) -> bool {
    occurs_at(s, sep, j) && forall|k: int| j < k ==> !#[trigger] occurs_at(s, sep, k)
}

/// The source branch in `"<src> to <dst>"`, split at the last `" to "` so that
/// branch names containing `" to "` are kept whole; `None` when there is no
/// separator or the source is empty.
pub open spec fn checkout_source(rest: Seq<char>) -> Option<Seq<char>> {
    if exists|j: int| last_occurrence(rest, " to "@, j) {
        let j = choose|j: int| last_occurrence(rest, " to "@, j);
        if j == 0 {
            None
        } else {
            Some(rest.subrange(0, j))
        }
    } else {
        None
    }
}

/// The branch from which the most recent checkout in the reflog originated.
pub open spec fn previous_checkout_branch(entries: Seq<Option<Seq<char>>>) -> Option<Seq<char>> {
    match first_checkout_rest(entries) {
        Some(rest) => checkout_source(rest),
        None => None,
    }
}

fn occurs_in_at(s: &str, j: usize, pat: &str) -> (res: bool)
    requires
        j + pat@.len() <= s@.len(),
        s@.len() <= usize::MAX,
    ensures
        res == occurs_at(s@, pat@, j as int),
{
    let m = pat.unicode_len();
    let part = s.substring_char(j, j + m);
    str_eq(part, pat)
}

fn checkout_source_of(rest: &str) -> (branch: Option<String>)
    ensures
        branch.deep_view() == checkout_source(rest@),
{
    proof {
        reveal_strlit(" to ");
    }
    let sep = " to ";
    let n = rest.unicode_len();
    if n < 4 {
        assert forall|j: int| !last_occurrence(rest@, " to "@, j) by {
            if occurs_at(rest@, " to "@, j) {
                assert(j + 4 <= n);
            }
        }
        return None;
    }
    let mut j: usize = n - 3;
    while j > 0
        invariant
            n == rest@.len(),
            4 <= n,
            j <= n - 3,
            sep@ == " to "@,
            " to "@.len() == 4,
            forall|k: int| j <= k ==> !#[trigger] occurs_at(rest@, " to "@, k),
        decreases j,
    {
        j -= 1;
        if occurs_in_at(rest, j, sep) {
            assert(last_occurrence(rest@, " to "@, j as int));
            let ghost c = choose|c: int| last_occurrence(rest@, " to "@, c);
            assert(c == j) by {
                if c < j {
                    assert(occurs_at(rest@, " to "@, j as int));
                } else if c > j {
                    assert(!occurs_at(rest@, " to "@, c));
                }
            }
            if j == 0 {
                return None;
            }
            return Some(String::from_str(rest.substring_char(0, j)));
        }
        assert forall|k: int| j <= k implies !#[trigger] occurs_at(rest@, " to "@, k) by {
            if k > j + n - 4 {
            }
        }
    }
    assert forall|k: int| !last_occurrence(rest@, " to "@, k) by {
        if occurs_at(rest@, " to "@, k) {
            assert(0 <= k);
        }
    }
    None
}

/// Return the branch name from which the most recent checkout originated.
///
/// Walks the `HEAD` reflog messages, given most-recent-first with unreadable
/// entries as `None`, for the first `"checkout: moving from <src> to <dst>"`
/// entry, and returns `<src>`.  Returns `None` when the reflog is absent or
/// empty, no checkout entry exists, or the entry cannot be parsed.
pub fn previous_checkout_branch_name(head_reflog: &Vec<Option<String>>) -> (branch: Option<String>)
    ensures
        branch.deep_view() == previous_checkout_branch(head_reflog.deep_view()),
{
    let ghost entries = head_reflog.deep_view();
    let prefix = "checkout: moving from ";
    let mut i: usize = 0;
    assert(entries.skip(0) =~= entries);
    while i < head_reflog.len()
        invariant
            i <= head_reflog.len(),
            entries == head_reflog.deep_view(),
            prefix@ == checkout_prefix(),
            first_checkout_rest(entries) == first_checkout_rest(entries.skip(i as int)),
        decreases head_reflog.len() - i,
    {
        let ghost tail = entries.skip(i as int);
        assert(tail[0] == head_reflog[i as int].deep_view());
        match &head_reflog[i] {
            Some(msg) => {
                if starts_with(msg.as_str(), prefix) {
                    let p = prefix.unicode_len();
                    let n = msg.unicode_len();
                    let rest = msg.as_str().substring_char(p, n);
                    assert(first_checkout_rest(tail) == Some(rest@));
                    return checkout_source_of(rest);
                }
            },
            None => {},
        }
        assert(tail.drop_first() =~= entries.skip(i + 1));
        i += 1;
    }
    assert(entries.skip(i as int).len() == 0);
    None
}

/// A checkout entry `"checkout: moving from <src> to <dst>"` names `<src>` as
/// the previous branch, even when `<src>` itself contains `" to "`, as long as
/// `" to "` first appears in `" to <dst>"` at its start (for instance `<dst>`
/// holds no `" to "`) and `<src>` is not empty.
pub proof fn checkout_entry_names_its_source_branch(src: Seq<char>, dst: Seq<char>)
    requires
        src.len() > 0,
        forall|k: int| 1 <= k ==> !#[trigger] occurs_at(" to "@ + dst, " to "@, k),
    ensures
        previous_checkout_branch(seq![Some(checkout_prefix() + src + " to "@ + dst)]) == Some(src),
{
    reveal_strlit(" to ");
    let sep = " to "@;
    let tail = sep + dst;
    let rest = src + tail;
    let msg = checkout_prefix() + rest;
    let entries = seq![Some(msg)];
    assert(msg =~= checkout_prefix() + src + sep + dst);
    assert(msg.subrange(0, checkout_prefix().len() as int) =~= checkout_prefix());
    assert(msg.subrange(checkout_prefix().len() as int, msg.len() as int) =~= rest);
    assert(first_checkout_rest(entries) == Some(rest));
    let j = src.len() as int;
    assert(rest.subrange(j, j + 4) =~= sep);
    assert forall|k: int| j < k implies !#[trigger] occurs_at(rest, sep, k) by {
        if occurs_at(rest, sep, k) {
            assert(rest.subrange(k, k + 4) =~= tail.subrange(k - j, k - j + 4));
            assert(occurs_at(tail, sep, k - j));
        }
    }
    assert(last_occurrence(rest, sep, j));
    let c = choose|c: int| last_occurrence(rest, sep, c);
    assert(c == j) by {
        if c < j {
            assert(occurs_at(rest, sep, j));
        } else if c > j {
            assert(!occurs_at(rest, sep, c));
        }
    }
    assert(rest.subrange(0, j) =~= src);
}

/// A repository as the post-checkout hook sees it.
#[derive(Debug)]
pub struct CheckoutObservation {
    /// The `HEAD` reflog messages, most recent first; `None` for an entry that
    /// could not be read or is not valid UTF-8.
    pub head_reflog: Vec<Option<String>>,
    /// The short name of the current branch, `None` on a detached HEAD.
    pub current_branch: Option<String>,
}

/// The model of a [`CheckoutObservation`].
pub struct CheckoutObservationView {
    pub head_reflog: Seq<Option<Seq<char>>>,
    pub current_branch: Option<Seq<char>>,
}

impl DeepView for CheckoutObservation {
    type V = CheckoutObservationView;

    open spec fn deep_view(&self) -> CheckoutObservationView {
        CheckoutObservationView {
            head_reflog: self.head_reflog.deep_view(),
            current_branch: self.current_branch.deep_view(),
        }
    }
}

/// A branch checkout left the workspace branch for another one.
pub open spec fn leaves_workspace(
    is_branch_checkout: Seq<char>,
    repo: Option<CheckoutObservationView>,
) -> bool {
    is_branch_checkout == "1"@ && match repo {
        Some(r) => previous_checkout_branch(r.head_reflog) == Some(workspace_branch()) && match r.current_branch {
            Some(b) => b != workspace_branch(),
            None => true,
        },
        None => false,
    }
}

/// The note shown after leaving the workspace branch.
pub open spec fn left_workspace_notice() -> Seq<HumanLineView> {
    seq![
        blank_line(),
        plain_line(LineStyle::Info, "NOTE: You have left GitButler's managed workspace branch."@),
        plain_line(LineStyle::CommandSuggestion, "To return to GitButler mode, run: but setup"@),
        blank_line(),
    ]
}

/// Run the post-checkout notification logic for hook-manager users.
///
/// When a branch checkout (`is_branch_checkout == "1"`) leaves the
/// `gitbutler/workspace` branch, returns the note directing the user to
/// `but setup`. On file checkouts, when staying on the workspace branch, or
/// when the repository could not be opened (`repo` is `None`), returns no
/// lines. Nothing is uninstalled: the hook manager owns the hook files.
pub fn post_checkout(
    repo: &Option<CheckoutObservation>,
    _prev_head: &str,
    _new_head: &str,
    is_branch_checkout: &str,
) -> (notice: Vec<HumanLine>)
    ensures
        notice.deep_view() == (if leaves_workspace(is_branch_checkout@, repo.deep_view()) {
            left_workspace_notice()
        } else {
            Seq::empty()
        }),
{
    let mut notice: Vec<HumanLine> = Vec::new();
    if !str_eq(is_branch_checkout, "1") {
        assert(notice.deep_view() =~= Seq::<HumanLineView>::empty());
        return notice;
    }
    let r = match repo {
        Some(r) => r,
        None => {
            assert(notice.deep_view() =~= Seq::<HumanLineView>::empty());
            return notice;
        },
    };
    let prev = previous_checkout_branch_name(&r.head_reflog);
    let was_on_workspace = match &prev {
        Some(b) => str_eq(b.as_str(), "gitbutler/workspace"),
        None => false,
    };
    if !was_on_workspace {
        assert(notice.deep_view() =~= Seq::<HumanLineView>::empty());
        return notice;
    }
    let still_on_workspace = match &r.current_branch {
        Some(b) => str_eq(b.as_str(), "gitbutler/workspace"),
        None => false,
    };
    if still_on_workspace {
        assert(notice.deep_view() =~= Seq::<HumanLineView>::empty());
        return notice;
    }
    notice.push(blank());
    notice.push(
        plain(
            LineStyle::Info,
            String::from_str("NOTE: You have left GitButler's managed workspace branch."),
        ),
    );
    notice.push(
        plain(
            LineStyle::CommandSuggestion,
            String::from_str("To return to GitButler mode, run: but setup"),
        ),
    );
    notice.push(blank());
    assert(notice.deep_view() =~= left_workspace_notice());
    notice
}

} // verus!
