//! Commit operations: when their oplog snapshots are recorded, the decisions
//! of undoing a commit, and the JSON transport types of their results.

use vstd::prelude::*;
use vstd::string::*;
use vstd::utf8::{decode_utf8, valid_utf8};

use crate::hook::types::cat3;

verus! {

#[verifier::external_type_specification]
#[verifier::external_body]
pub struct ExObjectId(gix::ObjectId);

#[verifier::external_type_specification]
#[verifier::external_body]
pub struct ExFullName(gix::refs::FullName);

/// Whether an oplog snapshot should be committed for an operation: only when
/// the operation was not a dry run.
pub fn should_commit_oplog_snapshot(dry_run: bool) -> (commit: bool)
    ensures
        commit == !dry_run,
{
    !dry_run
}

/// The value of a successful result.
pub open spec fn ok_value<S, E>(r: Result<S, E>) -> Option<S> {
    match r {
        Ok(s) => Some(s),
        Err(_) => None,
    }
}

/// The snapshot to commit to the oplog once an operation has finished: the
/// prepared snapshot, if there is one, when the operation succeeded and was
/// not a dry run; nothing otherwise.
pub fn commit_oplog_snapshot_if_success<S, T, E>(
    dry_run: bool,
    maybe_snapshot: Option<S>,
    result: &Result<T, E>,
) -> (to_commit: Option<S>)
    ensures
        to_commit == (if !dry_run && result is Ok {
            maybe_snapshot
        } else {
            None
        }),
{
    if should_commit_oplog_snapshot(dry_run) && result.is_ok() {
        maybe_snapshot
    } else {
        None
    }
}

/// A commit with more than one parent cannot be undone.
#[derive(Debug)]
pub struct TooManyParents {
    /// The commit that was to be undone.
    pub subject: gix::ObjectId,
}

/// The hexadecimal form of an object id, as gix prints it.
pub uninterp spec fn object_id_hex(id: gix::ObjectId) -> Seq<char>;

/// Calls `gix::ObjectId::to_hex` and renders it: the hexadecimal form of the
/// whole id.
#[verifier::external_body]
fn object_id_to_hex(id: &gix::ObjectId) -> (hex: String)
    ensures
        hex@ == object_id_hex(*id),
{
    id.to_hex().to_string()
}

/// The error of undoing a commit with more than one parent, for the
/// hexadecimal form `hex` of its id.
pub open spec fn too_many_parents_message(hex: Seq<char>) -> Seq<char> {
    "expected "@ + hex + " to have at most one parent"@
}

/// The error text for the commit whose id reads `hex`:
/// `expected <hex> to have at most one parent`.
pub fn too_many_parents_text(hex: &str) -> (text: String)
    ensures
        text@ == too_many_parents_message(hex@),
{
    cat3("expected ", hex, " to have at most one parent")
}

impl TooManyParents {
    /// The error message: `expected <hex> to have at most one parent`.
    pub fn message(&self) -> (text: String)
        ensures
            text@ == too_many_parents_message(object_id_hex(self.subject)),
    {
        too_many_parents_text(object_id_to_hex(&self.subject).as_str())
    }
}

/// The context given when discarding the undone commit fails, for the
/// hexadecimal form `hex` of its id.
pub open spec fn discard_failure_context(hex: Seq<char>) -> Seq<char> {
    "failed to discard "@ + hex
}

/// The discard-failure context for the commit whose id reads `hex`:
/// `failed to discard <hex>`.
pub fn discard_failure_text(hex: &str) -> (text: String)
    ensures
        text@ == discard_failure_context(hex@),
{
    let mut text = String::from_str("failed to discard ");
    text.append(hex);
    text
}

/// The context given when discarding the commit being undone fails:
/// `failed to discard <hex>`.
pub fn discard_failure_message(subject: &gix::ObjectId) -> (text: String)
    ensures
        text@ == discard_failure_context(object_id_hex(*subject)),
{
    discard_failure_text(object_id_to_hex(subject).as_str())
}

/// The kind of operation an oplog snapshot records.
#[derive(Debug, Clone, Copy, PartialEq, Eq, Structural)]
pub enum OperationKind {
    /// A commit was amended with further changes.
    AmendCommit,
    /// A commit was undone.
    UndoCommit,
    /// A commit message was rewritten.
    UpdateCommitMessage,
}

/// A key/value annotation of an oplog snapshot.
#[derive(Debug)]
pub struct Trailer {
    pub key: String,
    pub value: String,
}

/// The model of a [`Trailer`].
pub struct TrailerView {
    pub key: Seq<char>,
    pub value: Seq<char>,
}

impl DeepView for Trailer {
    type V = TrailerView;

    open spec fn deep_view(&self) -> TrailerView {
        TrailerView { key: self.key@, value: self.value@ }
    }
}

/// What an oplog snapshot records of the operation it is taken for.
#[derive(Debug)]
pub struct SnapshotDetails {
    pub operation: OperationKind,
    pub trailers: Vec<Trailer>,
}

/// The model of [`SnapshotDetails`].
pub struct SnapshotDetailsView {
    pub operation: OperationKind,
    pub trailers: Seq<TrailerView>,
}

impl DeepView for SnapshotDetails {
    type V = SnapshotDetailsView;

    open spec fn deep_view(&self) -> SnapshotDetailsView {
        SnapshotDetailsView { operation: self.operation, trailers: self.trailers.deep_view() }
    }
}

/// The snapshot details of undoing `subject`: an `UndoCommit` snapshot whose
/// `sha` trailer holds the commit id in hex.
pub open spec fn undo_snapshot(subject: gix::ObjectId) -> SnapshotDetailsView {
    SnapshotDetailsView {
        operation: OperationKind::UndoCommit,
        trailers: seq![TrailerView { key: "sha"@, value: object_id_hex(subject) }],
    }
}

/// The snapshot details of an operation that carries no trailers.
pub open spec fn plain_snapshot(operation: OperationKind) -> SnapshotDetailsView {
    SnapshotDetailsView { operation, trailers: Seq::empty() }
}

/// The snapshot details recorded when undoing `subject`.  The `sha`
/// trailer is the commit id as `gix::ObjectId` displays it, its full hex form.
pub fn undo_snapshot_details(subject: &gix::ObjectId) -> (details: SnapshotDetails)
    ensures
        details.deep_view() == undo_snapshot(*subject),
{
    let sha = Trailer { key: String::from_str("sha"), value: object_id_to_hex(subject) };
    let mut trailers: Vec<Trailer> = Vec::new();
    trailers.push(sha);
    assert(trailers.deep_view() =~= seq![TrailerView { key: "sha"@, value: object_id_hex(*subject) }]);
    SnapshotDetails { operation: OperationKind::UndoCommit, trailers }
}

/// The snapshot details recorded when amending a commit.
pub fn amend_snapshot_details() -> (details: SnapshotDetails)
    ensures
        details.deep_view() == plain_snapshot(OperationKind::AmendCommit),
{
    let trailers: Vec<Trailer> = Vec::new();
    assert(trailers.deep_view() =~= Seq::<TrailerView>::empty());
    SnapshotDetails { operation: OperationKind::AmendCommit, trailers }
}

/// The snapshot details recorded when rewording a commit.
pub fn reword_snapshot_details() -> (details: SnapshotDetails)
    ensures
        details.deep_view() == plain_snapshot(OperationKind::UpdateCommitMessage),
{
    let trailers: Vec<Trailer> = Vec::new();
    assert(trailers.deep_view() =~= Seq::<TrailerView>::empty());
    SnapshotDetails { operation: OperationKind::UpdateCommitMessage, trailers }
}

/// Run an operation under a best-effort oplog snapshot.
///
/// The snapshot is prepared from `details` before the operation, except on a
/// dry run when `prepare_on_dry_run` is false, in which case `prepare` is not
/// called.  The operation's result is handed back untouched, whatever became
/// of the snapshot; beside it comes the snapshot to commit: the prepared one
/// when the operation succeeded and was not a dry run, nothing otherwise (a
/// failed preparation leaves nothing to commit).
pub fn run_with_oplog_snapshot<S, PE, T, E, P, R>(
    details: SnapshotDetails,
    dry_run: bool,
    prepare_on_dry_run: bool,
    prepare: P,
    run: R,
) -> (outcome: (Result<T, E>, Option<S>))
    where
        P: FnOnce(SnapshotDetails) -> Result<S, PE>,
        R: FnOnce() -> Result<T, E>,
    requires
        !dry_run || prepare_on_dry_run ==> call_requires(prepare, (details,)),
        call_requires(run, ()),
    ensures
        call_ensures(run, (), outcome.0),
        dry_run ==> outcome.1 is None,
        !dry_run || prepare_on_dry_run ==> exists|p: Result<S, PE>|
            call_ensures(prepare, (details,), p) && outcome.1 == (if !dry_run && outcome.0 is Ok {
                ok_value(p)
            } else {
                None
            }),
{
    if dry_run && !prepare_on_dry_run {
        let res = run();
        (res, None)
    } else {
        let p = prepare(details);
        let prepared = match p {
            Ok(s) => Some(s),
            Err(_) => None,
        };
        let res = run();
        let to_commit = commit_oplog_snapshot_if_success(dry_run, prepared, &res);
        assert(call_ensures(prepare, (details,), p) && to_commit == (
        if !dry_run && res is Ok {
            ok_value(p)
        } else {
            None
        }));
        (res, to_commit)
    }
}

/// Undo `subject` under a best-effort `UndoCommit` oplog snapshot whose `sha`
/// trailer is the commit id.  Nothing is prepared on a dry run; the undo's
/// result is handed back untouched, with the snapshot to commit: the
/// prepared one when the undo succeeded and was not a dry run, nothing
/// otherwise.
pub fn commit_undo_with_perm<S, PE, T, E, P, R>(
    subject: &gix::ObjectId,
    dry_run: bool,
    prepare: P,
    undo: R,
) -> (outcome: (Result<T, E>, Option<S>))
    where
        P: FnOnce(SnapshotDetails) -> Result<S, PE>,
        R: FnOnce() -> Result<T, E>,
    requires
        forall|d: SnapshotDetails| d.deep_view() == undo_snapshot(*subject) ==> call_requires(prepare, (d,)),
        call_requires(undo, ()),
    ensures
        call_ensures(undo, (), outcome.0),
        dry_run ==> outcome.1 is None,
        !dry_run ==> exists|d: SnapshotDetails, p: Result<S, PE>|
            d.deep_view() == undo_snapshot(*subject) && call_ensures(prepare, (d,), p)
                && outcome.1 == (if outcome.0 is Ok {
                ok_value(p)
            } else {
                None
            }),
{
    let details = undo_snapshot_details(subject);
    run_with_oplog_snapshot(details, dry_run, false, prepare, undo)
}

/// Amend a commit under a best-effort `AmendCommit` oplog snapshot.  The
/// snapshot is prepared even on a dry run; the amend's result is handed back
/// untouched, with the snapshot to commit: the prepared one when the amend
/// succeeded and was not a dry run, nothing otherwise.
pub fn commit_amend<S, PE, T, E, P, R>(dry_run: bool, prepare: P, amend: R) -> (outcome: (
    Result<T, E>,
    Option<S>,
))
    where
        P: FnOnce(SnapshotDetails) -> Result<S, PE>,
        R: FnOnce() -> Result<T, E>,
    requires
        forall|d: SnapshotDetails|
            d.deep_view() == plain_snapshot(OperationKind::AmendCommit) ==> call_requires(
                prepare,
                (d,),
            ),
        call_requires(amend, ()),
    ensures
        call_ensures(amend, (), outcome.0),
        exists|d: SnapshotDetails, p: Result<S, PE>|
            d.deep_view() == plain_snapshot(OperationKind::AmendCommit) && call_ensures(
                prepare,
                (d,),
                p,
            ) && outcome.1 == (if !dry_run && outcome.0 is Ok {
                ok_value(p)
            } else {
                None
            }),
{
    let details = amend_snapshot_details();
    run_with_oplog_snapshot(details, dry_run, true, prepare, amend)
}

/// Reword a commit under a best-effort `UpdateCommitMessage` oplog snapshot.
/// The snapshot is prepared even on a dry run; the reword's result is handed
/// back untouched, with the snapshot to commit: the prepared one when the
/// reword succeeded and was not a dry run, nothing otherwise.
pub fn commit_reword_with_perm<S, PE, T, E, P, R>(dry_run: bool, prepare: P, reword: R) -> (outcome: (
    Result<T, E>,
    Option<S>,
))
    where
        P: FnOnce(SnapshotDetails) -> Result<S, PE>,
        R: FnOnce() -> Result<T, E>,
    requires
        forall|d: SnapshotDetails|
            d.deep_view() == plain_snapshot(OperationKind::UpdateCommitMessage) ==> call_requires(
                prepare,
                (d,),
            ),
        call_requires(reword, ()),
    ensures
        call_ensures(reword, (), outcome.0),
        exists|d: SnapshotDetails, p: Result<S, PE>|
            d.deep_view() == plain_snapshot(OperationKind::UpdateCommitMessage) && call_ensures(
                prepare,
                (d,),
                p,
            ) && outcome.1 == (if !dry_run && outcome.0 is Ok {
                ok_value(p)
            } else {
                None
            }),
{
    let details = reword_snapshot_details();
    run_with_oplog_snapshot(details, dry_run, true, prepare, reword)
}

/// The parent against which the changes of the commit being undone are
/// computed: its first parent, or none for a root commit.  A merge commit
/// cannot be undone.
pub fn undo_base_parent(subject: gix::ObjectId, parent_ids: &[gix::ObjectId]) -> (base: Result<
    Option<gix::ObjectId>,
    TooManyParents,
>)
    ensures
        base is Err <==> parent_ids@.len() > 1,
        base matches Err(e) ==> e.subject == subject,
        base matches Ok(p) ==> p == (if parent_ids@.len() == 0 {
            None
        } else {
            Some(parent_ids@[0])
        }),
{
    if parent_ids.len() > 1 {
        Err(TooManyParents { subject })
    } else if parent_ids.len() == 1 {
        Ok(Some(parent_ids[0]))
    } else {
        Ok(None)
    }
}

/// How a commit is undone.
#[derive(Debug, Clone, Copy, PartialEq, Eq, Structural)]
pub enum UndoStep {
    /// The commit carries no changes: it is simply discarded.
    Discard,
    /// Its changes are first moved out of it, leaving them unassigned in the
    /// worktree, and the emptied commit is then discarded.
    UncommitThenDiscard,
}

/// How a commit carrying `change_count` changes is undone.
pub fn undo_step(change_count: usize) -> (step: UndoStep)
    ensures
        step == (if change_count == 0 {
            UndoStep::Discard
        } else {
            UndoStep::UncommitThenDiscard
        }),
{
    if change_count == 0 {
        UndoStep::Discard
    } else {
        UndoStep::UncommitThenDiscard
    }
}

/// What `bstr` makes of bytes that may not be valid UTF-8.
pub uninterp spec fn lossy_utf8(bytes: Seq<u8>) -> Seq<char>;

/// Calls `bstr::ByteSlice::to_str_lossy`: the text of the bytes with each
/// invalid UTF-8 sequence replaced by U+FFFD; valid UTF-8 is decoded as it is.
#[verifier::external_body]
fn bytes_to_str_lossy(bytes: &[u8]) -> (text: String)
    ensures
        text@ == lossy_utf8(bytes@),
        valid_utf8(bytes@) ==> text@ == decode_utf8(bytes@),
{
    bstr::ByteSlice::to_str_lossy(bytes).into_owned()
}

/// A change that was rejected during commit creation, with the reason for rejection.
#[derive(Debug)]
pub struct RejectedChange<R> {
    /// The reason the change was rejected.
    pub reason: R,
    /// The file path of the rejected change, potentially degenerated if it can't be represented in Unicode.
    pub path: String,
    /// `path` without degeneration, as plain bytes.
    pub path_bytes: Vec<u8>,
}

/// JSON transport type for creating a commit in the rebase graph.
#[derive(Debug)]
pub struct CommitCreateResult<R, W> {
    /// The new commit if one was created.
    pub new_commit: Option<gix::ObjectId>,
    /// Changes that were rejected during commit creation.
    pub rejected_changes: Vec<RejectedChange<R>>,
    /// Workspace state after the create or amend.
    pub workspace: W,
}

/// `change` describes the rejected `spec`: its reason, its path as the
/// exact bytes, and its path as text.
pub open spec fn describes_rejection<R>(change: RejectedChange<R>, spec: (R, Vec<u8>)) -> bool {
    &&& change.reason == spec.0
    &&& change.path_bytes@ == spec.1@
    &&& change.path@ == lossy_utf8(spec.1@)
    &&& valid_utf8(spec.1@) ==> change.path@ == decode_utf8(spec.1@)
}

/// Describe each rejected change by its reason, its path as text, and its
/// path as the exact bytes.
pub fn rejected_changes<R: Copy>(rejected_specs: &[(R, Vec<u8>)]) -> (changes: Vec<
    RejectedChange<R>,
>)
    ensures
        changes@.len() == rejected_specs@.len(),
        forall|i: int|
            0 <= i < changes@.len() ==> describes_rejection(
                #[trigger] changes@[i],
                rejected_specs@[i],
            ),
{
    let mut changes: Vec<RejectedChange<R>> = Vec::new();
    let mut i: usize = 0;
    while i < rejected_specs.len()
        invariant
            i <= rejected_specs@.len(),
            changes@.len() == i,
            forall|k: int|
                0 <= k < i ==> describes_rejection(#[trigger] changes@[k], rejected_specs@[k]),
        decreases rejected_specs@.len() - i,
    {
        let (reason, path) = &rejected_specs[i];
        let text = bytes_to_str_lossy(path.as_slice());
        changes.push(RejectedChange { reason: *reason, path: text, path_bytes: path.clone() });
        i += 1;
    }
    changes
}

impl<R: Copy, W> CommitCreateResult<R, W> {
    /// The transport form of a commit creation or amendment: the new commit
    /// (if one was created), the rejected changes, and the workspace state.
    pub fn new(
        new_commit: Option<gix::ObjectId>,
        rejected_specs: &[(R, Vec<u8>)],
        workspace: W,
    ) -> (result: Self)
        ensures
            result.new_commit == new_commit,
            result.workspace == workspace,
            result.rejected_changes@.len() == rejected_specs@.len(),
            forall|i: int|
                0 <= i < result.rejected_changes@.len() ==> describes_rejection(
                    #[trigger] result.rejected_changes@[i],
                    rejected_specs@[i],
                ),
    {
        CommitCreateResult {
            new_commit,
            rejected_changes: rejected_changes(rejected_specs),
            workspace,
        }
    }
}

/// JSON transport type for moving changes between commits.
#[derive(Debug)]
pub struct MoveChangesResult<W> {
    /// Workspace state after moving changes.
    pub workspace: W,
}

/// JSON transport type for rewording a commit.
#[derive(Debug)]
pub struct CommitRewordResult<W> {
    /// The new commit ID after rewording.
    pub new_commit: gix::ObjectId,
    /// Workspace state after the reword.
    pub workspace: W,
}

/// JSON transport type for squashing commits.
#[derive(Debug)]
pub struct CommitSquashResult<W> {
    /// The new commit ID after squashing.
    pub new_commit: gix::ObjectId,
    /// Workspace state after the squash.
    pub workspace: W,
}

/// JSON transport type for inserting a blank commit.
#[derive(Debug)]
pub struct CommitInsertBlankResult<W> {
    /// The new blank commit ID.
    pub new_commit: gix::ObjectId,
    /// Workspace state after inserting the blank commit.
    pub workspace: W,
}

/// JSON transport type for moving a commit.
#[derive(Debug)]
pub struct CommitMoveResult<W> {
    /// Workspace state after moving the commit.
    pub workspace: W,
}

/// JSON transport type for discarding a commit.
#[derive(Debug)]
pub struct CommitDiscardResult<W> {
    /// The commit that was discarded as a result of this operation.
    pub discarded_commit: gix::ObjectId,
    /// Workspace state after discarding the commit.
    pub workspace: W,
}

/// JSON transport type for undoing a commit.
#[derive(Debug)]
pub struct CommitUndoResult<W> {
    /// The ID of the commit that was undone.
    pub undone_commit: gix::ObjectId,
    /// Workspace state after undoing the commit.
    pub workspace: W,
}

/// Specifies a location, usually used to either have something inserted
/// relative to it, or for the selected object to actually be replaced.
#[derive(Debug)]
pub enum RelativeTo {
    /// Relative to a commit.
    Commit(gix::ObjectId),
    /// Relative to a reference.
    Reference(gix::refs::FullName),
    /// Relative to a reference, this time with teeth.
    ReferenceBytes(gix::refs::FullName),
}

/// The location a graph mutation is anchored at.
#[derive(Debug)]
pub enum MutationAnchor {
    /// At a commit.
    Commit(gix::ObjectId),
    /// At a reference.
    Reference(gix::refs::FullName),
}

/// The anchor a transport location stands for: both reference forms name the
/// same reference.
pub open spec fn anchor_of(value: RelativeTo) -> MutationAnchor {
    match value {
        RelativeTo::Commit(commit) => MutationAnchor::Commit(commit),
        RelativeTo::Reference(reference) => MutationAnchor::Reference(reference),
        RelativeTo::ReferenceBytes(reference) => MutationAnchor::Reference(reference),
    }
}

impl RelativeTo {
    /// The anchor this location stands for.
    pub fn into_anchor(self) -> (anchor: MutationAnchor)
        ensures
            anchor == anchor_of(self),
    {
        match self {
            RelativeTo::Commit(commit) => MutationAnchor::Commit(commit),
            RelativeTo::Reference(reference) => MutationAnchor::Reference(reference),
            RelativeTo::ReferenceBytes(reference) => MutationAnchor::Reference(reference),
        }
    }
}

} // verus!
