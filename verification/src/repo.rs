//! Identity GitButler uses for the commits it writes.

use vstd::prelude::*;

verus! {

/// The author name of commits GitButler writes.
pub const GITBUTLER_COMMIT_AUTHOR_NAME: &'static str = "GitButler";

/// The author e-mail of commits GitButler writes.
pub const GITBUTLER_COMMIT_AUTHOR_EMAIL: &'static str = "gitbutler@gitbutler.com";

/// Which signature of a commit is being made.
#[derive(Debug, Clone, Copy, PartialEq, Eq, Structural)]
pub enum SignaturePurpose {
    Author,
    Committer,
}

/// The environment variable that overrides the time of a signature.
pub open spec fn commit_date_variable_text(purpose: SignaturePurpose) -> Seq<char> {
    match purpose {
        SignaturePurpose::Author => "GIT_AUTHOR_DATE"@,
        SignaturePurpose::Committer => "GIT_COMMITTER_DATE"@,
    }
}

/// The environment variable that overrides the time of a signature: the
/// author date for an author signature, the committer date otherwise.
pub fn commit_date_variable(purpose: SignaturePurpose) -> (var: &'static str)
    ensures
        var@ == commit_date_variable_text(purpose),
{
    match purpose {
        SignaturePurpose::Author => "GIT_AUTHOR_DATE",
        SignaturePurpose::Committer => "GIT_COMMITTER_DATE",
    }
}

} // verus!
