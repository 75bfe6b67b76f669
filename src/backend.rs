//! The calls into git2 that the repository reader makes.

use vstd::prelude::*;

use crate::git::{DeltaKind, GitCode, PatchLine};

verus! {

// The parts of git2 that the repository reader uses. What a repository holds is on disk, so
// most of these promise nothing of their results.

/// A repository (`git2::Repository`), opaque to proofs.
#[verifier::external_type_specification]
#[verifier::external_body]
pub struct ExRepository(git2::Repository);

/// An error of libgit2 (`git2::Error`).
#[verifier::external_type_specification]
#[verifier::external_body]
pub struct ExError(git2::Error);

/// An object id (`git2::Oid`).
#[verifier::external_type_specification]
#[verifier::external_body]
pub struct ExOid(git2::Oid);

/// The index (`git2::Index`).
#[verifier::external_type_specification]
#[verifier::external_body]
pub struct ExIndex(git2::Index);

/// The kind of a diff delta (`git2::Delta`).
#[verifier::external_type_specification]
#[verifier::external_body]
pub struct ExDelta(git2::Delta);

/// A commit (`git2::Commit`).
#[verifier::external_type_specification]
#[verifier::external_body]
pub struct ExCommit<'r>(git2::Commit<'r>);

/// An object (`git2::Object`).
#[verifier::external_type_specification]
#[verifier::external_body]
pub struct ExObject<'r>(git2::Object<'r>);

/// A tree (`git2::Tree`).
#[verifier::external_type_specification]
#[verifier::external_body]
pub struct ExTree<'r>(git2::Tree<'r>);

/// A diff (`git2::Diff`).
#[verifier::external_type_specification]
#[verifier::external_body]
pub struct ExDiff<'r>(git2::Diff<'r>);

/// A walk over the history (`git2::Revwalk`).
#[verifier::external_type_specification]
#[verifier::external_body]
pub struct ExRevwalk<'r>(git2::Revwalk<'r>);

/// A reference (`git2::Reference`).
#[verifier::external_type_specification]
#[verifier::external_body]
pub struct ExReference<'r>(git2::Reference<'r>);

/// A signature (`git2::Signature`).
#[verifier::external_type_specification]
#[verifier::external_body]
pub struct ExSignature<'a>(git2::Signature<'a>);

/// Relies on `git2::Repository::revparse_single`: the object that a revision names.
pub assume_specification<'a>[ git2::Repository::revparse_single ](
    repo: &'a git2::Repository,
    spec: &str,
) -> Result<git2::Object<'a>, git2::Error>;

/// Relies on `git2::Object::peel_to_commit`: the commit that an object leads to.
pub assume_specification<'r>[ git2::Object::<'r>::peel_to_commit ](o: &git2::Object<'r>) -> Result<
    git2::Commit<'r>,
    git2::Error,
>;

/// Relies on `git2::Repository::find_commit`: the commit with an id.
pub assume_specification<'a>[ git2::Repository::find_commit ](
    repo: &'a git2::Repository,
    oid: git2::Oid,
) -> Result<git2::Commit<'a>, git2::Error>;

/// Relies on `git2::Commit::parent`: a parent of a commit, by position.
pub assume_specification<'r>[ git2::Commit::<'r>::parent ](c: &git2::Commit<'r>, i: usize) -> Result<
    git2::Commit<'r>,
    git2::Error,
>;

/// Relies on `git2::Commit::tree`: the tree that a commit records.
pub assume_specification<'r>[ git2::Commit::<'r>::tree ](c: &git2::Commit<'r>) -> Result<
    git2::Tree<'r>,
    git2::Error,
>;

/// Relies on `git2::Commit::message`: the message of a commit, where it is UTF-8.
pub assume_specification<'r, 'a>[ git2::Commit::<'r>::message ](c: &'a git2::Commit<'r>) -> Option<
    &'a str,
>;

/// Relies on `git2::Repository::revwalk`: a new, empty walk over the history.
pub assume_specification<'a>[ git2::Repository::revwalk ](repo: &'a git2::Repository) -> Result<
    git2::Revwalk<'a>,
    git2::Error,
>;

/// Relies on `git2::Revwalk::push_head`: starts the walk at `HEAD`.
pub assume_specification<'r>[ git2::Revwalk::<'r>::push_head ](w: &mut git2::Revwalk<'r>) -> Result<
    (),
    git2::Error,
>;

/// Relies on `git2::Revwalk::push_range`: walks the commits of `start..end`.
pub assume_specification<'r>[ git2::Revwalk::<'r>::push_range ](
    w: &mut git2::Revwalk<'r>,
    range: &str,
) -> Result<(), git2::Error>;

/// Relies on `git2::Repository::index`: the repository's index.
pub assume_specification[ git2::Repository::index ](repo: &git2::Repository) -> Result<
    git2::Index,
    git2::Error,
>;

/// Relies on `git2::Index::write_tree`: writes the index as a tree.
pub assume_specification[ git2::Index::write_tree ](index: &mut git2::Index) -> Result<
    git2::Oid,
    git2::Error,
>;

/// Relies on `git2::Repository::find_tree`: the tree with an id.
pub assume_specification<'a>[ git2::Repository::find_tree ](
    repo: &'a git2::Repository,
    oid: git2::Oid,
) -> Result<git2::Tree<'a>, git2::Error>;

/// Relies on `git2::Repository::head`: the reference that `HEAD` points at.
pub assume_specification<'a>[ git2::Repository::head ](repo: &'a git2::Repository) -> Result<
    git2::Reference<'a>,
    git2::Error,
>;

/// Relies on `git2::Reference::peel_to_commit`: the commit that a reference leads to.
pub assume_specification<'r>[ git2::Reference::<'r>::peel_to_commit ](
    r: &git2::Reference<'r>,
) -> Result<git2::Commit<'r>, git2::Error>;

/// Relies on `git2::Signature::now`: a signature with a name, an address and the time now.
pub assume_specification<'a>[ git2::Signature::<'a>::now ](name: &str, email: &str) -> Result<
    git2::Signature<'static>,
    git2::Error,
>;

/// Relies on `git2::Repository::open`: opens the repository at `path`.
#[verifier::external_body]
pub(crate) fn open_repository(path: &str) -> (r: Result<git2::Repository, git2::Error>) {
    git2::Repository::open(path)
}

/// Relies on `git2::Commit::id` and the `Display` of `git2::Oid`, which writes the
/// forty hexadecimal digits of a SHA-1 object id.
#[verifier::external_body]
pub(crate) fn commit_sha(c: &git2::Commit<'_>) -> (r: String)
    ensures
        r@.len() == 40,
{
    c.id().to_string()
}

/// Relies on `git2::Commit::author` and `git2::Signature::name`: the author's name, where
/// it is UTF-8.
#[verifier::external_body]
pub(crate) fn author_name(c: &git2::Commit<'_>) -> (r: Option<String>) {
    c.author().name().map(|n| n.to_string())
}

/// Relies on `git2::Commit::time` and `git2::Time::seconds`: the commit time, in seconds
/// since the epoch.
#[verifier::external_body]
pub(crate) fn commit_seconds(c: &git2::Commit<'_>) -> (r: i64) {
    c.time().seconds()
}

/// Relies on `git2::Repository::diff_tree_to_tree`: the changes from `old` (an empty tree
/// where absent) to `new`.
#[verifier::external_body]
pub(crate) fn diff_trees<'a>(
    repo: &'a git2::Repository,
    old: Option<&git2::Tree<'_>>,
    new: &git2::Tree<'_>,
) -> (r: Result<git2::Diff<'a>, git2::Error>) {
    repo.diff_tree_to_tree(old, Some(new), None)
}

/// Relies on `git2::Repository::diff_index_to_workdir`, with untracked files included:
/// the changes from the index to the working tree.
#[verifier::external_body]
pub(crate) fn diff_workdir(repo: &git2::Repository) -> (r: Result<git2::Diff<'_>, git2::Error>) {
    let mut opts = git2::DiffOptions::new();
    opts.include_untracked(true);
    repo.diff_index_to_workdir(None, Some(&mut opts))
}

/// Relies on `git2::Diff::deltas`, `git2::DiffDelta::new_file` and
/// `git2::DiffDelta::status`: each delta of the diff, in the diff's order, as the path of
/// its new file (where it has one) and its kind.
#[verifier::external_body]
pub(crate) fn diff_deltas(diff: &git2::Diff<'_>) -> (r: Vec<(Option<String>, git2::Delta)>) {
    diff.deltas().map(
        |d| (d.new_file().path().map(|p| p.to_string_lossy().to_string()), d.status()),
    ).collect()
}

/// Tells the variants of `git2::Delta` apart.
#[verifier::external_body]
pub(crate) fn delta_kind(d: git2::Delta) -> (r: DeltaKind) {
    match d {
        git2::Delta::Unmodified => DeltaKind::Unmodified,
        git2::Delta::Added => DeltaKind::Added,
        git2::Delta::Deleted => DeltaKind::Deleted,
        git2::Delta::Modified => DeltaKind::Modified,
        git2::Delta::Renamed => DeltaKind::Renamed,
        git2::Delta::Copied => DeltaKind::Copied,
        git2::Delta::Ignored => DeltaKind::Ignored,
        git2::Delta::Untracked => DeltaKind::Untracked,
        git2::Delta::Typechange => DeltaKind::Typechange,
        git2::Delta::Unreadable => DeltaKind::Unreadable,
        git2::Delta::Conflicted => DeltaKind::Conflicted,
    }
}

/// Relies on `git2::Diff::print` in patch format: each line of the patch text, in order,
/// as its origin marker and its bytes.
#[verifier::external_body]
pub(crate) fn diff_patch_lines(diff: &git2::Diff<'_>) -> (r: Result<Vec<PatchLine>, git2::Error>) {
    let mut lines: Vec<PatchLine> = Vec::new();
    diff.print(
        git2::DiffFormat::Patch,
        |_d, _h, l| crate::git::record_line(&mut lines, l.origin(), l.content()),
    )?;
    Ok(lines)
}

/// Relies on `std::str::from_utf8`: the text that the bytes encode, where they are UTF-8.
#[verifier::external_body]
pub(crate) fn utf8_text(b: &[u8]) -> (r: Option<String>)
    ensures
        match r {
            Some(s) => vstd::utf8::valid_utf8(b@) && s@ == vstd::utf8::decode_utf8(b@),
            None => !vstd::utf8::valid_utf8(b@),
        },
{
    std::str::from_utf8(b).ok().map(|s| s.to_string())
}

/// Relies on the `Iterator` impl of `git2::Revwalk`: the next commit of the walk.
#[verifier::external_body]
pub(crate) fn walk_next(w: &mut git2::Revwalk<'_>) -> (r: Option<Result<git2::Oid, git2::Error>>) {
    w.next()
}

/// Relies on the `Iterator` impl of `git2::Revwalk`: the rest of the walk, in its order.
#[verifier::external_body]
pub(crate) fn walk_rest(w: git2::Revwalk<'_>) -> (r: Vec<Result<git2::Oid, git2::Error>>) {
    w.collect()
}

/// Relies on `git2::Repository::commit`: records a commit of `tree` on `HEAD`, with
/// `parent` as its one parent and `sig` as author and committer.
#[verifier::external_body]
pub(crate) fn commit_on_head(
    repo: &git2::Repository,
    sig: &git2::Signature<'_>,
    message: &str,
    tree: &git2::Tree<'_>,
    parent: &git2::Commit<'_>,
) -> (r: Result<git2::Oid, git2::Error>) {
    repo.commit(Some("HEAD"), sig, sig, message, tree, &[parent])
}

/// Relies on `git2::Repository::tag`, without forcing: an annotated tag `name` on
/// `target`, which fails where the name is taken.
#[verifier::external_body]
pub(crate) fn tag_commit(
    repo: &git2::Repository,
    name: &str,
    target: &git2::Commit<'_>,
    sig: &git2::Signature<'_>,
    message: &str,
) -> (r: Result<git2::Oid, git2::Error>) {
    repo.tag(name, target.as_object(), sig, message, false)
}

/// Relies on `git2::Error::code`: the kind of the error.
#[verifier::external_body]
pub(crate) fn error_code(e: &git2::Error) -> (r: GitCode) {
    match e.code() {
        git2::ErrorCode::NotFound => GitCode::NotFound,
        git2::ErrorCode::Exists => GitCode::Exists,
        _ => GitCode::Other,
    }
}

/// Relies on `git2::Error::message`: the error's text.
#[verifier::external_body]
pub(crate) fn error_message(e: &git2::Error) -> (r: String) {
    e.message().to_string()
}

} // verus!
