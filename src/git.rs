//! The repository reader: staged files and their diff, commit facts, commit ranges, and
//! recording commits and tags.

use vstd::prelude::*;

use crate::backend::{
    author_name, commit_on_head, commit_seconds, commit_sha, delta_kind, diff_deltas, diff_patch_lines,
    diff_trees, diff_workdir, error_code, error_message, open_repository, tag_commit, utf8_text,
    walk_next, walk_rest,
};
use crate::text::{chars_of, int_text, int_to_text, string_of, views};

verus! {

/// How a file differs between the index and the working tree.
#[derive(PartialEq, Eq, Structural, Clone, Copy, Debug)]
pub enum FileStatus {
    Added,
    Modified,
    Deleted,
    Renamed,
    Copied,
    Unknown,
}

impl FileStatus {
    pub open spec fn name_spec(self) -> Seq<char> {
        match self {
            FileStatus::Added => "added"@,
            FileStatus::Modified => "modified"@,
            FileStatus::Deleted => "deleted"@,
            FileStatus::Renamed => "renamed"@,
            FileStatus::Copied => "copied"@,
            FileStatus::Unknown => "unknown"@,
        }
    }

    /// The status in lower-case words.
    pub fn as_str(&self) -> (r: &'static str)
        ensures
            r@ == self.name_spec(),
    {
        match self {
            FileStatus::Added => "added",
            FileStatus::Modified => "modified",
            FileStatus::Deleted => "deleted",
            FileStatus::Renamed => "renamed",
            FileStatus::Copied => "copied",
            FileStatus::Unknown => "unknown",
        }
    }
}

/// A changed file, by path, with the kind of its change.
#[derive(Debug)]
pub struct StagedFile {
    pub path: String,
    pub status: FileStatus,
}

/// The facts of one commit.
#[derive(Debug)]
pub struct CommitInfo {
    pub sha: String,
    pub message: String,
    pub author: String,
    pub date: String,
    pub files_changed: Vec<String>,
}


/// The kinds of change that the diff engine tells apart.
#[derive(PartialEq, Eq, Structural, Clone, Copy, Debug)]
pub enum DeltaKind {
    Unmodified,
    Added,
    Deleted,
    Modified,
    Renamed,
    Copied,
    Ignored,
    Untracked,
    Typechange,
    Unreadable,
    Conflicted,
}

/// One entry of a diff: the path of its new file, where it has one, and its kind.
#[derive(Debug, Clone)]
pub struct DeltaEntry {
    pub path: Option<String>,
    pub kind: DeltaKind,
}

/// One line of patch text: its origin marker and its bytes.
#[derive(Debug, Clone)]
pub struct PatchLine {
    pub origin: char,
    pub content: Vec<u8>,
}

/// The kinds of repository error that the library tells apart.
#[derive(PartialEq, Eq, Structural, Clone, Copy, Debug)]
pub enum GitCode {
    NotFound,
    Exists,
    Other,
}

/// Why a repository operation failed.
#[derive(Debug, Clone)]
pub enum RepoError {
    /// A reference, object or revision could not be resolved.
    NotFound(String),
    /// The input is malformed, such as a range without `..`.
    InvalidArgument(String),
    /// The name is already taken.
    AlreadyExists(String),
    /// The repository could not be opened, read or written.
    RepositoryError(String),
}

/// Adds one line of patch text to `lines`; the diff printer goes on while this answers
/// true.
pub fn record_line(lines: &mut Vec<PatchLine>, origin: char, content: &[u8]) -> (r: bool)
    ensures
        r,
        final(lines)@.len() == old(lines)@.len() + 1,
        final(lines)@.subrange(0, old(lines)@.len() as int) == old(lines)@,
        final(lines)@.last().origin == origin,
        final(lines)@.last().content@ == content@,
{
    let line = PatchLine { origin, content: vstd::slice::slice_to_vec(content) };
    lines.push(line);
    assert(lines@.subrange(0, lines@.len() - 1) =~= old(lines)@);
    true
}

/// The error for a failure with `code` and `message`.
pub fn error_from_code(code: GitCode, message: String) -> (r: RepoError)
    ensures
        r == match code {
            GitCode::NotFound => RepoError::NotFound(message),
            GitCode::Exists => RepoError::AlreadyExists(message),
            GitCode::Other => RepoError::RepositoryError(message),
        },
{
    match code {
        GitCode::NotFound => RepoError::NotFound(message),
        GitCode::Exists => RepoError::AlreadyExists(message),
        GitCode::Other => RepoError::RepositoryError(message),
    }
}

/// An error of the repository that is no malformed input.
pub open spec fn is_repo_failure(e: RepoError) -> bool {
    !(e is InvalidArgument)
}

fn repo_error(e: &git2::Error) -> (r: RepoError)
    ensures
        is_repo_failure(r),
{
    error_from_code(error_code(e), error_message(e))
}

fn not_found(e: &git2::Error) -> (r: RepoError)
    ensures
        r is NotFound,
{
    RepoError::NotFound(error_message(e))
}

/// The deltas of a diff, with their kinds told apart.
fn delta_entries(diff: &git2::Diff<'_>) -> (r: Vec<DeltaEntry>) {
    let raw = diff_deltas(diff);
    let mut entries: Vec<DeltaEntry> = Vec::new();
    let mut i: usize = 0;
    while i < raw.len()
        invariant
            i <= raw.len(),
        decreases raw.len() - i,
    {
        let (path, delta) = &raw[i];
        entries.push(DeltaEntry { path: path.clone(), kind: delta_kind(*delta) });
        i += 1;
    }
    entries
}

/// The status reported for a kind of change; a file new to the working tree counts as
/// added.
pub open spec fn status_of(k: DeltaKind) -> FileStatus {
    match k {
        DeltaKind::Added => FileStatus::Added,
        DeltaKind::Untracked => FileStatus::Added,
        DeltaKind::Modified => FileStatus::Modified,
        DeltaKind::Deleted => FileStatus::Deleted,
        DeltaKind::Renamed => FileStatus::Renamed,
        DeltaKind::Copied => FileStatus::Copied,
        _ => FileStatus::Unknown,
    }
}

fn status_for(k: DeltaKind) -> (r: FileStatus)
    ensures
        r == status_of(k),
{
    match k {
        DeltaKind::Added => FileStatus::Added,
        DeltaKind::Untracked => FileStatus::Added,
        DeltaKind::Modified => FileStatus::Modified,
        DeltaKind::Deleted => FileStatus::Deleted,
        DeltaKind::Renamed => FileStatus::Renamed,
        DeltaKind::Copied => FileStatus::Copied,
        _ => FileStatus::Unknown,
    }
}

/// The staged files as plain values.
pub open spec fn staged_view(fs: Seq<StagedFile>) -> Seq<(Seq<char>, FileStatus)> {
    fs.map_values(|f: StagedFile| (f.path@, f.status))
}

/// The files of the deltas that have a path, in order, with their statuses.
pub open spec fn staged_spec(ds: Seq<DeltaEntry>) -> Seq<(Seq<char>, FileStatus)>
    decreases ds.len(),
{
    if ds.len() == 0 {
        Seq::empty()
    } else {
        let init = staged_spec(ds.drop_last());
        match ds.last().path {
            Some(p) => init.push((p@, status_of(ds.last().kind))),
            None => init,
        }
    }
}

/// The paths of the deltas that have one, in order.
pub open spec fn paths_spec(ds: Seq<DeltaEntry>) -> Seq<Seq<char>>
    decreases ds.len(),
{
    if ds.len() == 0 {
        Seq::empty()
    } else {
        let init = paths_spec(ds.drop_last());
        match ds.last().path {
            Some(p) => init.push(p@),
            None => init,
        }
    }
}

/// A diff of one untracked file and one modified file, in either order, gives exactly
/// two staged files: the first added, the second modified.
pub proof fn lemma_untracked_and_modified(u: DeltaEntry, m: DeltaEntry)
    requires
        u.path is Some && u.kind == DeltaKind::Untracked,
        m.path is Some && m.kind == DeltaKind::Modified,
    ensures
        staged_spec(seq![u, m]) == seq![
            (u.path->0@, FileStatus::Added),
            (m.path->0@, FileStatus::Modified),
        ],
        staged_spec(seq![m, u]) == seq![
            (m.path->0@, FileStatus::Modified),
            (u.path->0@, FileStatus::Added),
        ],
{
    reveal_with_fuel(staged_spec, 3);
    assert(seq![u, m].drop_last() =~= seq![u]);
    assert(seq![u].drop_last() =~= Seq::<DeltaEntry>::empty());
    assert(seq![m, u].drop_last() =~= seq![m]);
    assert(seq![m].drop_last() =~= Seq::<DeltaEntry>::empty());
    assert(staged_spec(seq![u, m]) =~= seq![
        (u.path->0@, FileStatus::Added),
        (m.path->0@, FileStatus::Modified),
    ]);
    assert(staged_spec(seq![m, u]) =~= seq![
        (m.path->0@, FileStatus::Modified),
        (u.path->0@, FileStatus::Added),
    ]);
}

/// The staged files that a list of deltas describes.
pub fn staged_files_from(deltas: &Vec<DeltaEntry>) -> (r: Vec<StagedFile>)
    ensures
        staged_view(r@) == staged_spec(deltas@),
{
    let mut files: Vec<StagedFile> = Vec::new();
    let mut i: usize = 0;
    assert(deltas@.subrange(0, 0) =~= Seq::<DeltaEntry>::empty());
    while i < deltas.len()
        invariant
            i <= deltas.len(),
            staged_view(files@) == staged_spec(deltas@.subrange(0, i as int)),
        decreases deltas.len() - i,
    {
        let ghost next = deltas@.subrange(0, i + 1);
        assert(next.drop_last() =~= deltas@.subrange(0, i as int));
        match &deltas[i].path {
            Some(p) => {
                let f = StagedFile { path: p.clone(), status: status_for(deltas[i].kind) };
                let ghost prev = files@;
                files.push(f);
                assert(staged_view(files@) =~= staged_view(prev).push((f.path@, f.status)));
            },
            None => {},
        }
        i += 1;
    }
    assert(deltas@.subrange(0, deltas@.len() as int) =~= deltas@);
    files
}

/// The paths that a list of deltas touches.
pub fn changed_paths(deltas: &Vec<DeltaEntry>) -> (r: Vec<String>)
    ensures
        views(r@) == paths_spec(deltas@),
{
    let mut paths: Vec<String> = Vec::new();
    let mut i: usize = 0;
    assert(deltas@.subrange(0, 0) =~= Seq::<DeltaEntry>::empty());
    while i < deltas.len()
        invariant
            i <= deltas.len(),
            views(paths@) == paths_spec(deltas@.subrange(0, i as int)),
        decreases deltas.len() - i,
    {
        let ghost next = deltas@.subrange(0, i + 1);
        assert(next.drop_last() =~= deltas@.subrange(0, i as int));
        match &deltas[i].path {
            Some(p) => {
                let q = p.clone();
                let ghost prev = paths@;
                paths.push(q);
                assert(views(paths@) =~= views(prev).push(q@));
            },
            None => {},
        }
        i += 1;
    }
    assert(deltas@.subrange(0, deltas@.len() as int) =~= deltas@);
    paths
}

/// The marker put before a patch line: `+`, `-` or a space for added, removed and
/// context lines, nothing for others.
pub open spec fn origin_prefix(c: char) -> Seq<char> {
    if c == '+' || c == '-' || c == ' ' {
        seq![c]
    } else {
        Seq::empty()
    }
}

/// The text of a patch line; a line that is not UTF-8 counts as empty.
pub open spec fn line_text(b: Seq<u8>) -> Seq<char> {
    if vstd::utf8::valid_utf8(b) {
        vstd::utf8::decode_utf8(b)
    } else {
        Seq::empty()
    }
}

/// Patch text: each line with its marker, in order.
pub open spec fn patch_spec(ls: Seq<PatchLine>) -> Seq<char>
    decreases ls.len(),
{
    if ls.len() == 0 {
        Seq::empty()
    } else {
        patch_spec(ls.drop_last()) + origin_prefix(ls.last().origin) + line_text(
            ls.last().content@,
        )
    }
}

/// Renders patch lines as unified patch text.
pub fn patch_text(lines: &Vec<PatchLine>) -> (r: String)
    ensures
        r@ == patch_spec(lines@),
{
    let mut r = String::new();
    let mut i: usize = 0;
    assert(lines@.subrange(0, 0) =~= Seq::<PatchLine>::empty());
    while i < lines.len()
        invariant
            i <= lines.len(),
            r@ == patch_spec(lines@.subrange(0, i as int)),
        decreases lines.len() - i,
    {
        let ghost next = lines@.subrange(0, i + 1);
        assert(next.drop_last() =~= lines@.subrange(0, i as int));
        let o = lines[i].origin;
        if o == '+' || o == '-' || o == ' ' {
            crate::text::push_char(&mut r, o);
        }
        match utf8_text(lines[i].content.as_slice()) {
            Some(t) => r.append(t.as_str()),
            None => {},
        }
        i += 1;
    }
    assert(lines@.subrange(0, lines@.len() as int) =~= lines@);
    r
}

/// The facts of a commit, from what the repository tells of it: a missing message counts
/// as empty, a missing author name as `Unknown`, and the date is the commit time in
/// seconds.
pub fn commit_info_from(
    sha: String,
    message: Option<&str>,
    author: Option<String>,
    seconds: i64,
    files_changed: Vec<String>,
) -> (r: CommitInfo)
    ensures
        r.sha == sha,
        r.message@ == match message {
            Some(m) => m@,
            None => Seq::empty(),
        },
        r.author@ == match author {
            Some(a) => a@,
            None => "Unknown"@,
        },
        r.date@ == int_text(seconds as int),
        r.files_changed == files_changed,
{
    CommitInfo {
        sha,
        message: match message {
            Some(m) => m.to_string(),
            None => String::new(),
        },
        author: match author {
            Some(a) => a,
            None => "Unknown".to_string(),
        },
        date: int_to_text(seconds),
        files_changed,
    }
}

/// Two dots start at position `i`.
pub open spec fn dots_at(s: Seq<char>, i: int) -> bool {
    0 <= i && i + 2 <= s.len() && s[i] == '.' && s[i + 1] == '.'
}

/// Where the first `..` at position `i` or later starts, if there is one.
pub open spec fn first_dots_from(s: Seq<char>, i: int) -> Option<int>
    decreases s.len() - i,
{
    if i < 0 || i + 2 > s.len() {
        None
    } else if dots_at(s, i) {
        Some(i)
    } else {
        first_dots_from(s, i + 1)
    }
}

/// The two ends of a range expression `start..end`: it splits at `..` into exactly two
/// pieces, neither empty.
pub open spec fn range_parts(s: Seq<char>) -> Option<(Seq<char>, Seq<char>)> {
    match first_dots_from(s, 0) {
        Some(i) => {
            let a = s.subrange(0, i);
            let b = s.subrange(i + 2, s.len() as int);
            if a.len() > 0 && b.len() > 0 && first_dots_from(b, 0) is None {
                Some((a, b))
            } else {
                None
            }
        },
        None => None,
    }
}

proof fn lemma_first_dots_bounds(s: Seq<char>, i: int)
    ensures
        first_dots_from(s, i) matches Some(j) ==> i <= j && j + 2 <= s.len() && dots_at(s, j),
    decreases s.len() - i,
{
    if i >= 0 && i + 2 <= s.len() && !dots_at(s, i) {
        lemma_first_dots_bounds(s, i + 1);
    }
}

fn find_dots(cs: &Vec<char>) -> (r: Option<usize>)
    ensures
        match r {
            Some(i) => first_dots_from(cs@, 0) == Some(i as int),
            None => first_dots_from(cs@, 0) is None,
        },
{
    if cs.len() < 2 {
        return None;
    }
    let mut i: usize = 0;
    while i < cs.len() - 1
        invariant
            cs.len() >= 2,
            i + 1 <= cs.len(),
            first_dots_from(cs@, 0) == first_dots_from(cs@, i as int),
        decreases cs.len() - i,
    {
        if cs[i] == '.' && cs[i + 1] == '.' {
            return Some(i);
        }
        i += 1;
    }
    None
}

/// Splits a range expression into its two ends.
pub fn parse_range(range: &str) -> (r: Option<(String, String)>)
    ensures
        match r {
            Some((a, b)) => range_parts(range@) == Some((a@, b@)),
            None => range_parts(range@) is None,
        },
{
    let cs = chars_of(range);
    match find_dots(&cs) {
        Some(i) => {
            proof {
                lemma_first_dots_bounds(cs@, 0);
            }
            let a = string_of(&cs, 0, i);
            let b = string_of(&cs, i + 2, cs.len());
            let bs = chars_of(b.as_str());
            if i > 0 && i + 2 < cs.len() && find_dots(&bs).is_none() {
                Some((a, b))
            } else {
                None
            }
        },
        None => None,
    }
}


/// The name and address under which commits and tags are recorded.
pub const SIGNATURE_NAME: &'static str = "Git AutoMessage";

/// The address that goes with `SIGNATURE_NAME`.
pub const SIGNATURE_EMAIL: &'static str = "automessage@git";

/// A repository opened for reading its history and recording commits and tags.
pub struct GitRepo {
    repo: git2::Repository,
}

impl GitRepo {
    /// Opens the repository of the current directory.
    pub fn open() -> (r: Result<Self, RepoError>)
        ensures
            r is Err ==> r matches Err(RepoError::RepositoryError(_)),
    {
        Self::open_at(".")
    }

    /// Opens the repository at `path`; a path that holds no repository, or one that
    /// cannot be read, is a repository error.
    pub fn open_at(path: &str) -> (r: Result<Self, RepoError>)
        ensures
            r is Err ==> r matches Err(RepoError::RepositoryError(_)),
    {
        match open_repository(path) {
            Ok(repo) => Ok(GitRepo { repo }),
            Err(e) => Err(RepoError::RepositoryError(error_message(&e))),
        }
    }

    /// The files that differ between the index and the working tree, untracked ones
    /// included, in the order of the diff engine.
    pub fn get_staged_files(&self) -> (r: Result<Vec<StagedFile>, RepoError>)
        ensures
            r matches Err(e) ==> is_repo_failure(e),
    {
        let diff = match diff_workdir(&self.repo) {
            Ok(d) => d,
            Err(e) => return Err(repo_error(&e)),
        };
        let deltas = delta_entries(&diff);
        Ok(staged_files_from(&deltas))
    }

    /// The same changes as unified patch text.
    pub fn get_staged_diff(&self) -> (r: Result<String, RepoError>)
        ensures
            r matches Err(e) ==> is_repo_failure(e),
    {
        let diff = match diff_workdir(&self.repo) {
            Ok(d) => d,
            Err(e) => return Err(repo_error(&e)),
        };
        match diff_patch_lines(&diff) {
            Ok(lines) => Ok(patch_text(&lines)),
            Err(e) => Err(repo_error(&e)),
        }
    }

    /// The facts of a commit; its files are those changed from its first parent, or from
    /// an empty tree where it has none.
    fn commit_record(&self, c: &git2::Commit<'_>) -> (r: Result<CommitInfo, RepoError>)
        ensures
            r matches Ok(info) ==> info.sha@.len() == 40,
            r matches Err(e) ==> is_repo_failure(e),
    {
        let tree = match c.tree() {
            Ok(t) => t,
            Err(e) => return Err(repo_error(&e)),
        };
        let parent_tree = match c.parent(0) {
            Ok(p) => match p.tree() {
                Ok(t) => Some(t),
                Err(_) => None,
            },
            Err(_) => None,
        };
        let diff = match diff_trees(&self.repo, parent_tree.as_ref(), &tree) {
            Ok(d) => d,
            Err(e) => return Err(repo_error(&e)),
        };
        let deltas = delta_entries(&diff);
        let files = changed_paths(&deltas);
        Ok(commit_info_from(commit_sha(c), c.message(), author_name(c), commit_seconds(c), files))
    }

    /// The SHA of the commit that `reference` names.
    fn resolve_sha(&self, reference: &str) -> (r: Result<String, RepoError>)
        ensures
            r matches Ok(s) ==> s@.len() == 40,
            r matches Err(e) ==> e is NotFound,
    {
        let obj = match self.repo.revparse_single(reference) {
            Ok(o) => o,
            Err(e) => return Err(not_found(&e)),
        };
        match obj.peel_to_commit() {
            Ok(c) => Ok(commit_sha(&c)),
            Err(e) => Err(not_found(&e)),
        }
    }

    /// The facts of the commit that `reference` names (a SHA, a branch, `HEAD`, ...).
    pub fn get_commit_info(&self, reference: &str) -> (r: Result<CommitInfo, RepoError>)
        ensures
            r matches Ok(info) ==> info.sha@.len() == 40,
            r matches Err(e) ==> is_repo_failure(e),
    {
        let obj = match self.repo.revparse_single(reference) {
            Ok(o) => o,
            Err(e) => return Err(not_found(&e)),
        };
        let commit = match obj.peel_to_commit() {
            Ok(c) => c,
            Err(e) => return Err(not_found(&e)),
        };
        self.commit_record(&commit)
    }

    /// The last `count` commits reachable from `HEAD`, newest first, or all of them where
    /// there are fewer.
    pub fn get_recent_commits(&self, count: usize) -> (r: Result<Vec<CommitInfo>, RepoError>)
        ensures
            r matches Ok(v) ==> v@.len() <= count && forall|i: int|
                0 <= i < v@.len() ==> (#[trigger] v@[i]).sha@.len() == 40,
            r matches Err(e) ==> is_repo_failure(e),
    {
        let mut walk = match self.repo.revwalk() {
            Ok(w) => w,
            Err(e) => return Err(repo_error(&e)),
        };
        match walk.push_head() {
            Ok(()) => {},
            Err(e) => return Err(repo_error(&e)),
        }
        let mut commits: Vec<CommitInfo> = Vec::new();
        while commits.len() < count
            invariant
                commits@.len() <= count,
                forall|i: int| 0 <= i < commits@.len() ==> (#[trigger] commits@[i]).sha@.len() == 40,
            decreases count - commits@.len(),
        {
            let oid = match walk_next(&mut walk) {
                Some(Ok(oid)) => oid,
                Some(Err(e)) => return Err(repo_error(&e)),
                None => break,
            };
            let c = match self.repo.find_commit(oid) {
                Ok(c) => c,
                Err(e) => return Err(repo_error(&e)),
            };
            let info = self.commit_record(&c)?;
            commits.push(info);
        }
        Ok(commits)
    }

    /// The commits reachable from `end` and not from `start`, for `range` written
    /// `start..end`, newest first. A range that does not split at `..` into two non-empty
    /// ends is refused before the repository is read.
    pub fn get_commits_in_range(&self, range: &str) -> (r: Result<Vec<CommitInfo>, RepoError>)
        ensures
            r matches Err(RepoError::InvalidArgument(_)) <==> range_parts(range@) is None,
            r matches Ok(v) ==> forall|i: int|
                0 <= i < v@.len() ==> (#[trigger] v@[i]).sha@.len() == 40,
    {
        let (start, end) = match parse_range(range) {
            Some(p) => p,
            None => {
                return Err(
                    RepoError::InvalidArgument(
                        "invalid range format; use start..end".to_string(),
                    ),
                );
            },
        };
        let start_sha = self.resolve_sha(start.as_str())?;
        let end_sha = self.resolve_sha(end.as_str())?;
        let mut walk = match self.repo.revwalk() {
            Ok(w) => w,
            Err(e) => return Err(repo_error(&e)),
        };
        let mut ends = start_sha;
        ends.append("..");
        ends.append(end_sha.as_str());
        match walk.push_range(ends.as_str()) {
            Ok(()) => {},
            Err(e) => return Err(repo_error(&e)),
        }
        let oids = walk_rest(walk);
        let mut commits: Vec<CommitInfo> = Vec::new();
        let mut i: usize = 0;
        while i < oids.len()
            invariant
                i <= oids.len(),
                range_parts(range@) is Some,
                forall|j: int| 0 <= j < commits@.len() ==> (#[trigger] commits@[j]).sha@.len() == 40,
            decreases oids.len() - i,
        {
            let oid = match &oids[i] {
                Ok(oid) => *oid,
                Err(e) => return Err(repo_error(e)),
            };
            let c = match self.repo.find_commit(oid) {
                Ok(c) => c,
                Err(e) => return Err(repo_error(&e)),
            };
            let info = match self.commit_record(&c) {
                Ok(info) => info,
                Err(e) => return Err(e),
            };
            commits.push(info);
            i += 1;
        }
        Ok(commits)
    }

    /// Records the index as a commit on `HEAD`, under the library's own signature; fails
    /// where `HEAD` has no commit yet.
    pub fn create_commit(&self, message: &str) -> (r: Result<(), RepoError>)
        ensures
            r matches Err(e) ==> is_repo_failure(e),
    {
        let sig = match git2::Signature::now(SIGNATURE_NAME, SIGNATURE_EMAIL) {
            Ok(s) => s,
            Err(e) => return Err(repo_error(&e)),
        };
        let mut index = match self.repo.index() {
            Ok(i) => i,
            Err(e) => return Err(repo_error(&e)),
        };
        let tree_id = match index.write_tree() {
            Ok(t) => t,
            Err(e) => return Err(repo_error(&e)),
        };
        let tree = match self.repo.find_tree(tree_id) {
            Ok(t) => t,
            Err(e) => return Err(repo_error(&e)),
        };
        let head = match self.repo.head() {
            Ok(h) => h,
            Err(e) => return Err(repo_error(&e)),
        };
        let parent = match head.peel_to_commit() {
            Ok(c) => c,
            Err(e) => return Err(repo_error(&e)),
        };
        match commit_on_head(&self.repo, &sig, message, &tree, &parent) {
            Ok(_) => Ok(()),
            Err(e) => Err(repo_error(&e)),
        }
    }

    /// Creates the annotated tag `name` on the commit that `reference` names; a name
    /// that is taken is reported, not replaced.
    pub fn create_annotated_tag(&self, name: &str, message: &str, reference: &str) -> (r: Result<
        (),
        RepoError,
    >)
        ensures
            r matches Err(e) ==> is_repo_failure(e),
    {
        let obj = match self.repo.revparse_single(reference) {
            Ok(o) => o,
            Err(e) => return Err(not_found(&e)),
        };
        let commit = match obj.peel_to_commit() {
            Ok(c) => c,
            Err(e) => return Err(not_found(&e)),
        };
        let sig = match git2::Signature::now(SIGNATURE_NAME, SIGNATURE_EMAIL) {
            Ok(s) => s,
            Err(e) => return Err(repo_error(&e)),
        };
        match tag_commit(&self.repo, name, &commit, &sig, message) {
            Ok(_) => Ok(()),
            Err(e) => Err(repo_error(&e)),
        }
    }
}

} // verus!
