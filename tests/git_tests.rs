use git_automessage::git::{
    changed_paths, commit_info_from, error_from_code, parse_range, patch_text, staged_files_from,
    DeltaEntry, DeltaKind, FileStatus, GitCode, GitRepo, PatchLine, RepoError,
};

fn sig() -> git2::Signature<'static> {
    git2::Signature::now("Tester", "tester@example.com").unwrap()
}

/// A repository with two commits, made without touching the working tree.
fn repo_with_history(dir: &std::path::Path) -> (git2::Oid, git2::Oid) {
    let repo = git2::Repository::init(dir).unwrap();
    let blob = repo.blob(b"one\n").unwrap();
    let mut tb = repo.treebuilder(None).unwrap();
    tb.insert("a.txt", blob, 0o100644).unwrap();
    let tree = repo.find_tree(tb.write().unwrap()).unwrap();
    let first = repo.commit(Some("HEAD"), &sig(), &sig(), "feat: first", &tree, &[]).unwrap();
    let blob2 = repo.blob(b"two\n").unwrap();
    let mut tb2 = repo.treebuilder(Some(&tree)).unwrap();
    tb2.insert("b.txt", blob2, 0o100644).unwrap();
    let tree2 = repo.find_tree(tb2.write().unwrap()).unwrap();
    let parent = repo.find_commit(first).unwrap();
    let second = repo.commit(Some("HEAD"), &sig(), &sig(), "fix: second", &tree2, &[&parent]).unwrap();
    (first, second)
}

#[test]
fn range_expressions() {
    assert_eq!(parse_range("v1.0..v1.1"), Some(("v1.0".to_string(), "v1.1".to_string())));
    assert_eq!(parse_range("a..a"), Some(("a".to_string(), "a".to_string())));
    assert_eq!(parse_range("a...b"), Some(("a".to_string(), ".b".to_string())));
    assert_eq!(parse_range("HEAD"), None);
    assert_eq!(parse_range("..b"), None);
    assert_eq!(parse_range("a.."), None);
    assert_eq!(parse_range("a..b..c"), None);
    assert_eq!(parse_range(""), None);
}

#[test]
fn malformed_range_is_refused() {
    let dir = tempfile::tempdir().unwrap();
    let (_, second) = repo_with_history(dir.path());
    let repo = GitRepo::open_at(dir.path().to_str().unwrap()).unwrap();
    assert!(matches!(repo.get_commits_in_range("HEAD"), Err(RepoError::InvalidArgument(_))));
    let raw = git2::Repository::open(dir.path()).unwrap();
    assert_eq!(raw.head().unwrap().target().unwrap(), second);
}

#[test]
fn range_with_equal_ends_is_empty() {
    let dir = tempfile::tempdir().unwrap();
    let (first, second) = repo_with_history(dir.path());
    let repo = GitRepo::open_at(dir.path().to_str().unwrap()).unwrap();
    let empty = repo.get_commits_in_range(&format!("{second}..{second}")).unwrap();
    assert!(empty.is_empty());
    let one = repo.get_commits_in_range(&format!("{first}..HEAD")).unwrap();
    assert_eq!(one.len(), 1);
    assert_eq!(one[0].sha, second.to_string());
    assert!(matches!(repo.get_commits_in_range("nope..HEAD"), Err(RepoError::NotFound(_))));
}

#[test]
fn commit_facts_and_history() {
    let dir = tempfile::tempdir().unwrap();
    let (first, second) = repo_with_history(dir.path());
    let repo = GitRepo::open_at(dir.path().to_str().unwrap()).unwrap();
    let info = repo.get_commit_info("HEAD").unwrap();
    assert_eq!(info.sha, second.to_string());
    assert_eq!(info.sha.len(), 40);
    assert_eq!(info.message, "fix: second");
    assert_eq!(info.author, "Tester");
    assert_eq!(info.files_changed, vec!["b.txt".to_string()]);
    let root = repo.get_commit_info(&first.to_string()).unwrap();
    assert_eq!(root.files_changed, vec!["a.txt".to_string()]);
    let recent = repo.get_recent_commits(10).unwrap();
    assert_eq!(recent.len(), 2);
    assert_eq!(recent[0].message, "fix: second");
    assert_eq!(recent[1].message, "feat: first");
    assert_eq!(repo.get_recent_commits(1).unwrap().len(), 1);
    assert!(matches!(repo.get_commit_info("no-such-ref"), Err(RepoError::NotFound(_))));
}

#[test]
fn tags_are_not_replaced() {
    let dir = tempfile::tempdir().unwrap();
    repo_with_history(dir.path());
    let repo = GitRepo::open_at(dir.path().to_str().unwrap()).unwrap();
    assert!(repo.create_annotated_tag("v1", "first release", "HEAD").is_ok());
    assert!(matches!(
        repo.create_annotated_tag("v1", "again", "HEAD"),
        Err(RepoError::AlreadyExists(_))
    ));
}

#[test]
fn staged_files_of_untracked_and_modified() {
    let dir = tempfile::tempdir().unwrap();
    let raw = git2::Repository::init(dir.path()).unwrap();
    // Commit `tracked.txt` and check it out, index included.
    let one = raw.blob(b"one\n").unwrap();
    let mut tb = raw.treebuilder(None).unwrap();
    tb.insert("tracked.txt", one, 0o100644).unwrap();
    let tree = raw.find_tree(tb.write().unwrap()).unwrap();
    raw.commit(Some("HEAD"), &sig(), &sig(), "init", &tree, &[]).unwrap();
    let mut all = git2::build::CheckoutBuilder::new();
    all.force();
    raw.checkout_tree(tree.as_object(), Some(&mut all)).unwrap();
    // Write a changed `tracked.txt` and a new `new.txt` to the working tree only.
    let two = raw.blob(b"two\n").unwrap();
    let new = raw.blob(b"new\n").unwrap();
    let mut tb2 = raw.treebuilder(None).unwrap();
    tb2.insert("tracked.txt", two, 0o100644).unwrap();
    tb2.insert("new.txt", new, 0o100644).unwrap();
    let tree2 = raw.find_tree(tb2.write().unwrap()).unwrap();
    let mut worktree_only = git2::build::CheckoutBuilder::new();
    worktree_only.force().update_index(false);
    raw.checkout_tree(tree2.as_object(), Some(&mut worktree_only)).unwrap();
    let repo = GitRepo::open_at(dir.path().to_str().unwrap()).unwrap();
    let files = repo.get_staged_files().unwrap();
    assert_eq!(files.len(), 2);
    let mut statuses: Vec<(String, FileStatus)> =
        files.into_iter().map(|f| (f.path, f.status)).collect();
    statuses.sort_by(|a, b| a.0.cmp(&b.0));
    assert_eq!(
        statuses,
        vec![
            ("new.txt".to_string(), FileStatus::Added),
            ("tracked.txt".to_string(), FileStatus::Modified)
        ]
    );
    let diff = repo.get_staged_diff().unwrap();
    assert!(diff.contains("-one\n"));
    assert!(diff.contains("+two\n"));
    assert!(repo.create_commit("chore: record").is_ok());
}

#[test]
fn staged_files_from_deltas() {
    let ds = vec![
        DeltaEntry { path: Some("a".to_string()), kind: DeltaKind::Untracked },
        DeltaEntry { path: None, kind: DeltaKind::Added },
        DeltaEntry { path: Some("b".to_string()), kind: DeltaKind::Typechange },
        DeltaEntry { path: Some("c".to_string()), kind: DeltaKind::Deleted },
    ];
    let fs = staged_files_from(&ds);
    let got: Vec<(&str, FileStatus)> = fs.iter().map(|f| (f.path.as_str(), f.status)).collect();
    assert_eq!(
        got,
        vec![("a", FileStatus::Added), ("b", FileStatus::Unknown), ("c", FileStatus::Deleted)]
    );
    assert_eq!(changed_paths(&ds), vec!["a".to_string(), "b".to_string(), "c".to_string()]);
    let reversed = vec![
        DeltaEntry { path: Some("m".to_string()), kind: DeltaKind::Modified },
        DeltaEntry { path: Some("u".to_string()), kind: DeltaKind::Untracked },
    ];
    let got: Vec<(String, FileStatus)> =
        staged_files_from(&reversed).into_iter().map(|f| (f.path, f.status)).collect();
    assert_eq!(got, vec![("m".to_string(), FileStatus::Modified), ("u".to_string(), FileStatus::Added)]);
}

#[test]
fn opening_a_directory_without_repository_fails() {
    let dir = tempfile::tempdir().unwrap();
    assert!(matches!(
        GitRepo::open_at(dir.path().to_str().unwrap()),
        Err(RepoError::RepositoryError(_))
    ));
}

#[test]
fn patch_text_marks_lines() {
    let lines = vec![
        PatchLine { origin: 'F', content: b"diff --git a/x b/x\n".to_vec() },
        PatchLine { origin: '+', content: b"added\n".to_vec() },
        PatchLine { origin: '-', content: vec![0xff, 0xfe] },
        PatchLine { origin: ' ', content: "caf\u{e9}\n".as_bytes().to_vec() },
    ];
    assert_eq!(patch_text(&lines), "diff --git a/x b/x\n+added\n- caf\u{e9}\n");
}

#[test]
fn commit_info_defaults() {
    let c = commit_info_from("abc".to_string(), None, None, -5, vec![]);
    assert_eq!(c.message, "");
    assert_eq!(c.author, "Unknown");
    assert_eq!(c.date, "-5");
    let c = commit_info_from("abc".to_string(), Some("m"), Some("A".to_string()), 1700000000, vec![]);
    assert_eq!(c.date, "1700000000");
    assert_eq!(c.message, "m");
    assert_eq!(c.author, "A");
}

#[test]
fn error_kinds() {
    assert!(matches!(error_from_code(GitCode::NotFound, "x".to_string()), RepoError::NotFound(_)));
    assert!(matches!(error_from_code(GitCode::Exists, "x".to_string()), RepoError::AlreadyExists(_)));
    assert!(matches!(error_from_code(GitCode::Other, "x".to_string()), RepoError::RepositoryError(_)));
}
