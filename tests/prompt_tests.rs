use git_automessage::git::{CommitInfo, FileStatus, StagedFile};
use git_automessage::prompts::{changelog_request, commit_request, tag_request, Prompt};

fn info() -> CommitInfo {
    CommitInfo {
        sha: "0123456789abcdef0123456789abcdef01234567".to_string(),
        message: "feat: add login".to_string(),
        author: "Ann".to_string(),
        date: "1700000000".to_string(),
        files_changed: vec!["src/a.rs".to_string(), "README.md".to_string()],
    }
}

#[test]
fn prompt_kinds() {
    assert_eq!(Prompt::new("other", "en").get_prompt(), "");
    assert!(Prompt::new("commit", "en-US").get_prompt().ends_with("Write the message in this language: en-US."));
    assert!(Prompt::new("commit", "en").get_prompt().contains("at most 50 characters"));
    assert!(Prompt::new("tag", "en").get_prompt().contains("breaking changes"));
    assert!(Prompt::new("changelog", "en").get_prompt().contains("short SHA"));
    assert_eq!(Prompt::from_str("x").get_prompt(), "x");
}

#[test]
fn commit_request_lists_files_and_diff() {
    let files = vec![
        StagedFile { path: "a.rs".to_string(), status: FileStatus::Added },
        StagedFile { path: "b.rs".to_string(), status: FileStatus::Modified },
    ];
    let r = commit_request("+x\n", &files, Some("Be brief.")).unwrap();
    assert_eq!(r, "Be brief.\n\n文件更改：\na.rs (added)\nb.rs (modified)\n\n代码差异：\n+x\n");
    let d = commit_request("", &files, None).unwrap();
    assert_eq!(
        d,
        "基于以下代码更改生成一个简洁的git提交消息。请遵循常规提交规范（Conventional Commits）。\n\n\
格式：<type>: <description>\n\n类型包括：feat, fix, docs, style, refactor, test, chore\n\n更改内容：\
\n\n文件更改：\na.rs (added)\nb.rs (modified)\n\n代码差异：\n"
    );
}

#[test]
fn commit_request_needs_staged_files() {
    assert!(commit_request("+x", &[], Some("p")).is_none());
}

#[test]
fn tag_request_holds_commit_facts() {
    let r = tag_request("v1.0", &info(), None);
    assert_eq!(
        r,
        "为git标签生成一个有意义的消息。消息应该简洁地描述这个标签代表的内容。\n\n\
标签名称：v1.0\n提交信息：feat: add login\n作者：Ann\n提交SHA：01234567\n提交日期：1700000000\n\
文件更改：\nsrc/a.rs\nREADME.md"
    );
}

#[test]
fn changelog_request_lists_commits() {
    let mut short = info();
    short.sha = "abc1234".to_string();
    let r = changelog_request(&[info(), short]);
    assert_eq!(
        r,
        "基于以下git提交记录，生成一个简洁的变更日志摘要。请按以下格式组织内容：\n\n\
### 新增功能\n- 新增的功能描述\n\n### 修复\n- 修复的问题描述\n\n### 改进\n- 其他改进描述\n\n\
请确保描述简洁明了，避免技术细节。\n\n提交记录：\n\
- 01234567: feat: add login (1700000000) by Ann\n\
- abc1234: feat: add login (1700000000) by Ann"
    );
}
