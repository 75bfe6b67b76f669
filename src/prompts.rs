//! Generation requests: the system instructions and the content built from repository
//! facts, without any I/O.

use vstd::prelude::*;

use crate::git::{CommitInfo, StagedFile};
use crate::text::{join_lines, join_spec, same_text, short_sha, short_sha_of, views};

verus! {

/// The instruction that sets the form of a commit message; the language follows it.
pub const COMMIT_INSTRUCTION: &'static str = "You write git commit messages in the Conventional Commits style: `type(scope): summary`. Keep the first line at most 50 characters long and write it in the imperative present tense. Do not preface the commit with anything, except for the conventional commit keywords: fix, feat, build, chore, ci, docs, style, refactor, perf, test. Mark a breaking change with `!` after the type and a `BREAKING CHANGE:` footer. Write the message in this language: ";

/// The instruction that sets the form of a tag annotation.
pub const TAG_INSTRUCTION: &'static str = "You write the annotation of a git release tag. Start with a one-line summary, then list the changes as short bullets, and name breaking changes first.";

/// The instruction that sets the form of a changelog section.
pub const CHANGELOG_INSTRUCTION: &'static str = "You write changelog sections. Group the changes by category (Added, Fixed, Changed, Removed) as markdown bullet lists, and cite the short SHA of each commit.";

/// The request text used where no instruction for a commit message is given.
pub const DEFAULT_COMMIT_REQUEST: &'static str = "基于以下代码更改生成一个简洁的git提交消息。请遵循常规提交规范（Conventional Commits）。\n\n格式：<type>: <description>\n\n类型包括：feat, fix, docs, style, refactor, test, chore\n\n更改内容：";

/// The label before the changed files of a commit-message request.
pub const FILES_LABEL: &'static str = "\n\n文件更改：\n";

/// The label before the diff of a commit-message request.
pub const DIFF_LABEL: &'static str = "\n\n代码差异：\n";

/// The request text used where no instruction for a tag annotation is given.
pub const DEFAULT_TAG_REQUEST: &'static str = "为git标签生成一个有意义的消息。消息应该简洁地描述这个标签代表的内容。";

/// The labels of the facts in a tag-annotation request, in their order.
pub const TAG_NAME_LABEL: &'static str = "\n\n标签名称：";

pub const TAG_MESSAGE_LABEL: &'static str = "\n提交信息：";

pub const TAG_AUTHOR_LABEL: &'static str = "\n作者：";

pub const TAG_SHA_LABEL: &'static str = "\n提交SHA：";

pub const TAG_DATE_LABEL: &'static str = "\n提交日期：";

pub const TAG_FILES_LABEL: &'static str = "\n文件更改：\n";

/// The text that leads a changelog request, before the commits.
pub const CHANGELOG_REQUEST_LEAD: &'static str = "基于以下git提交记录，生成一个简洁的变更日志摘要。请按以下格式组织内容：\n\n### 新增功能\n- 新增的功能描述\n\n### 修复\n- 修复的问题描述\n\n### 改进\n- 其他改进描述\n\n请确保描述简洁明了，避免技术细节。\n\n提交记录：\n";

/// The instruction that sets the form of a commit message, for messages in `language`.
pub open spec fn commit_instruction(language: Seq<char>) -> Seq<char> {
    COMMIT_INSTRUCTION@ + language + "."@
}

/// The instruction that sets the form of a tag annotation.
pub open spec fn tag_instruction() -> Seq<char> {
    TAG_INSTRUCTION@
}

/// The instruction that sets the form of a changelog section.
pub open spec fn changelog_instruction() -> Seq<char> {
    CHANGELOG_INSTRUCTION@
}

/// The instruction for a kind of request: `tag`, `commit` or `changelog`; any other kind
/// has an empty instruction.
pub open spec fn instruction_for(kind: Seq<char>, language: Seq<char>) -> Seq<char> {
    if kind == "tag"@ {
        tag_instruction()
    } else if kind == "commit"@ {
        commit_instruction(language)
    } else if kind == "changelog"@ {
        changelog_instruction()
    } else {
        Seq::empty()
    }
}

/// The system instruction of a generation request.
pub struct Prompt {
    pub prompt: String,
}

impl Prompt {
    /// An instruction of the caller's own.
    pub fn from_str(prompt: &str) -> (r: Self)
        ensures
            r.prompt@ == prompt@,
    {
        Prompt { prompt: prompt.to_string() }
    }

    /// The instruction for requests of kind `prompt_type`, for messages in `language`.
    pub fn new(prompt_type: &str, language: &str) -> (r: Self)
        ensures
            r.prompt@ == instruction_for(prompt_type@, language@),
    {
        if same_text(prompt_type, "tag") {
            Self::tag_prompt()
        } else if same_text(prompt_type, "commit") {
            Self::commit_prompt(language)
        } else if same_text(prompt_type, "changelog") {
            Self::changelog_prompt()
        } else {
            Self::default_prompt()
        }
    }

    /// The text of the instruction.
    pub fn get_prompt(&self) -> (r: &str)
        ensures
            r@ == self.prompt@,
    {
        self.prompt.as_str()
    }

    fn default_prompt() -> (r: Self)
        ensures
            r.prompt@ == Seq::<char>::empty(),
    {
        Prompt { prompt: String::new() }
    }

    fn tag_prompt() -> (r: Self)
        ensures
            r.prompt@ == tag_instruction(),
    {
        Self::from_str(TAG_INSTRUCTION)
    }

    fn commit_prompt(language: &str) -> (r: Self)
        ensures
            r.prompt@ == commit_instruction(language@),
    {
        let mut p = String::new();
        p.append(COMMIT_INSTRUCTION);
        p.append(language);
        p.append(".");
        Prompt { prompt: p }
    }

    fn changelog_prompt() -> (r: Self)
        ensures
            r.prompt@ == changelog_instruction(),
    {
        Self::from_str(CHANGELOG_INSTRUCTION)
    }
}

/// The request text used where no instruction for a commit message is given.
pub open spec fn default_commit_request() -> Seq<char> {
    DEFAULT_COMMIT_REQUEST@
}

/// One line per changed file: `<path> (<status>)`.
pub open spec fn file_lines(fs: Seq<StagedFile>) -> Seq<Seq<char>> {
    fs.map_values(|f: StagedFile| f.path@ + " ("@ + f.status.name_spec() + ")"@)
}

/// The content of a commit-message request: the instruction, the changed files and the
/// diff.
pub open spec fn commit_request_spec(
    instruction: Seq<char>,
    fs: Seq<StagedFile>,
    diff: Seq<char>,
) -> Seq<char> {
    instruction + FILES_LABEL@ + join_spec(file_lines(fs)) + DIFF_LABEL@ + diff
}

/// Builds the content of a commit-message request from the staged files and their diff,
/// with `instruction` where one is given; with no staged file there is nothing to ask.
pub fn commit_request(diff: &str, staged_files: &[StagedFile], instruction: Option<&str>) -> (r:
    Option<String>)
    ensures
        staged_files@.len() == 0 <==> r is None,
        r matches Some(t) ==> t@ == commit_request_spec(
            match instruction {
                Some(i) => i@,
                None => default_commit_request(),
            },
            staged_files@,
            diff@,
        ),
{
    if staged_files.len() == 0 {
        return None;
    }
    let mut lines: Vec<String> = Vec::new();
    let mut i: usize = 0;
    while i < staged_files.len()
        invariant
            i <= staged_files.len(),
            views(lines@) == file_lines(staged_files@.subrange(0, i as int)),
        decreases staged_files.len() - i,
    {
        let f = &staged_files[i];
        let mut l = f.path.clone();
        l.append(" (");
        l.append(f.status.as_str());
        l.append(")");
        let ghost prev = lines@;
        lines.push(l);
        assert(views(lines@) =~= views(prev).push(l@));
        assert(file_lines(staged_files@.subrange(0, i + 1)) =~= file_lines(
            staged_files@.subrange(0, i as int),
        ).push(l@));
        i += 1;
    }
    assert(staged_files@.subrange(0, staged_files@.len() as int) =~= staged_files@);
    let mut r = match instruction {
        Some(t) => t.to_string(),
        None => DEFAULT_COMMIT_REQUEST.to_string(),
    };
    r.append(FILES_LABEL);
    let files = join_lines(&lines);
    r.append(files.as_str());
    r.append(DIFF_LABEL);
    r.append(diff);
    Some(r)
}

/// The request text used where no instruction for a tag annotation is given.
pub open spec fn default_tag_request() -> Seq<char> {
    DEFAULT_TAG_REQUEST@
}

/// The content of a tag-annotation request: the instruction, the tag and the facts of
/// the tagged commit.
pub open spec fn tag_request_spec(instruction: Seq<char>, tag: Seq<char>, c: CommitInfo) -> Seq<
    char,
> {
    instruction + TAG_NAME_LABEL@ + tag + TAG_MESSAGE_LABEL@ + c.message@ + TAG_AUTHOR_LABEL@
        + c.author@ + TAG_SHA_LABEL@ + short_sha_of(c.sha@) + TAG_DATE_LABEL@ + c.date@
        + TAG_FILES_LABEL@
        + join_spec(views(c.files_changed@))
}

/// Builds the content of a tag-annotation request, with `instruction` where one is given.
pub fn tag_request(tag_name: &str, commit_info: &CommitInfo, instruction: Option<&str>) -> (r:
    String)
    ensures
        r@ == tag_request_spec(
            match instruction {
                Some(i) => i@,
                None => default_tag_request(),
            },
            tag_name@,
            *commit_info,
        ),
{
    let mut r = match instruction {
        Some(t) => t.to_string(),
        None => DEFAULT_TAG_REQUEST.to_string(),
    };
    r.append(TAG_NAME_LABEL);
    r.append(tag_name);
    r.append(TAG_MESSAGE_LABEL);
    r.append(commit_info.message.as_str());
    r.append(TAG_AUTHOR_LABEL);
    r.append(commit_info.author.as_str());
    r.append(TAG_SHA_LABEL);
    let sha = short_sha(commit_info.sha.as_str());
    r.append(sha.as_str());
    r.append(TAG_DATE_LABEL);
    r.append(commit_info.date.as_str());
    r.append(TAG_FILES_LABEL);
    let files = join_lines(&commit_info.files_changed);
    r.append(files.as_str());
    r
}

/// One line per commit: `- <short sha>: <message> (<date>) by <author>`.
pub open spec fn commit_line(c: CommitInfo) -> Seq<char> {
    "- "@ + short_sha_of(c.sha@) + ": "@ + c.message@ + " ("@ + c.date@ + ") by "@ + c.author@
}

/// The content of a changelog request: a request line and the commits, one per line.
pub open spec fn changelog_request_spec(cs: Seq<CommitInfo>) -> Seq<char> {
    CHANGELOG_REQUEST_LEAD@ + join_spec(
        cs.map_values(|c: CommitInfo| commit_line(c)),
    )
}

/// Builds the content of a changelog request for `commits`, in their order.
pub fn changelog_request(commits: &[CommitInfo]) -> (r: String)
    ensures
        r@ == changelog_request_spec(commits@),
{
    let mut lines: Vec<String> = Vec::new();
    let mut i: usize = 0;
    while i < commits.len()
        invariant
            i <= commits.len(),
            views(lines@) == commits@.subrange(0, i as int).map_values(
                |c: CommitInfo| commit_line(c),
            ),
        decreases commits.len() - i,
    {
        let c = &commits[i];
        let mut l = String::new();
        l.append("- ");
        let sha = short_sha(c.sha.as_str());
        l.append(sha.as_str());
        l.append(": ");
        l.append(c.message.as_str());
        l.append(" (");
        l.append(c.date.as_str());
        l.append(") by ");
        l.append(c.author.as_str());
        let ghost prev = lines@;
        lines.push(l);
        assert(views(lines@) =~= views(prev).push(l@));
        assert(commits@.subrange(0, i + 1).map_values(|c: CommitInfo| commit_line(c))
            =~= commits@.subrange(0, i as int).map_values(|c: CommitInfo| commit_line(c)).push(
            l@,
        ));
        i += 1;
    }
    assert(commits@.subrange(0, commits@.len() as int) =~= commits@);
    let mut r = CHANGELOG_REQUEST_LEAD.to_string();
    let body = join_lines(&lines);
    r.append(body.as_str());
    r
}

} // verus!
