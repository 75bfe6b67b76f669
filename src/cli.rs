//! The operations that the command line offers, as plain values.

use vstd::prelude::*;

verus! {

/// The command line: one of the three operations.
pub struct Cli {
    pub command: Commands,
}

/// The operations: write a commit message, a tag annotation or a changelog section.
pub enum Commands {
    Commit(CommitArgs),
    Tag(TagArgs),
    Changelog(ChangelogArgs),
}

/// Options of the commit operation.
pub struct CommitArgs {
    /// Record the commit with the generated message.
    pub commit: bool,
    /// An instruction that replaces the default one.
    pub prompt: Option<String>,
    /// The longest commit message wished for; advisory.
    pub max_length: usize,
}

/// Options of the tag operation.
pub struct TagArgs {
    /// The name of the tag.
    pub name: String,
    /// Create the annotated tag with the generated message.
    pub annotated: bool,
    /// An instruction that replaces the default one.
    pub prompt: Option<String>,
    /// What the tag is to point at.
    pub reference: String,
}

/// Options of the changelog operation.
pub struct ChangelogArgs {
    /// How many recent commits to cover.
    pub commits: usize,
    /// The changelog file to write, if any.
    pub output: Option<String>,
    /// Merge into the file rather than replace it.
    pub append: bool,
    /// A range `start..end` to cover instead of the recent commits.
    pub range: Option<String>,
}

/// The commits that a changelog covers.
pub enum CommitSelection {
    Recent(usize),
    Range(String),
}

impl ChangelogArgs {
    /// The commits to cover: the range where one is given, else the recent commits.
    pub fn selection(&self) -> (r: CommitSelection)
        ensures
            match self.range {
                Some(range) => r matches CommitSelection::Range(s) && s@ == range@,
                None => r == CommitSelection::Recent(self.commits),
            },
    {
        match &self.range {
            Some(range) => CommitSelection::Range(range.clone()),
            None => CommitSelection::Recent(self.commits),
        }
    }
}

} // verus!
