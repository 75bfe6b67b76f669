//! Changelog sections: the release label, dates, the templated section, and merging a
//! section into a changelog document.

use vstd::prelude::*;

use crate::config::Config;
use crate::git::CommitInfo;
use crate::llm::{GenerationError, MessageGenerator};
use crate::text::{
    chars_of, contains_spec, contains_text, decimal, has_prefix, has_prefix_spec, is_blank,
    is_blank_spec, join_lines, join_spec, lemma_segments_all_concat, lemma_segments_all_plain,
    lemma_segments_join, lemma_segments_newline_free, lemma_segments_nonempty, lines_of,
    lower_of, lowercase, newline_free, push_decimal, push_padded, segments, segments_all,
    short_sha, short_sha_of, split_lines, split_words, trim, trim_spec, trim_with, views,
    words_of, zero_padded, Strip,
};

verus! {

/// The commit messages of a list of commits.
pub open spec fn messages(cs: Seq<CommitInfo>) -> Seq<Seq<char>> {
    cs.map_values(|c: CommitInfo| c.message@)
}

/// A word that announces a version: it holds "version" or "release".
pub open spec fn announces_version(w: Seq<char>) -> bool {
    contains_spec(w, "version"@) || contains_spec(w, "release"@)
}

/// A word that may name a version: a `v` and at least one more character.
pub open spec fn is_version_token(w: Seq<char>) -> bool {
    w.len() > 1 && w[0] == 'v'
}

/// The version named by the first announcing word, at position `i` or later, that is
/// followed by a version token; the token loses its non-alphanumeric ends.
pub open spec fn version_from(ws: Seq<Seq<char>>, i: int) -> Option<Seq<char>>
    decreases ws.len() - i,
{
    if i < 0 || i + 1 >= ws.len() {
        None
    } else if announces_version(ws[i]) && is_version_token(ws[i + 1]) {
        Some(trim_spec(Strip::NonAlphanumeric, ws[i + 1]))
    } else {
        version_from(ws, i + 1)
    }
}

/// The messages in lower case.
pub open spec fn lowered(ms: Seq<Seq<char>>) -> Seq<Seq<char>> {
    ms.map_values(|m: Seq<char>| lower_of(m))
}

/// The version that a lower-cased message names.
pub open spec fn lowered_version(l: Seq<char>) -> Option<Seq<char>> {
    version_from(words_of(l), 0)
}

/// The version named by the last lower-cased message that names one.
pub open spec fn found_version(ls: Seq<Seq<char>>) -> Option<Seq<char>>
    decreases ls.len(),
{
    if ls.len() == 0 {
        None
    } else {
        match lowered_version(ls.last()) {
            Some(v) => Some(v),
            None => found_version(ls.drop_last()),
        }
    }
}

/// Some lower-cased message starts with `p`.
pub open spec fn some_starts_with(ls: Seq<Seq<char>>, p: Seq<char>) -> bool {
    exists|i: int| 0 <= i < ls.len() && has_prefix_spec(#[trigger] ls[i], p)
}

/// The label for lower-cased messages `ls`: a version that a message names, else
/// `0.1.0` where a message starts with `feat`, else `0.0.1`.
pub open spec fn label_of_lowered(ls: Seq<Seq<char>>) -> Seq<char> {
    match found_version(ls) {
        Some(v) => v,
        None => if some_starts_with(ls, "feat"@) {
            "0.1.0"@
        } else {
            "0.0.1"@
        },
    }
}

/// The label of a release made of commits with messages `ms`, read in lower case. A
/// heuristic: it consults no tags.
pub open spec fn version_label(ms: Seq<Seq<char>>) -> Seq<char> {
    label_of_lowered(lowered(ms))
}

fn is_version_word(w: &str) -> (r: bool)
    ensures
        r == is_version_token(w@),
{
    let cs = chars_of(w);
    cs.len() > 1 && cs[0] == 'v'
}

fn announces(w: &str) -> (r: bool)
    ensures
        r == announces_version(w@),
{
    contains_text(w, "version") || contains_text(w, "release")
}

/// The version that a lower-cased message names, if any.
pub fn version_in_lowered(lower: &str) -> (r: Option<String>)
    ensures
        match r {
            Some(v) => lowered_version(lower@) == Some(v@),
            None => lowered_version(lower@) is None,
        },
{
    let words = split_words(lower);
    let ghost ws = views(words@);
    if words.len() < 2 {
        return None;
    }
    let last = words.len() - 1;
    let mut i: usize = 0;
    while i < last
        invariant
            last + 1 == words.len(),
            ws == views(words@),
            ws == words_of(lower@),
            ws.len() == words.len(),
            i <= words.len(),
            version_from(ws, 0) == version_from(ws, i as int),
        decreases words.len() - i,
    {
        assert(ws[i as int] == words@[i as int]@ && ws[i + 1] == words@[i + 1]@);
        if announces(words[i].as_str()) && is_version_word(words[i + 1].as_str()) {
            return Some(trim_with(Strip::NonAlphanumeric, words[i + 1].as_str()));
        }
        i += 1;
    }
    None
}

/// The version that one commit message names, if any.
pub fn version_in_message(m: &str) -> (r: Option<String>)
    ensures
        match r {
            Some(v) => lowered_version(lower_of(m@)) == Some(v@),
            None => lowered_version(lower_of(m@)) is None,
        },
{
    let lower = lowercase(m);
    version_in_lowered(lower.as_str())
}

/// The label for lower-cased messages; see `label_of_lowered`.
pub fn label_from_lowered(ls: &Vec<String>) -> (r: String)
    ensures
        r@ == label_of_lowered(views(ls@)),
{
    let ghost vs = views(ls@);
    let mut k: usize = ls.len();
    assert(vs.subrange(0, k as int) =~= vs);
    while k > 0
        invariant
            k <= ls.len(),
            vs == views(ls@),
            found_version(vs) == found_version(vs.subrange(0, k as int)),
        decreases k,
    {
        let ghost pre = vs.subrange(0, k as int);
        assert(pre.last() == ls@[k - 1]@);
        assert(pre.drop_last() =~= vs.subrange(0, k - 1));
        match version_in_lowered(ls[k - 1].as_str()) {
            Some(v) => {
                return v;
            },
            None => {},
        }
        k -= 1;
    }
    assert(found_version(vs.subrange(0, 0)) is None);
    let mut i: usize = 0;
    while i < ls.len()
        invariant
            i <= ls.len(),
            vs == views(ls@),
            found_version(vs) is None,
            forall|j: int| 0 <= j < i ==> !has_prefix_spec(#[trigger] vs[j], "feat"@),
        decreases ls.len() - i,
    {
        assert(vs[i as int] == ls@[i as int]@);
        if has_prefix(ls[i].as_str(), "feat") {
            return "0.1.0".to_string();
        }
        i += 1;
    }
    "0.0.1".to_string()
}

/// The label of a release made of `commits`; see `version_label`.
pub fn release_label(commits: &[CommitInfo]) -> (r: String)
    ensures
        r@ == version_label(messages(commits@)),
{
    let mut ls: Vec<String> = Vec::new();
    let mut i: usize = 0;
    while i < commits.len()
        invariant
            i <= commits.len(),
            views(ls@) == lowered(messages(commits@)).subrange(0, i as int),
        decreases commits.len() - i,
    {
        let l = lowercase(commits[i].message.as_str());
        let ghost prev = ls@;
        ls.push(l);
        assert(views(ls@) =~= views(prev).push(l@));
        assert(lowered(messages(commits@)).subrange(0, i + 1) =~= lowered(messages(commits@)).subrange(0, i as int).push(l@));
        i += 1;
    }
    assert(lowered(messages(commits@)).subrange(0, commits@.len() as int) =~= lowered(messages(commits@)));
    label_from_lowered(&ls)
}

/// A calendar day, as the year, the month (1 to 12) and the day of the month (1 to 31).
#[derive(PartialEq, Eq, Structural, Clone, Copy, Debug)]
pub struct CalendarDate {
    pub year: i32,
    pub month: u32,
    pub day: u32,
}

impl CalendarDate {
    pub open spec fn wf(&self) -> bool {
        1 <= self.month <= 12 && 1 <= self.day <= 31
    }
}

/// A year with four digits at least; one outside 0 to 9999 carries its sign.
pub open spec fn year_text(y: int) -> Seq<char> {
    if 0 <= y <= 9999 {
        zero_padded(y as nat, 4)
    } else if y > 9999 {
        seq!['+'] + decimal(y as nat)
    } else {
        seq!['-'] + zero_padded((-y) as nat, 4)
    }
}

/// A date written `YYYY-MM-DD`.
pub open spec fn iso_date(d: CalendarDate) -> Seq<char> {
    year_text(d.year as int) + seq!['-'] + zero_padded(d.month as nat, 2) + seq!['-']
        + zero_padded(d.day as nat, 2)
}

/// Writes a date as `YYYY-MM-DD`.
pub fn format_iso_date(d: &CalendarDate) -> (r: String)
    ensures
        r@ == iso_date(*d),
{
    let mut r = String::new();
    if 0 <= d.year && d.year <= 9999 {
        push_padded(&mut r, d.year as u64, 4);
    } else if d.year > 9999 {
        crate::text::push_char(&mut r, '+');
        push_decimal(&mut r, d.year as u64);
    } else {
        crate::text::push_char(&mut r, '-');
        let a: i64 = -(d.year as i64);
        push_padded(&mut r, a as u64, 4);
    }
    crate::text::push_char(&mut r, '-');
    push_padded(&mut r, d.month as u64, 2);
    crate::text::push_char(&mut r, '-');
    push_padded(&mut r, d.day as u64, 2);
    assert(r@ =~= iso_date(*d));
    r
}


/// A section of a changelog: `## [<version>] - <date>`, a blank line, then the body.
pub open spec fn render_section(version: Seq<char>, date: Seq<char>, body: Seq<char>) -> Seq<char> {
    "## ["@ + version + "] - "@ + date + "\n\n"@ + body
}

pub fn section_text(version: &str, date: &str, body: &str) -> (r: String)
    ensures
        r@ == render_section(version@, date@, body@),
{
    let mut r = String::new();
    r.append("## [");
    r.append(version);
    r.append("] - ");
    r.append(date);
    r.append("\n\n");
    r.append(body);
    r
}

/// The header that a new changelog document starts with.
pub const CHANGELOG_HEADER: &'static str = "# Changelog\n\nAll notable changes to this project will be documented in this file.\n\nThe format is based on [Keep a Changelog](https://keepachangelog.com/en/1.0.0/),\nand this project adheres to [Semantic Versioning](https://semver.org/spec/v2.0.0.html).\n\n";

pub open spec fn standard_header() -> Seq<char> {
    CHANGELOG_HEADER@
}

/// A line that marks a title: it starts with `#`.
pub open spec fn is_title(l: Seq<char>) -> bool {
    l.len() > 0 && l[0] == '#'
}

/// Line `i` is blank and follows a title line: the header ends with it.
pub open spec fn ends_header(ls: Seq<Seq<char>>, i: int) -> bool {
    1 <= i < ls.len() && is_blank_spec(ls[i]) && is_title(ls[i - 1])
}

/// Where the header ends, searching from line `i`: just past the first blank line that
/// follows a title line, or the end of the document.
pub open spec fn boundary_from(ls: Seq<Seq<char>>, i: int) -> int
    decreases ls.len() - i,
{
    if i < 0 || i >= ls.len() {
        ls.len() as int
    } else if ends_header(ls, i) {
        i + 1
    } else {
        boundary_from(ls, i + 1)
    }
}

/// The number of lines in the header block of a document's lines.
pub open spec fn header_end(ls: Seq<Seq<char>>) -> int {
    boundary_from(ls, 1)
}

pub open spec fn has_title(ls: Seq<Seq<char>>) -> bool {
    exists|i: int| 0 <= i < ls.len() && is_title(#[trigger] ls[i])
}

/// The lines of a document after a section is merged in: right after the header where
/// the document has a title line, else in front of everything.
pub open spec fn merged_lines(existing: Seq<char>, section: Seq<char>) -> Seq<Seq<char>> {
    let ls = lines_of(existing);
    if has_title(ls) {
        let h = header_end(ls);
        ls.subrange(0, h) + seq![section] + ls.subrange(h, ls.len() as int)
    } else {
        seq![section] + ls
    }
}

/// The document that results from merging `section` into `existing`: with `append`, the
/// merged lines; without, a new document of the standard header and the section.
pub open spec fn merge_spec(existing: Seq<char>, section: Seq<char>, append: bool) -> Seq<char> {
    if append {
        join_spec(merged_lines(existing, section))
    } else {
        standard_header() + section
    }
}

pub proof fn lemma_boundary_bounds(ls: Seq<Seq<char>>, i: int)
    requires
        0 <= i,
    ensures
        i <= boundary_from(ls, i) <= ls.len() || (i > ls.len() && boundary_from(ls, i) == ls.len()),
        boundary_from(ls, i) <= ls.len(),
    decreases ls.len() - i,
{
    if i < ls.len() && !ends_header(ls, i) {
        lemma_boundary_bounds(ls, i + 1);
    }
}

fn title_line(l: &str) -> (r: bool)
    ensures
        r == is_title(l@),
{
    let cs = chars_of(l);
    cs.len() > 0 && cs[0] == '#'
}

fn any_title(lines: &Vec<String>) -> (r: bool)
    ensures
        r == has_title(views(lines@)),
{
    let ghost ls = views(lines@);
    let mut t: usize = 0;
    while t < lines.len()
        invariant
            ls == views(lines@),
            t <= lines.len(),
            forall|j: int| 0 <= j < t ==> !is_title(#[trigger] ls[j]),
        decreases lines.len() - t,
    {
        assert(ls[t as int] == lines@[t as int]@);
        if title_line(lines[t].as_str()) {
            return true;
        }
        t += 1;
    }
    false
}

fn find_header_end(lines: &Vec<String>) -> (r: usize)
    ensures
        r == header_end(views(lines@)),
{
    let ghost ls = views(lines@);
    let n = lines.len();
    let mut i: usize = 1;
    while i < n
        invariant
            n == lines.len(),
            ls == views(lines@),
            1 <= i,
            header_end(ls) == boundary_from(ls, i as int),
        decreases n - i,
    {
        assert(ls[i as int] == lines@[i as int]@ && ls[i - 1] == lines@[i - 1]@);
        if is_blank(lines[i].as_str()) && title_line(lines[i - 1].as_str()) {
            return i + 1;
        }
        i += 1;
    }
    n
}

/// Merges a section into the text of a changelog document.
pub fn merge_section(existing: &str, section: &str, append: bool) -> (r: String)
    ensures
        r@ == merge_spec(existing@, section@, append),
{
    if !append {
        let mut r = String::new();
        r.append(CHANGELOG_HEADER);
        r.append(section);
        return r;
    }
    let lines = split_lines(existing);
    let ghost ls = views(lines@);
    let n = lines.len();
    let titled = any_title(&lines);
    let h: usize = if titled {
        find_header_end(&lines)
    } else {
        0
    };
    proof {
        lemma_boundary_bounds(ls, 1);
    }
    let mut out: Vec<String> = Vec::new();
    let mut j: usize = 0;
    while j < h
        invariant
            n == lines.len(),
            ls == views(lines@),
            h <= n,
            j <= h,
            views(out@) == ls.subrange(0, j as int),
        decreases h - j,
    {
        assert(ls[j as int] == lines@[j as int]@);
        let ghost prev = out@;
        let line = lines[j].clone();
        out.push(line);
        assert(views(out@) =~= views(prev).push(line@));
        assert(views(out@) =~= ls.subrange(0, j + 1));
        j += 1;
    }
    out.push(section.to_string());
    let ghost front = views(out@);
    while j < n
        invariant
            n == lines.len(),
            ls == views(lines@),
            h <= j <= n,
            front == ls.subrange(0, h as int) + seq![section@],
            views(out@) == front + ls.subrange(h as int, j as int),
        decreases n - j,
    {
        assert(ls[j as int] == lines@[j as int]@);
        let ghost prev = out@;
        let line = lines[j].clone();
        out.push(line);
        assert(views(out@) =~= views(prev).push(line@));
        assert(views(out@) =~= front + ls.subrange(h as int, j + 1));
        j += 1;
    }
    assert(views(out@) =~= merged_lines(existing@, section@));
    join_lines(&out)
}


/// Merging in append mode loses no line of the old document: the merged lines are the
/// old lines, in their order, with the section inserted once, so each old line occurs in
/// them at least as often as before.
pub proof fn lemma_merge_keeps_lines(existing: Seq<char>, section: Seq<char>)
    ensures
        lines_of(existing).to_multiset().subset_of(merged_lines(existing, section).to_multiset()),
        merged_lines(existing, section).len() == lines_of(existing).len() + 1,
        exists|h: int|
            0 <= h <= lines_of(existing).len() && #[trigger] merged_lines(existing, section) == (
            lines_of(existing).subrange(0, h) + seq![section] + lines_of(existing).subrange(
                h,
                lines_of(existing).len() as int,
            )),
        merge_spec(existing, section, true) == join_spec(merged_lines(existing, section)),
{
    broadcast use vstd::seq_lib::lemma_multiset_commutative;
    broadcast use vstd::multiset::group_multiset_axioms;

    let ls = lines_of(existing);
    let m = merged_lines(existing, section);
    lemma_boundary_bounds(ls, 1);
    let h = if has_title(ls) {
        header_end(ls)
    } else {
        0
    };
    let a = ls.subrange(0, h);
    let b = ls.subrange(h, ls.len() as int);
    assert(ls =~= a + b);
    assert(m =~= a + seq![section] + b);
    assert(m.to_multiset() =~= a.to_multiset().add(seq![section].to_multiset()).add(
        b.to_multiset(),
    ));
    assert(ls.to_multiset() =~= a.to_multiset().add(b.to_multiset()));
}

/// Merging in append mode loses no line of the old text. The pieces of the merged text
/// between newlines are the old lines with the section's own lines inserted once among
/// them, so each non-empty old line is a line of the merged text at least as often as it
/// was a line of the old one.
pub proof fn lemma_merge_keeps_text_lines(existing: Seq<char>, section: Seq<char>)
    ensures
        exists|h: int|
            0 <= h <= lines_of(existing).len() && #[trigger] segments(
                merge_spec(existing, section, true),
            ) == lines_of(existing).subrange(0, h) + segments(section) + lines_of(
                existing,
            ).subrange(h, lines_of(existing).len() as int),
        forall|l: Seq<char>|
            l.len() > 0 ==> lines_of(existing).to_multiset().count(l) <= #[trigger] lines_of(
                merge_spec(existing, section, true),
            ).to_multiset().count(l),
{
    broadcast use vstd::seq_lib::lemma_multiset_commutative;
    broadcast use vstd::multiset::group_multiset_axioms;

    let ls = lines_of(existing);
    let out = merge_spec(existing, section, true);
    lemma_boundary_bounds(ls, 1);
    let h = if has_title(ls) {
        header_end(ls)
    } else {
        0
    };
    let a = ls.subrange(0, h);
    let b = ls.subrange(h, ls.len() as int);
    let m = a + seq![section] + b;
    assert(ls =~= a + b);
    assert(merged_lines(existing, section) =~= m);
    lemma_segments_join(m);
    lemma_segments_newline_free(existing);
    lemma_segments_nonempty(existing);
    let segs = segments(existing);
    assert(newline_free(a) && newline_free(b)) by {
        assert forall|i: int, j: int| 0 <= i < a.len() && 0 <= j < a[i].len() implies #[trigger] a[i][j]
            != '\n' by {
            assert(a[i] == segs[i]);
            assert(segs[i][j] != '\n');
        }
        assert forall|i: int, j: int| 0 <= i < b.len() && 0 <= j < b[i].len() implies #[trigger] b[i][j]
            != '\n' by {
            assert(b[i] == segs[h + i]);
            assert(segs[h + i][j] != '\n');
        }
    }
    lemma_segments_all_plain(a);
    lemma_segments_all_plain(b);
    let front = a + seq![section];
    if a.len() == 0 {
        assert(front =~= seq![section]);
    } else {
        lemma_segments_all_concat(a, seq![section]);
    }
    assert(segments_all(front) == a + segments(section));
    lemma_segments_all_concat(front, b);
    assert(front + b =~= m);
    let so = segments(out);
    assert(so == a + segments(section) + b);
    assert(so.to_multiset() =~= a.to_multiset().add(segments(section).to_multiset()).add(
        b.to_multiset(),
    ));
    assert(ls.to_multiset() =~= a.to_multiset().add(b.to_multiset()));
    lemma_segments_nonempty(out);
    assert forall|l: Seq<char>| l.len() > 0 implies ls.to_multiset().count(l) <= #[trigger] lines_of(
        out,
    ).to_multiset().count(l) by {
        assert(ls.to_multiset().count(l) <= so.to_multiset().count(l));
        if so.last().len() == 0 {
            so.drop_last().to_multiset_ensures();
            assert(so =~= so.drop_last().push(so.last()));
            assert(lines_of(out) == so.drop_last());
            assert(so.to_multiset().count(l) == so.drop_last().to_multiset().count(l));
        } else {
            assert(lines_of(out) == so);
        }
    }
}

/// The group of a commit in a templated changelog.
#[derive(PartialEq, Eq, Structural, Clone, Copy, Debug)]
pub enum Category {
    Added,
    Fixed,
    Documentation,
    Other,
}

/// The group of a commit by the start of its trimmed, lower-cased message `t`.
pub open spec fn category_of_lowered(t: Seq<char>) -> Category {
    if has_prefix_spec(t, "feat"@) {
        Category::Added
    } else if has_prefix_spec(t, "fix"@) {
        Category::Fixed
    } else if has_prefix_spec(t, "docs"@) {
        Category::Documentation
    } else {
        Category::Other
    }
}

/// The group of a commit with message `m`.
pub open spec fn category_of(m: Seq<char>) -> Category {
    category_of_lowered(lower_of(trim_spec(Strip::Space, m)))
}

/// The group for a trimmed, lower-cased message.
pub fn category_of_text(t: &str) -> (r: Category)
    ensures
        r == category_of_lowered(t@),
{
    if has_prefix(t, "feat") {
        Category::Added
    } else if has_prefix(t, "fix") {
        Category::Fixed
    } else if has_prefix(t, "docs") {
        Category::Documentation
    } else {
        Category::Other
    }
}

fn category(m: &str) -> (r: Category)
    ensures
        r == category_of(m@),
{
    let t = trim(m);
    let lower = lowercase(t.as_str());
    category_of_text(lower.as_str())
}

/// One line of a templated changelog: `- <short sha> (<message>) - <author>`.
pub open spec fn entry_of(c: CommitInfo) -> Seq<char> {
    "- "@ + short_sha_of(c.sha@) + " ("@ + trim_spec(Strip::Space, c.message@) + ") - "@ + c.author@
}

fn entry_text(c: &CommitInfo) -> (r: String)
    ensures
        r@ == entry_of(*c),
{
    let mut r = String::new();
    r.append("- ");
    let sha = short_sha(c.sha.as_str());
    r.append(sha.as_str());
    r.append(" (");
    let m = trim(c.message.as_str());
    r.append(m.as_str());
    r.append(") - ");
    r.append(c.author.as_str());
    r
}

/// The lines of the commits of group `k`, in the order of the commits.
pub open spec fn entries(cs: Seq<CommitInfo>, k: Category) -> Seq<Seq<char>>
    decreases cs.len(),
{
    if cs.len() == 0 {
        Seq::empty()
    } else {
        let e = entries(cs.drop_last(), k);
        if category_of(cs.last().message@) == k {
            e.push(entry_of(cs.last()))
        } else {
            e
        }
    }
}

/// A titled block of lines, or nothing where there are no lines.
pub open spec fn block(title: Seq<char>, es: Seq<Seq<char>>) -> Seq<char> {
    if es.len() == 0 {
        Seq::empty()
    } else {
        "### "@ + title + "\n\n"@ + join_spec(es) + "\n\n"@
    }
}

/// The body of a templated changelog section: the commits grouped as added, fixed,
/// documentation and other changes.
pub open spec fn default_body(cs: Seq<CommitInfo>) -> Seq<char> {
    block("Added"@, entries(cs, Category::Added)) + block("Fixed"@, entries(cs, Category::Fixed))
        + block("Documentation"@, entries(cs, Category::Documentation)) + block(
        "Other Changes"@,
        entries(cs, Category::Other),
    )
}

/// A templated changelog section for `cs`, dated `date`.
pub open spec fn default_changelog_text(cs: Seq<CommitInfo>, date: CalendarDate) -> Seq<char> {
    render_section(version_label(messages(cs)), iso_date(date), default_body(cs))
}

fn append_block(r: &mut String, title: &str, es: &Vec<String>)
    ensures
        final(r)@ == old(r)@ + block(title@, views(es@)),
{
    if es.len() > 0 {
        r.append("### ");
        r.append(title);
        r.append("\n\n");
        let joined = join_lines(es);
        r.append(joined.as_str());
        r.append("\n\n");
    }
}

/// Builds the templated changelog section for `commits`, dated `date`.
pub fn default_changelog_on(commits: &[CommitInfo], date: &CalendarDate) -> (r: String)
    ensures
        r@ == default_changelog_text(commits@, *date),
{
    let mut added: Vec<String> = Vec::new();
    let mut fixed: Vec<String> = Vec::new();
    let mut docs: Vec<String> = Vec::new();
    let mut others: Vec<String> = Vec::new();
    let mut i: usize = 0;
    assert(commits@.subrange(0, 0) =~= Seq::<CommitInfo>::empty());
    while i < commits.len()
        invariant
            i <= commits.len(),
            views(added@) == entries(commits@.subrange(0, i as int), Category::Added),
            views(fixed@) == entries(commits@.subrange(0, i as int), Category::Fixed),
            views(docs@) == entries(commits@.subrange(0, i as int), Category::Documentation),
            views(others@) == entries(commits@.subrange(0, i as int), Category::Other),
        decreases commits.len() - i,
    {
        let ghost next = commits@.subrange(0, i + 1);
        assert(next.drop_last() =~= commits@.subrange(0, i as int));
        assert(next.last() == commits@[i as int]);
        let e = entry_text(&commits[i]);
        match category(commits[i].message.as_str()) {
            Category::Added => {
                let ghost prev = added@;
                added.push(e);
                assert(views(added@) =~= views(prev).push(e@));
            },
            Category::Fixed => {
                let ghost prev = fixed@;
                fixed.push(e);
                assert(views(fixed@) =~= views(prev).push(e@));
            },
            Category::Documentation => {
                let ghost prev = docs@;
                docs.push(e);
                assert(views(docs@) =~= views(prev).push(e@));
            },
            Category::Other => {
                let ghost prev = others@;
                others.push(e);
                assert(views(others@) =~= views(prev).push(e@));
            },
        }
        i += 1;
    }
    assert(commits@.subrange(0, commits@.len() as int) =~= commits@);
    let mut body = String::new();
    append_block(&mut body, "Added", &added);
    append_block(&mut body, "Fixed", &fixed);
    append_block(&mut body, "Documentation", &docs);
    append_block(&mut body, "Other Changes", &others);
    let version = release_label(commits);
    let d = format_iso_date(date);
    let r = section_text(version.as_str(), d.as_str(), body.as_str());
    assert(body@ =~= default_body(commits@));
    r
}


/// The label of a release depends on its commit messages alone: two lists of commits
/// with the same messages, in the same order, get the same label.
pub proof fn lemma_version_label_deterministic(a: Seq<CommitInfo>, b: Seq<CommitInfo>)
    requires
        messages(a) == messages(b),
    ensures
        version_label(messages(a)) == version_label(messages(b)),
{
}

/// Writes changelog sections and merges them into changelog documents.
pub struct ChangelogGenerator {
    pub llm: MessageGenerator,
}

impl ChangelogGenerator {
    /// A generator whose summaries come from the service in `config`.
    pub fn new(config: &Config) -> (r: Result<Self, GenerationError>)
        ensures
            r is Ok <==> (crate::llm::is_endpoint(config@.base_url) && config@.api_key.len() > 0
                && config@.model.len() > 0),
            r matches Ok(g) ==> g.llm.base_url@ == config@.base_url && g.llm.api_key@
                == config@.api_key && g.llm.model@ == config@.model,
            r is Err ==> r matches Err(GenerationError::ConfigurationError(_)),
    {
        match MessageGenerator::new(config) {
            Ok(llm) => Ok(ChangelogGenerator { llm }),
            Err(e) => Err(e),
        }
    }

    /// The label of the release made of `commits`; see `version_label`.
    pub fn detect_version_from_commits(&self, commits: &[CommitInfo]) -> (r: String)
        ensures
            r@ == version_label(messages(commits@)),
    {
        release_label(commits)
    }

    /// The section for `commits`, dated `date`, with a summary written by the service.
    pub fn generate_changelog(&self, summary: &str, commits: &[CommitInfo], date: &CalendarDate) -> (r:
        String)
        ensures
            r@ == render_section(version_label(messages(commits@)), iso_date(*date), summary@),
    {
        let version = release_label(commits);
        let d = format_iso_date(date);
        section_text(version.as_str(), d.as_str(), summary)
    }

    /// The templated section for `commits`, dated `date`; it needs no service.
    pub fn generate_default_changelog(&self, commits: &[CommitInfo], date: &CalendarDate) -> (r:
        String)
        ensures
            r@ == default_changelog_text(commits@, *date),
    {
        default_changelog_on(commits, date)
    }

    /// The text that a changelog file holding `existing` is to hold once `content` is
    /// written to it: merged after its header with `append`, else in a new document.
    pub fn write_changelog(&self, content: &str, existing: &str, append: bool) -> (r: String)
        ensures
            r@ == merge_spec(existing@, content@, append),
    {
        merge_section(existing, content, append)
    }
}

} // verus!
