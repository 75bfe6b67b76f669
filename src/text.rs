//! Text primitives over characters: lines, words, trimming, prefixes and numbers, each
//! with the mathematical statement of what it computes.

use vstd::prelude::*;

verus! {

/// The first `min(8, len)` characters of a commit id.
pub open spec fn short_sha_of(sha: Seq<char>) -> Seq<char> {
    if sha.len() <= 8 {
        sha
    } else {
        sha.subrange(0, 8)
    }
}

/// A commit id of eight characters or fewer is shown whole, never padded; a longer one
/// by its first eight characters.
pub proof fn lemma_short_sha(sha: Seq<char>)
    ensures
        sha.len() <= 8 ==> short_sha_of(sha) == sha,
        sha.len() > 8 ==> short_sha_of(sha).len() == 8 && short_sha_of(sha) == sha.subrange(0, 8),
{
}

/// The characters of a string, in order.
pub fn chars_of(s: &str) -> (r: Vec<char>)
    ensures
        r@ == s@,
{
    broadcast use vstd::string::group_string_axioms;
    let mut r: Vec<char> = Vec::new();
    for c in it: s.chars()
        invariant
            r@ == it.seq().subrange(0, it.index() as int),
            it.seq() == s@,
    {
        r.push(c);
    }
    r
}

/// Relies on `String::push`: appends one character.
#[verifier::external_body]
pub(crate) fn push_char(s: &mut String, c: char)
    ensures
        final(s)@ == old(s)@.push(c),
{
    s.push(c)
}

/// The characters `cs[lo..hi]` as a string.
pub fn string_of(cs: &Vec<char>, lo: usize, hi: usize) -> (r: String)
    requires
        lo <= hi <= cs.len(),
    ensures
        r@ == cs@.subrange(lo as int, hi as int),
{
    let mut r = String::new();
    let mut i: usize = lo;
    while i < hi
        invariant
            lo <= i <= hi <= cs.len(),
            r@ == cs@.subrange(lo as int, i as int),
        decreases hi - i,
    {
        push_char(&mut r, cs[i]);
        assert(cs@.subrange(lo as int, i + 1) == cs@.subrange(lo as int, i as int).push(cs@[i as int]));
        i += 1;
    }
    r
}

/// Abbreviates a commit id to at most eight characters, never past its end.
pub fn short_sha(sha: &str) -> (r: String)
    ensures
        r@ == short_sha_of(sha@),
{
    let cs = chars_of(sha);
    if cs.len() <= 8 {
        string_of(&cs, 0, cs.len())
    } else {
        string_of(&cs, 0, 8)
    }
}


/// The characters with the Unicode `White_Space` property.
pub open spec fn is_space_char(c: char) -> bool {
    ('\u{9}' <= c && c <= '\u{d}') || c == ' ' || c == '\u{85}' || c == '\u{a0}'
        || c == '\u{1680}' || ('\u{2000}' <= c && c <= '\u{200a}') || c == '\u{2028}'
        || c == '\u{2029}' || c == '\u{202f}' || c == '\u{205f}' || c == '\u{3000}'
}

/// Whether `c` is white space in the Unicode sense.
pub fn is_space(c: char) -> (r: bool)
    ensures
        r == is_space_char(c),
{
    ('\u{9}' <= c && c <= '\u{d}') || c == ' ' || c == '\u{85}' || c == '\u{a0}'
        || c == '\u{1680}' || ('\u{2000}' <= c && c <= '\u{200a}') || c == '\u{2028}'
        || c == '\u{2029}' || c == '\u{202f}' || c == '\u{205f}' || c == '\u{3000}'
}

/// A line holding nothing but white space.
pub open spec fn is_blank_spec(l: Seq<char>) -> bool {
    forall|i: int| 0 <= i < l.len() ==> is_space_char(#[trigger] l[i])
}

pub fn is_blank(l: &str) -> (r: bool)
    ensures
        r == is_blank_spec(l@),
{
    let cs = chars_of(l);
    let mut i: usize = 0;
    while i < cs.len()
        invariant
            i <= cs.len(),
            cs@ == l@,
            forall|j: int| 0 <= j < i ==> is_space_char(#[trigger] l@[j]),
        decreases cs.len() - i,
    {
        if !is_space(cs[i]) {
            return false;
        }
        i += 1;
    }
    true
}

/// `p` is a prefix of `s`.
pub open spec fn has_prefix_spec(s: Seq<char>, p: Seq<char>) -> bool {
    p.len() <= s.len() && s.subrange(0, p.len() as int) == p
}

pub fn has_prefix(s: &str, p: &str) -> (r: bool)
    ensures
        r == has_prefix_spec(s@, p@),
{
    let cs = chars_of(s);
    let ps = chars_of(p);
    if ps.len() > cs.len() {
        return false;
    }
    let mut i: usize = 0;
    while i < ps.len()
        invariant
            ps.len() <= cs.len(),
            i <= ps.len(),
            cs@ == s@,
            ps@ == p@,
            forall|j: int| 0 <= j < i ==> cs@[j] == ps@[j],
        decreases ps.len() - i,
    {
        if cs[i] != ps[i] {
            assert(s@.subrange(0, p@.len() as int)[i as int] != p@[i as int]);
            return false;
        }
        i += 1;
    }
    assert(s@.subrange(0, p@.len() as int) =~= p@);
    true
}

/// `p` occurs somewhere in `s`.
pub open spec fn contains_spec(s: Seq<char>, p: Seq<char>) -> bool {
    exists|i: int| 0 <= i && i + p.len() <= s.len() && #[trigger] s.subrange(i, i + p.len()) == p
}

/// `p` occurs in `cs` at position `at`.
fn occurs_at(cs: &Vec<char>, ps: &Vec<char>, at: usize) -> (r: bool)
    requires
        at + ps.len() <= cs.len(),
    ensures
        r == (cs@.subrange(at as int, at + ps.len()) == ps@),
{
    let mut j: usize = 0;
    while j < ps.len()
        invariant
            at + ps.len() <= cs.len(),
            j <= ps.len(),
            forall|k: int| 0 <= k < j ==> cs@[at + k] == ps@[k],
        decreases ps.len() - j,
    {
        if cs[at + j] != ps[j] {
            assert(cs@.subrange(at as int, at + ps.len())[j as int] != ps@[j as int]);
            return false;
        }
        j += 1;
    }
    assert(cs@.subrange(at as int, at + ps.len()) =~= ps@);
    true
}

pub fn contains_text(s: &str, p: &str) -> (r: bool)
    ensures
        r == contains_spec(s@, p@),
{
    let cs = chars_of(s);
    let ps = chars_of(p);
    if ps.len() > cs.len() {
        return false;
    }
    let last = cs.len() - ps.len();
    let mut i: usize = 0;
    while i <= last
        invariant
            last == cs.len() - ps.len(),
            i <= last + 1,
            cs@ == s@,
            ps@ == p@,
            forall|j: int| 0 <= j < i ==> #[trigger] s@.subrange(j, j + p@.len()) != p@,
        decreases last - i,
    {
        if occurs_at(&cs, &ps, i) {
            return true;
        }
        if i == last {
            assert forall|j: int| 0 <= j && j + p@.len() <= s@.len() implies #[trigger] s@.subrange(
                j,
                j + p@.len(),
            ) != p@ by {
                assert(j <= i);
            }
            return false;
        }
        i += 1;
    }
    false
}


/// The string views of a sequence of strings.
pub open spec fn views(v: Seq<String>) -> Seq<Seq<char>> {
    v.map_values(|l: String| l@)
}

/// The pieces of `s` between its newline characters; always at least one.
pub open spec fn segments(s: Seq<char>) -> Seq<Seq<char>>
    decreases s.len(),
{
    if s.len() == 0 {
        seq![Seq::empty()]
    } else {
        let init = segments(s.drop_last());
        if s.last() == '\n' {
            init.push(Seq::empty())
        } else {
            init.update(init.len() - 1, init.last().push(s.last()))
        }
    }
}

/// The lines of a text: its pieces between newlines, where a final newline ends the last
/// line rather than starting an empty one.
pub open spec fn lines_of(s: Seq<char>) -> Seq<Seq<char>> {
    let segs = segments(s);
    if segs.last().len() == 0 {
        segs.drop_last()
    } else {
        segs
    }
}

pub proof fn lemma_segments_nonempty(s: Seq<char>)
    ensures
        segments(s).len() >= 1,
    decreases s.len(),
{
    if s.len() > 0 {
        lemma_segments_nonempty(s.drop_last());
    }
}

/// No element holds a newline.
pub open spec fn newline_free(xs: Seq<Seq<char>>) -> bool {
    forall|i: int, j: int| 0 <= i < xs.len() && 0 <= j < xs[i].len() ==> #[trigger] xs[i][j] != '\n'
}

/// The pieces of each string between newlines, one string after another.
pub open spec fn segments_all(xs: Seq<Seq<char>>) -> Seq<Seq<char>>
    decreases xs.len(),
{
    if xs.len() <= 1 {
        if xs.len() == 0 {
            Seq::empty()
        } else {
            segments(xs[0])
        }
    } else {
        segments_all(xs.drop_last()) + segments(xs.last())
    }
}

pub proof fn lemma_segments_newline_free(s: Seq<char>)
    ensures
        newline_free(segments(s)),
    decreases s.len(),
{
    if s.len() > 0 {
        lemma_segments_newline_free(s.drop_last());
        lemma_segments_nonempty(s.drop_last());
        let init = segments(s.drop_last());
        if s.last() != '\n' {
            let last = init.last().push(s.last());
            assert forall|i: int, j: int|
                0 <= i < segments(s).len() && 0 <= j < segments(s)[i].len() implies #[trigger] segments(
                s,
            )[i][j] != '\n' by {
                if i == init.len() - 1 {
                    if j < init.last().len() {
                        assert(segments(s)[i][j] == init[i][j]);
                    }
                } else {
                    assert(segments(s)[i] == init[i]);
                }
            }
        } else {
            assert forall|i: int, j: int|
                0 <= i < segments(s).len() && 0 <= j < segments(s)[i].len() implies #[trigger] segments(
                s,
            )[i][j] != '\n' by {
                assert(segments(s)[i] == init.push(Seq::<char>::empty())[i]);
            }
        }
    }
}

/// A text without newlines is one piece.
pub proof fn lemma_segments_single(s: Seq<char>)
    requires
        forall|j: int| 0 <= j < s.len() ==> s[j] != '\n',
    ensures
        segments(s) == seq![s],
    decreases s.len(),
{
    if s.len() > 0 {
        lemma_segments_single(s.drop_last());
        assert(s[s.len() - 1] != '\n');
        assert(s.drop_last().push(s.last()) =~= s);
        assert(segments(s) =~= seq![s]);
    } else {
        assert(s =~= Seq::<char>::empty());
    }
}

/// Splitting at a newline splits the pieces there.
pub proof fn lemma_segments_split(x: Seq<char>, y: Seq<char>)
    ensures
        segments(x + seq!['\n'] + y) == segments(x) + segments(y),
    decreases y.len(),
{
    let z = x + seq!['\n'] + y;
    if y.len() == 0 {
        assert(z.drop_last() =~= x);
        assert(segments(z) =~= segments(x) + segments(y));
    } else {
        let y0 = y.drop_last();
        lemma_segments_split(x, y0);
        assert(z.drop_last() =~= x + seq!['\n'] + y0);
        lemma_segments_nonempty(y0);
        lemma_segments_nonempty(x);
        if y.last() == '\n' {
            assert(segments(z) =~= segments(x) + segments(y));
        } else {
            let a = segments(x);
            let b = segments(y0);
            assert((a + b).update(a.len() + b.len() - 1, (a + b).last().push(y.last())) =~= a + b.update(
                b.len() - 1,
                b.last().push(y.last()),
            ));
            assert(segments(z) =~= segments(x) + segments(y));
        }
    }
}

/// The pieces of joined strings are the pieces of each.
pub proof fn lemma_segments_join(xs: Seq<Seq<char>>)
    requires
        xs.len() >= 1,
    ensures
        segments(join_spec(xs)) == segments_all(xs),
    decreases xs.len(),
{
    if xs.len() > 1 {
        lemma_segments_join(xs.drop_last());
        lemma_segments_split(join_spec(xs.drop_last()), xs.last());
    }
}

/// Pieces of strings without newlines are the strings themselves.
pub proof fn lemma_segments_all_plain(xs: Seq<Seq<char>>)
    requires
        newline_free(xs),
    ensures
        segments_all(xs) == xs,
    decreases xs.len(),
{
    if xs.len() >= 1 {
        assert(newline_free(xs.drop_last())) by {
            assert forall|i: int, j: int|
                0 <= i < xs.drop_last().len() && 0 <= j < xs.drop_last()[i].len() implies #[trigger] xs.drop_last()[i][j]
                != '\n' by {
                assert(xs.drop_last()[i] == xs[i]);
            }
        }
        lemma_segments_all_plain(xs.drop_last());
        let l = xs.last();
        assert forall|j: int| 0 <= j < l.len() implies l[j] != '\n' by {
            assert(xs[xs.len() - 1][j] != '\n');
        }
        lemma_segments_single(l);
        if xs.len() == 1 {
            assert(xs =~= seq![xs[0]]);
        } else {
            assert(xs.drop_last() + seq![l] =~= xs);
        }
    }
}

/// The pieces of two runs of strings, one after the other.
pub proof fn lemma_segments_all_concat(p: Seq<Seq<char>>, q: Seq<Seq<char>>)
    requires
        p.len() >= 1,
    ensures
        segments_all(p + q) == segments_all(p) + segments_all(q),
    decreases q.len(),
{
    if q.len() == 0 {
        assert(p + q =~= p);
    } else {
        lemma_segments_all_concat(p, q.drop_last());
        assert((p + q).drop_last() =~= p + q.drop_last());
        assert((p + q).last() == q.last());
        if q.len() == 1 {
            assert(q.drop_last() =~= Seq::<Seq<char>>::empty());
            assert(p + q.drop_last() =~= p);
            assert(segments_all(q) == segments(q[0]));
        }
    }
}

/// Splits a text into its lines.
pub fn split_lines(s: &str) -> (r: Vec<String>)
    ensures
        views(r@) == lines_of(s@),
{
    let cs = chars_of(s);
    let mut lines: Vec<String> = Vec::new();
    let mut cur = String::new();
    let mut i: usize = 0;
    assert(cs@.subrange(0, 0) =~= Seq::<char>::empty());
    assert(views(lines@).push(cur@) =~= segments(Seq::<char>::empty()));
    while i < cs.len()
        invariant
            i <= cs.len(),
            cs@ == s@,
            views(lines@).push(cur@) == segments(cs@.subrange(0, i as int)),
        decreases cs.len() - i,
    {
        let c = cs[i];
        let ghost pre = cs@.subrange(0, i as int);
        let ghost next = cs@.subrange(0, i + 1);
        assert(next.drop_last() =~= pre);
        proof {
            lemma_segments_nonempty(pre);
        }
        if c == '\n' {
            lines.push(cur);
            cur = String::new();
            assert(views(lines@).push(cur@) =~= segments(next));
        } else {
            push_char(&mut cur, c);
            assert(views(lines@).push(cur@) =~= segments(next));
        }
        i += 1;
    }
    assert(cs@.subrange(0, cs@.len() as int) =~= cs@);
    if cur.unicode_len() > 0 {
        lines.push(cur);
        assert(views(lines@) =~= lines_of(s@));
    } else {
        assert(views(lines@) =~= lines_of(s@));
    }
    lines
}

/// The strings joined with a newline between each two.
pub open spec fn join_spec(xs: Seq<Seq<char>>) -> Seq<char>
    decreases xs.len(),
{
    if xs.len() == 0 {
        Seq::empty()
    } else if xs.len() == 1 {
        xs[0]
    } else {
        join_spec(xs.drop_last()) + seq!['\n'] + xs.last()
    }
}

pub fn join_lines(xs: &Vec<String>) -> (r: String)
    ensures
        r@ == join_spec(views(xs@)),
{
    if xs.len() == 0 {
        return String::new();
    }
    let mut r = xs[0].clone();
    let mut i: usize = 1;
    assert(views(xs@).subrange(0, 1) =~= seq![xs@[0]@]);
    while i < xs.len()
        invariant
            1 <= i <= xs.len(),
            r@ == join_spec(views(xs@).subrange(0, i as int)),
        decreases xs.len() - i,
    {
        proof {
            reveal_strlit("\n");
        }
        r.append("\n");
        r.append(xs[i].as_str());
        assert(views(xs@).subrange(0, i + 1).drop_last() =~= views(xs@).subrange(0, i as int));
        i += 1;
    }
    assert(views(xs@).subrange(0, xs@.len() as int) =~= views(xs@));
    r
}

/// Words split off from a text at white space: the words finished so far, and the word
/// under way.
pub open spec fn word_split(s: Seq<char>) -> (Seq<Seq<char>>, Seq<char>)
    decreases s.len(),
{
    if s.len() == 0 {
        (Seq::empty(), Seq::empty())
    } else {
        let (ws, cur) = word_split(s.drop_last());
        if is_space_char(s.last()) {
            if cur.len() > 0 {
                (ws.push(cur), Seq::empty())
            } else {
                (ws, Seq::empty())
            }
        } else {
            (ws, cur.push(s.last()))
        }
    }
}

/// The maximal runs of non-white-space characters of a text, in order.
pub open spec fn words_of(s: Seq<char>) -> Seq<Seq<char>> {
    let (ws, cur) = word_split(s);
    if cur.len() > 0 {
        ws.push(cur)
    } else {
        ws
    }
}

/// Splits a text into its words.
pub fn split_words(s: &str) -> (r: Vec<String>)
    ensures
        views(r@) == words_of(s@),
{
    let cs = chars_of(s);
    let mut words: Vec<String> = Vec::new();
    let mut cur = String::new();
    let mut i: usize = 0;
    assert(cs@.subrange(0, 0) =~= Seq::<char>::empty());
    while i < cs.len()
        invariant
            i <= cs.len(),
            cs@ == s@,
            (views(words@), cur@) == word_split(cs@.subrange(0, i as int)),
        decreases cs.len() - i,
    {
        let c = cs[i];
        let ghost next = cs@.subrange(0, i + 1);
        assert(next.drop_last() =~= cs@.subrange(0, i as int));
        if is_space(c) {
            if cur.unicode_len() > 0 {
                words.push(cur);
                assert(views(words@) =~= word_split(next).0);
            }
            cur = String::new();
        } else {
            push_char(&mut cur, c);
        }
        i += 1;
    }
    assert(cs@.subrange(0, cs@.len() as int) =~= cs@);
    if cur.unicode_len() > 0 {
        words.push(cur);
        assert(views(words@) =~= words_of(s@));
    }
    words
}

/// The two kinds of characters that trimming strips from the ends of a text.
pub enum Strip {
    Space,
    NonAlphanumeric,
}

/// Relies on `char::is_alphanumeric`: Unicode's Alphabetic or Numeric property.
pub uninterp spec fn alphanumeric_char(c: char) -> bool;

/// Relies on `char::is_alphanumeric`, whose answer depends on the character alone.
#[verifier::external_body]
pub(crate) fn is_alphanumeric(c: char) -> (r: bool)
    ensures
        r == alphanumeric_char(c),
{
    c.is_alphanumeric()
}

pub open spec fn strips(k: Strip, c: char) -> bool {
    match k {
        Strip::Space => is_space_char(c),
        Strip::NonAlphanumeric => !alphanumeric_char(c),
    }
}

fn strips_exec(k: &Strip, c: char) -> (r: bool)
    ensures
        r == strips(*k, c),
{
    match k {
        Strip::Space => is_space(c),
        Strip::NonAlphanumeric => !is_alphanumeric(c),
    }
}

pub open spec fn trim_start_spec(k: Strip, s: Seq<char>) -> Seq<char>
    decreases s.len(),
{
    if s.len() > 0 && strips(k, s[0]) {
        trim_start_spec(k, s.drop_first())
    } else {
        s
    }
}

pub open spec fn trim_end_spec(k: Strip, s: Seq<char>) -> Seq<char>
    decreases s.len(),
{
    if s.len() > 0 && strips(k, s.last()) {
        trim_end_spec(k, s.drop_last())
    } else {
        s
    }
}

/// A text without the characters of kind `k` at either end.
pub open spec fn trim_spec(k: Strip, s: Seq<char>) -> Seq<char> {
    trim_end_spec(k, trim_start_spec(k, s))
}

/// Strips the characters of kind `k` from both ends of a text.
pub fn trim_with(k: Strip, s: &str) -> (r: String)
    ensures
        r@ == trim_spec(k, s@),
{
    let cs = chars_of(s);
    let n = cs.len();
    let mut a: usize = 0;
    assert(cs@.subrange(0, n as int) =~= cs@);
    while a < n && strips_exec(&k, cs[a])
        invariant
            a <= n == cs.len(),
            cs@ == s@,
            trim_start_spec(k, cs@) == trim_start_spec(k, cs@.subrange(a as int, n as int)),
        decreases n - a,
    {
        assert(cs@.subrange(a as int, n as int).drop_first() =~= cs@.subrange(a + 1, n as int));
        a += 1;
    }
    let mut b: usize = n;
    while b > a && strips_exec(&k, cs[b - 1])
        invariant
            a <= b <= n == cs.len(),
            cs@ == s@,
            trim_start_spec(k, cs@) == cs@.subrange(a as int, n as int),
            trim_spec(k, cs@) == trim_end_spec(k, cs@.subrange(a as int, b as int)),
        decreases b - a,
    {
        assert(cs@.subrange(a as int, b as int).drop_last() =~= cs@.subrange(a as int, b - 1));
        b -= 1;
    }
    string_of(&cs, a, b)
}

/// A text without white space at either end.
pub fn trim(s: &str) -> (r: String)
    ensures
        r@ == trim_spec(Strip::Space, s@),
{
    trim_with(Strip::Space, s)
}

/// Relies on `str::to_lowercase`: Unicode's lower-case mapping of each character, which
/// depends on the text alone.
pub uninterp spec fn lower_of(s: Seq<char>) -> Seq<char>;

/// Relies on `str::to_lowercase`.
#[verifier::external_body]
pub(crate) fn lowercase(s: &str) -> (r: String)
    ensures
        r@ == lower_of(s@),
{
    s.to_lowercase()
}


/// Whether two texts are the same.
pub fn same_text(a: &str, b: &str) -> (r: bool)
    ensures
        r == (a@ == b@),
{
    let xs = chars_of(a);
    let ys = chars_of(b);
    if xs.len() != ys.len() {
        return false;
    }
    let mut i: usize = 0;
    while i < xs.len()
        invariant
            xs@ == a@,
            ys@ == b@,
            xs.len() == ys.len(),
            i <= xs.len(),
            forall|j: int| 0 <= j < i ==> xs@[j] == ys@[j],
        decreases xs.len() - i,
    {
        if xs[i] != ys[i] {
            return false;
        }
        i += 1;
    }
    assert(a@ =~= b@);
    true
}

/// One decimal digit.
pub open spec fn digit_char(d: nat) -> char {
    seq!['0', '1', '2', '3', '4', '5', '6', '7', '8', '9'][d as int]
}

/// The decimal digits of `n`, without leading zeros.
pub open spec fn decimal(n: nat) -> Seq<char>
    decreases n,
{
    if n < 10 {
        seq![digit_char(n)]
    } else {
        decimal(n / 10).push(digit_char(n % 10))
    }
}

/// The decimal digits of `n`, with zeros in front up to `width` characters.
pub open spec fn zero_padded(n: nat, width: nat) -> Seq<char> {
    let d = decimal(n);
    if d.len() >= width {
        d
    } else {
        Seq::new((width - d.len()) as nat, |i: int| '0') + d
    }
}

fn digit(d: u64) -> (c: char)
    requires
        d < 10,
    ensures
        c == digit_char(d as nat),
{
    if d == 0 { '0' }
    else if d == 1 { '1' }
    else if d == 2 { '2' }
    else if d == 3 { '3' }
    else if d == 4 { '4' }
    else if d == 5 { '5' }
    else if d == 6 { '6' }
    else if d == 7 { '7' }
    else if d == 8 { '8' }
    else { '9' }
}

pub fn push_decimal(s: &mut String, n: u64)
    ensures
        final(s)@ == old(s)@ + decimal(n as nat),
    decreases n,
{
    if n >= 10 {
        push_decimal(s, n / 10);
    }
    push_char(s, digit(n % 10));
}

fn decimal_len(n: u64) -> (r: u64)
    ensures
        r == decimal(n as nat).len(),
    decreases n,
{
    if n >= 10 {
        let k = decimal_len(n / 10);
        proof {
            lemma_decimal_len((n / 10) as nat);
        }
        k + 1
    } else {
        1
    }
}

proof fn lemma_decimal_len(n: nat)
    ensures
        decimal(n).len() <= n + 1,
    decreases n,
{
    if n >= 10 {
        lemma_decimal_len(n / 10);
    }
}

pub fn push_padded(s: &mut String, n: u64, width: u64)
    ensures
        final(s)@ == old(s)@ + zero_padded(n as nat, width as nat),
{
    let len = decimal_len(n);
    if len < width {
        let ghost start = s@;
        let mut k: u64 = 0;
        while k < width - len
            invariant
                k <= width - len,
                s@ == start + Seq::new(k as nat, |i: int| '0'),
            decreases width - len - k,
        {
            push_char(s, '0');
            assert(start + Seq::new((k + 1) as nat, |i: int| '0') =~= (start + Seq::new(
                k as nat,
                |i: int| '0',
            )).push('0'));
            k += 1;
        }
        push_decimal(s, n);
        assert(s@ =~= start + zero_padded(n as nat, width as nat));
    } else {
        push_decimal(s, n);
    }
}

/// An integer in decimal, with a minus sign where it is negative.
pub open spec fn int_text(n: int) -> Seq<char> {
    if n < 0 {
        seq!['-'] + decimal((-n) as nat)
    } else {
        decimal(n as nat)
    }
}

/// Writes an integer in decimal.
pub fn int_to_text(n: i64) -> (r: String)
    ensures
        r@ == int_text(n as int),
{
    let mut r = String::new();
    if n < 0 {
        push_char(&mut r, '-');
        let a: u64 = ((-(n + 1)) as u64) + 1;
        push_decimal(&mut r, a);
    } else {
        push_decimal(&mut r, n as u64);
    }
    r
}

} // verus!
