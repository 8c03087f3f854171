//! MDX files: a YAML frontmatter block between `---` lines, then a body.

use vstd::prelude::*;
use crate::text::{char_is_ws, is_ws, lemma_line_end_exact, line_end, to_chars, trim, trim_bounds};

verus! {

/// `pat` occurs in `s` at position `i`.
pub open spec fn matches_at(s: Seq<char>, pat: Seq<char>, i: int) -> bool {
    0 <= i && i + pat.len() <= s.len() && s.subrange(i, i + pat.len()) == pat
}

/// The first position at which `pat` occurs in `s`.
#[verifier::opaque]
pub open spec fn find_first(s: Seq<char>, pat: Seq<char>) -> Option<int> {
    if exists|i: int| matches_at(s, pat, i) {
        Some(choose|i: int| matches_at(s, pat, i) && forall|j: int| 0 <= j < i ==> !matches_at(s, pat, j))
    } else {
        None
    }
}

/// The opening frontmatter delimiter.
pub open spec fn dashes() -> Seq<char> {
    seq!['-', '-', '-']
}

/// The closing frontmatter delimiter: a line break then `---`.
pub open spec fn closing() -> Seq<char> {
    seq!['\n', '-', '-', '-']
}

/// Why an MDX file could not be split into frontmatter and body.
pub enum MdxError {
    /// The (trimmed) content does not start with `---`.
    MissingOpeningDelimiter,
    /// No line starting with `---` closes the frontmatter.
    MissingClosingDelimiter,
}

impl MdxError {
    /// The error message.
    pub fn message(&self) -> (r: String)
        ensures
            r@ == match self {
                MdxError::MissingOpeningDelimiter => "MDX content must start with a '---' frontmatter delimiter"@,
                MdxError::MissingClosingDelimiter => "MDX frontmatter is not closed by a '---' line"@,
            },
    {
        match self {
            MdxError::MissingOpeningDelimiter => String::from_str(
                "MDX content must start with a '---' frontmatter delimiter",
            ),
            MdxError::MissingClosingDelimiter => String::from_str(
                "MDX frontmatter is not closed by a '---' line",
            ),
        }
    }
}

/// An MDX file split into its frontmatter (trimmed) and its body.
pub struct MdxFile {
    pub frontmatter: String,
    pub body: String,
}

/// The split of MDX content: after trimming, the content starts with
/// `---`; the frontmatter is what follows up to the first line break
/// followed by `---`, trimmed; the body is everything after that `---`.
pub open spec fn split_mdx(content: Seq<char>) -> Result<(Seq<char>, Seq<char>), MdxError> {
    let t = trim(content);
    if t.len() < 3 || t.subrange(0, 3) != dashes() {
        Err(MdxError::MissingOpeningDelimiter)
    } else {
        let rest = t.subrange(3, t.len() as int);
        match find_first(rest, closing()) {
            None => Err(MdxError::MissingClosingDelimiter),
            Some(e) => Ok((trim(rest.subrange(0, e)), rest.subrange(e + 4, rest.len() as int))),
        }
    }
}

/// Position of the first `\n---` in `c[from..]`, if any.
pub fn find_closing(c: &Vec<char>, from: usize, to: usize) -> (r: Option<usize>)
    requires
        from <= to <= c.len(),
    ensures
        match r {
            Some(i) => from <= i && i + 4 <= to && find_first(c@.subrange(from as int, to as int), closing()) == Some(
                i - from,
            ),
            None => find_first(c@.subrange(from as int, to as int), closing()) is None,
        },
{
    reveal(find_first);
    let ghost s = c@.subrange(from as int, to as int);
    let mut i = from;
    while to - i >= 4
        invariant
            from <= i <= to,
            to <= c.len(),
            s == c@.subrange(from as int, to as int),
            forall|j: int| 0 <= j < i - from ==> !matches_at(s, closing(), j),
        decreases to - i,
    {
        if c[i] == '\n' && c[i + 1] == '-' && c[i + 2] == '-' && c[i + 3] == '-' {
            let ghost k = (i - from) as int;
            assert(s.subrange(k, k + 4) =~= closing());
            assert(matches_at(s, closing(), k));
            assert(matches_at(s, closing(), k) && forall|j: int| 0 <= j < k ==> !matches_at(s, closing(), j));
            let ghost w = choose|w: int| matches_at(s, closing(), w) && forall|j: int| 0 <= j < w ==> !matches_at(s, closing(), j);
            assert(w == k) by {
                if w < k {
                } else if w > k {
                    assert(!matches_at(s, closing(), k));
                }
            }
            assert(find_first(s, closing()) == Some(k)) by {
                reveal(find_first);
            }
            return Some(i);
        }
        proof {
            let k = (i - from) as int;
            if matches_at(s, closing(), k) {
                assert(s.subrange(k, k + 4)[0] == s[k]);
                assert(s.subrange(k, k + 4)[1] == s[k + 1]);
                assert(s.subrange(k, k + 4)[2] == s[k + 2]);
                assert(s.subrange(k, k + 4)[3] == s[k + 3]);
            }
        }
        i = i + 1;
    }
    assert forall|j: int| !matches_at(s, closing(), j) by {
        if 0 <= j && j + 4 <= s.len() {
            assert(j < i - from);
        }
    }
    assert(find_first(s, closing()) is None) by {
        reveal(find_first);
    }
    None
}

/// Whether `c[a..b]` starts with `---`.
pub fn starts_with_dashes(c: &Vec<char>, a: usize, b: usize) -> (r: bool)
    requires
        a <= b <= c.len(),
    ensures
        r == (c@.subrange(a as int, b as int).len() >= 3 && c@.subrange(a as int, b as int).subrange(0, 3)
            == dashes()),
{
    let ghost t = c@.subrange(a as int, b as int);
    if b - a < 3 {
        return false;
    }
    let r = c[a] == '-' && c[a + 1] == '-' && c[a + 2] == '-';
    assert(t[0] == c@[a as int] && t[1] == c@[a + 1] && t[2] == c@[a + 2]);
    proof {
        if r {
            assert(t.subrange(0, 3) =~= dashes());
        } else {
            if t.subrange(0, 3) == dashes() {
                assert(t.subrange(0, 3)[0] == t[0]);
                assert(t.subrange(0, 3)[1] == t[1]);
                assert(t.subrange(0, 3)[2] == t[2]);
            }
        }
    }
    r
}

impl MdxFile {
    /// Split MDX content into trimmed frontmatter and body.
    #[verifier::rlimit(60)]
    pub fn parse(content: &str) -> (r: Result<MdxFile, MdxError>)
        ensures
            match split_mdx(content@) {
                Ok((fm, body)) => r matches Ok(m) && m.frontmatter@ == fm && m.body@ == body,
                Err(e) => r matches Err(e2) && e2 == e,
            },
    {
        let c = to_chars(content);
        let n = c.len();
        let (a, b) = trim_bounds(&c, 0, n);
        assert(c@.subrange(0, n as int) =~= c@);
        let ghost t = trim(content@);
        assert(c@.subrange(a as int, b as int) == t);
        if !starts_with_dashes(&c, a, b) {
            return Err(MdxError::MissingOpeningDelimiter);
        }
        let ghost rest = t.subrange(3, t.len() as int);
        assert(c@.subrange(a + 3, b as int) =~= rest);
        match find_closing(&c, a + 3, b) {
            None => Err(MdxError::MissingClosingDelimiter),
            Some(e) => {
                let (fa, fb) = trim_bounds(&c, a + 3, e);
                assert(c@.subrange(a + 3, e as int) =~= rest.subrange(0, e - (a + 3)));
                let frontmatter = String::from_str(content.substring_char(fa, fb));
                let body = String::from_str(content.substring_char(e + 4, b));
                assert(c@.subrange(e + 4, b as int) =~= rest.subrange(e - (a + 3) + 4, rest.len() as int));
                Ok(MdxFile { frontmatter, body })
            },
        }
    }
}

/// The `type:` prefix.
pub open spec fn type_prefix() -> Seq<char> {
    seq!['t', 'y', 'p', 'e', ':']
}

/// The value of a `type:` line: the trimmed line starts with `type:` and
/// the trimmed rest is not empty.
pub open spec fn type_value(line: Seq<char>) -> Option<Seq<char>> {
    let t = trim(line);
    if t.len() >= 5 && t.subrange(0, 5) == type_prefix() {
        let v = trim(t.subrange(5, t.len() as int));
        if v.len() > 0 {
            Some(v)
        } else {
            None
        }
    } else {
        None
    }
}

/// The value of the first `type:` line of a frontmatter, line by line.
pub open spec fn frontmatter_type(s: Seq<char>) -> Option<Seq<char>>
    decreases s.len(),
{
    let i = line_end(s);
    if i > s.len() {
        None
    } else {
        match type_value(s.subrange(0, i as int)) {
            Some(v) => Some(v),
            None => if i < s.len() {
                frontmatter_type(s.subrange(i as int + 1, s.len() as int))
            } else {
                None
            },
        }
    }
}

/// The value of the `type:` field of a frontmatter: the first line whose
/// trimmed text starts with `type:` and has a non-empty trimmed value.
pub fn extract_type(frontmatter: &str) -> (r: Option<String>)
    ensures
        r.deep_view() == frontmatter_type(frontmatter@),
{
    let c = to_chars(frontmatter);
    let n = c.len();
    let mut start: usize = 0;
    assert(c@.subrange(0, n as int) =~= c@);
    while start <= n
        invariant
            start <= n,
            n == c@.len(),
            c@ == frontmatter@,
            frontmatter_type(frontmatter@) == frontmatter_type(c@.subrange(start as int, n as int)),
        decreases n + 1 - start,
    {
        let ghost s = c@.subrange(start as int, n as int);
        let mut end = start;
        while end < n && c[end] != '\n'
            invariant
                start <= end <= n,
                n == c@.len(),
                forall|j: int| start <= j < end ==> c@[j] != '\n',
            decreases n - end,
        {
            end = end + 1;
        }
        proof {
            assert forall|j: int| 0 <= j < end - start implies s[j] != '\n' by {
                assert(s[j] == c@[start + j]);
            }
            if end < n {
                assert(s[end - start] == c@[end as int]);
            }
            lemma_line_end_exact(s, end - start);
        }
        let ghost line = s.subrange(0, end - start);
        assert(c@.subrange(start as int, end as int) =~= line);
        let (ta, tb) = trim_bounds(&c, start, end);
        let ghost t = trim(line);
        if tb - ta >= 5 && c[ta] == 't' && c[ta + 1] == 'y' && c[ta + 2] == 'p' && c[ta + 3] == 'e'
            && c[ta + 4] == ':' {
            assert(t.subrange(0, 5) =~= type_prefix());
            let (va, vb) = trim_bounds(&c, ta + 5, tb);
            assert(c@.subrange(ta + 5, tb as int) =~= t.subrange(5, t.len() as int));
            if va < vb {
                let v = String::from_str(frontmatter.substring_char(va, vb));
                return Some(v);
            }
        } else {
            proof {
                if t.len() >= 5 && t.subrange(0, 5) == type_prefix() {
                    assert(t.subrange(0, 5)[0] == t[0]);
                    assert(t.subrange(0, 5)[1] == t[1]);
                    assert(t.subrange(0, 5)[2] == t[2]);
                    assert(t.subrange(0, 5)[3] == t[3]);
                    assert(t.subrange(0, 5)[4] == t[4]);
                }
            }
        }
        if end >= n {
            return None;
        }
        assert(s.subrange(end - start + 1, s.len() as int) =~= c@.subrange(end + 1, n as int));
        start = end + 1;
    }
    None
}

} // verus!
