//! Splitting a markdown file into its YAML frontmatter and its body.
use vstd::prelude::*;
use vstd::string::StrSliceExecFns;

use crate::text::{
    chars_of, find, find_from, lemma_find_matches, matches_at_exec, skip_char, skip_ws,
    skip_ws_back, starts_with, trim, trim_start, trim_start_char,
};

verus! {

/// The opening marker `---`.
pub open spec fn fence() -> Seq<char> {
    seq!['-', '-', '-']
}

/// The closing marker: a newline followed by `---`.
pub open spec fn closing_fence() -> Seq<char> {
    seq!['\n', '-', '-', '-']
}

/// Why a file has no well-formed frontmatter.
#[derive(Debug, Clone, Copy, PartialEq, Eq)]
pub enum FrontmatterError {
    /// The file does not start with `---` (after leading whitespace).
    MissingOpening,
    /// No line starting with `---` closes the frontmatter.
    MissingClosing,
}

impl FrontmatterError {
    /// The message the error is reported with.
    pub fn message(&self) -> (m: String)
        ensures
            m@ == self.spec_message(),
    {
        match self {
            FrontmatterError::MissingOpening => String::from_str(
                "file does not start with '---' frontmatter",
            ),
            FrontmatterError::MissingClosing => String::from_str(
                "frontmatter closing '---' not found",
            ),
        }
    }

    /// The message the error is reported with.
    pub open spec fn spec_message(&self) -> Seq<char> {
        match self {
            FrontmatterError::MissingOpening => "file does not start with '---' frontmatter"@,
            FrontmatterError::MissingClosing => "frontmatter closing '---' not found"@,
        }
    }
}

/// What `split_frontmatter` yields for a source text: the trimmed YAML block
/// and the body with its leading newlines removed.
pub open spec fn spec_split_frontmatter(src: Seq<char>) -> Result<
    (Seq<char>, Seq<char>),
    FrontmatterError,
> {
    let t = trim_start(src);
    if !starts_with(t, fence()) {
        Err(FrontmatterError::MissingOpening)
    } else {
        let rest = t.skip(3);
        match find(rest, closing_fence()) {
            None => Err(FrontmatterError::MissingClosing),
            Some(end) => Ok(
                (trim(rest.take(end)), trim_start_char(rest.skip(end + 4), '\n')),
            ),
        }
    }
}

/// Bounds, in characters, of the YAML block and of the body of `v`.
fn frontmatter_bounds(v: &Vec<char>) -> (r: Result<(usize, usize, usize), FrontmatterError>)
    ensures
        match r {
            Ok((a, b, c)) => a <= b <= c <= v.len() && spec_split_frontmatter(v@) == Ok::<
                (Seq<char>, Seq<char>),
                FrontmatterError,
            >((v@.subrange(a as int, b as int), v@.subrange(c as int, v.len() as int))),
            Err(e) => spec_split_frontmatter(v@) == Err::<(Seq<char>, Seq<char>), FrontmatterError>(
                e,
            ),
        },
{
    let n = v.len();
    let k = skip_ws(v, 0, n);
    assert(v@.subrange(0, n as int) =~= v@);
    let ghost t = trim_start(v@);
    let fence_v = vec!['-', '-', '-'];
    assert(fence_v@ =~= fence());
    if !matches_at_exec(v, &fence_v, k) {
        proof {
            if starts_with(t, fence()) {
                assert(t.take(3) =~= v@.subrange(k as int, k + 3));
            }
        }
        return Err(FrontmatterError::MissingOpening);
    }
    assert(t.take(3) =~= v@.subrange(k as int, k + 3));
    let closing_v = vec!['\n', '-', '-', '-'];
    assert(closing_v@ =~= closing_fence());
    let ghost rest = t.skip(3);
    assert(rest =~= v@.skip(k + 3));
    match find_from(v, &closing_v, k + 3) {
        None => Err(FrontmatterError::MissingClosing),
        Some(end) => {
            assert(end + 4 <= n) by {
                let s = v@.skip(k + 3);
                lemma_find_matches(s, closing_fence());
            }
            let a = skip_ws(v, k + 3, end);
            let b = skip_ws_back(v, a, end);
            assert(rest.take(end - k - 3) =~= v@.subrange(k + 3, end as int));
            let c = skip_char(v, end + 4, n, '\n');
            assert(rest.skip(end - k - 3 + 4) =~= v@.subrange(end + 4, n as int));
            Ok((a, b, c))
        },
    }
}

/// Splits a markdown source into its YAML frontmatter and its body.
/// Leading whitespace before the opening `---` is ignored; the YAML block is
/// trimmed, and the newlines that start the body are dropped.
pub fn split_frontmatter(source: &str) -> (r: Result<(&str, &str), FrontmatterError>)
    ensures
        match r {
            Ok((yaml, body)) => spec_split_frontmatter(source@) == Ok::<
                (Seq<char>, Seq<char>),
                FrontmatterError,
            >((yaml@, body@)),
            Err(e) => spec_split_frontmatter(source@) == Err::<
                (Seq<char>, Seq<char>),
                FrontmatterError,
            >(e),
        },
{
    let v = chars_of(source);
    match frontmatter_bounds(&v) {
        Ok((a, b, c)) => {
            let yaml = source.substring_char(a, b);
            let body = source.substring_char(c, v.len());
            Ok((yaml, body))
        },
        Err(e) => Err(e),
    }
}

/// The body of a markdown file: what follows the frontmatter, or the whole
/// text when there is no well-formed frontmatter.
pub fn extract_body(md: &str) -> (body: &str)
    ensures
        body@ == match spec_split_frontmatter(md@) {
            Ok((_, b)) => b,
            Err(_) => md@,
        },
{
    match split_frontmatter(md) {
        Ok((_, body)) => body,
        Err(_) => md,
    }
}

} // verus!
