use vstd::prelude::*;
use vstd::string::StringExecFns;

use crate::tools::views;

verus! {

/// Unicode `White_Space` characters, as `char::is_whitespace` defines them.
pub open spec fn is_ws(c: char) -> bool {
    ||| ('\u{9}' <= c && c <= '\u{d}')
    ||| c == ' '
    ||| c == '\u{85}'
    ||| c == '\u{a0}'
    ||| c == '\u{1680}'
    ||| ('\u{2000}' <= c && c <= '\u{200a}')
    ||| c == '\u{2028}'
    ||| c == '\u{2029}'
    ||| c == '\u{202f}'
    ||| c == '\u{205f}'
    ||| c == '\u{3000}'
}

/// Executable whitespace test.
pub fn char_is_whitespace(c: char) -> (b: bool)
    ensures
        b == is_ws(c),
{
    ('\u{9}' <= c && c <= '\u{d}') || c == ' ' || c == '\u{85}' || c == '\u{a0}'
        || c == '\u{1680}' || ('\u{2000}' <= c && c <= '\u{200a}') || c == '\u{2028}'
        || c == '\u{2029}' || c == '\u{202f}' || c == '\u{205f}' || c == '\u{3000}'
}

/// The characters of a string slice.
pub fn chars_of(s: &str) -> (v: Vec<char>)
    ensures
        v@ == s@,
{
    let mut v: Vec<char> = Vec::new();
    for c in it: s.chars()
        invariant
            v@ == it.seq().take(it.index() as int),
            it.seq() == s@,
    {
        v.push(c);
    }
    v
}

/// Appends one character to a string (`String::push`).
#[verifier::external_body]
pub(crate) fn push_char(s: &mut String, c: char)
    ensures
        final(s)@ == old(s)@.push(c),
{
    s.push(c);
}

/// Builds a string from a sequence of characters.
pub fn string_from_chars(v: &Vec<char>) -> (s: String)
    ensures
        s@ == v@,
{
    let mut s = String::new();
    for i in 0..v.len()
        invariant
            s@ == v@.take(i as int),
    {
        push_char(&mut s, v[i]);
        assert(v@.take(i as int).push(v@[i as int]) =~= v@.take(i + 1));
    }
    assert(v@.take(v.len() as int) =~= v@);
    s
}


/// `s` with its leading whitespace removed (`str::trim_start`).
pub open spec fn trim_start(s: Seq<char>) -> Seq<char>
    decreases s.len(),
{
    if s.len() > 0 && is_ws(s[0]) {
        trim_start(s.drop_first())
    } else {
        s
    }
}

/// `s` with its trailing whitespace removed (`str::trim_end`).
pub open spec fn trim_end(s: Seq<char>) -> Seq<char>
    decreases s.len(),
{
    if s.len() > 0 && is_ws(s.last()) {
        trim_end(s.drop_last())
    } else {
        s
    }
}

/// `s` with whitespace removed at both ends (`str::trim`).
pub open spec fn trim(s: Seq<char>) -> Seq<char> {
    trim_end(trim_start(s))
}

/// `s` with every leading `c` removed (`str::trim_start_matches(c)`).
pub open spec fn trim_start_char(s: Seq<char>, c: char) -> Seq<char>
    decreases s.len(),
{
    if s.len() > 0 && s[0] == c {
        trim_start_char(s.drop_first(), c)
    } else {
        s
    }
}

/// `p` is a prefix of `s`.
pub open spec fn starts_with(s: Seq<char>, p: Seq<char>) -> bool {
    p.len() <= s.len() && s.take(p.len() as int) == p
}

/// `p` occurs in `s` at index `i`.
pub open spec fn matches_at(s: Seq<char>, p: Seq<char>, i: int) -> bool {
    0 <= i && i + p.len() <= s.len() && s.subrange(i, i + p.len()) == p
}

/// Index of the first occurrence of `p` in `s` (`str::find`).
pub open spec fn find(s: Seq<char>, p: Seq<char>) -> Option<int>
    decreases s.len(),
{
    if s.len() < p.len() {
        None
    } else if s.take(p.len() as int) == p {
        Some(0)
    } else if s.len() == 0 {
        None
    } else {
        match find(s.drop_first(), p) {
            Some(k) => Some(k + 1),
            None => None,
        }
    }
}

/// `find` gives the first index at which the pattern occurs.
pub proof fn lemma_find_first(s: Seq<char>, p: Seq<char>, i: int)
    requires
        matches_at(s, p, i),
        forall|j: int| 0 <= j < i ==> !matches_at(s, p, j),
    ensures
        find(s, p) == Some(i),
    decreases s.len(),
{
    if i == 0 {
        assert(s.take(p.len() as int) =~= s.subrange(0, p.len() as int));
    } else {
        assert(!matches_at(s, p, 0));
        assert(s.take(p.len() as int) =~= s.subrange(0, p.len() as int));
        let t = s.drop_first();
        assert forall|j: int| 0 <= j < i - 1 implies !matches_at(t, p, j) by {
            assert(t.subrange(j, j + p.len()) =~= s.subrange(j + 1, j + 1 + p.len()));
            assert(!matches_at(s, p, j + 1));
        }
        assert(t.subrange(i - 1, i - 1 + p.len()) =~= s.subrange(i, i + p.len()));
        lemma_find_first(t, p, i - 1);
    }
}

/// `find` gives nothing when the pattern occurs nowhere.
pub proof fn lemma_find_none(s: Seq<char>, p: Seq<char>)
    requires
        forall|j: int| 0 <= j ==> !matches_at(s, p, j),
    ensures
        find(s, p) == None::<int>,
    decreases s.len(),
{
    if s.len() >= p.len() {
        assert(!matches_at(s, p, 0));
        assert(s.take(p.len() as int) =~= s.subrange(0, p.len() as int));
        if s.len() > 0 {
            let t = s.drop_first();
            assert forall|j: int| 0 <= j implies !matches_at(t, p, j) by {
                if j + p.len() <= t.len() {
                    assert(t.subrange(j, j + p.len()) =~= s.subrange(j + 1, j + 1 + p.len()));
                    assert(!matches_at(s, p, j + 1));
                }
            }
            lemma_find_none(t, p);
        }
    }
}

/// Where `find` gives an index, the pattern occurs there.
pub proof fn lemma_find_matches(s: Seq<char>, p: Seq<char>)
    ensures
        find(s, p) matches Some(i) ==> matches_at(s, p, i),
    decreases s.len(),
{
    if s.len() >= p.len() && s.take(p.len() as int) == p {
        assert(s.take(p.len() as int) =~= s.subrange(0, p.len() as int));
    } else if s.len() >= p.len() && s.len() > 0 {
        let t = s.drop_first();
        lemma_find_matches(t, p);
        if let Some(k) = find(t, p) {
            assert(t.subrange(k, k + p.len()) =~= s.subrange(k + 1, k + 1 + p.len()));
        }
    }
}

/// Index of the first character of `v[from..to]` that is not whitespace, or `to`.
pub fn skip_ws(v: &Vec<char>, from: usize, to: usize) -> (k: usize)
    requires
        from <= to <= v.len(),
    ensures
        from <= k <= to,
        trim_start(v@.subrange(from as int, to as int)) == v@.subrange(k as int, to as int),
{
    let mut k = from;
    while k < to && char_is_whitespace(v[k])
        invariant
            from <= k <= to,
            to <= v.len(),
            trim_start(v@.subrange(from as int, to as int)) == trim_start(
                v@.subrange(k as int, to as int),
            ),
        decreases to - k,
    {
        assert(v@.subrange(k as int, to as int).drop_first() =~= v@.subrange(
            k + 1,
            to as int,
        ));
        k += 1;
    }
    k
}

/// End of `v[from..to]` once trailing whitespace is dropped.
pub fn skip_ws_back(v: &Vec<char>, from: usize, to: usize) -> (k: usize)
    requires
        from <= to <= v.len(),
    ensures
        from <= k <= to,
        trim_end(v@.subrange(from as int, to as int)) == v@.subrange(from as int, k as int),
{
    let mut k = to;
    while k > from && char_is_whitespace(v[k - 1])
        invariant
            from <= k <= to,
            to <= v.len(),
            trim_end(v@.subrange(from as int, to as int)) == trim_end(
                v@.subrange(from as int, k as int),
            ),
        decreases k - from,
    {
        assert(v@.subrange(from as int, k as int).drop_last() =~= v@.subrange(
            from as int,
            k - 1,
        ));
        k -= 1;
    }
    k
}

/// Index of the first character of `v[from..to]` that differs from `c`, or `to`.
pub fn skip_char(v: &Vec<char>, from: usize, to: usize, c: char) -> (k: usize)
    requires
        from <= to <= v.len(),
    ensures
        from <= k <= to,
        trim_start_char(v@.subrange(from as int, to as int), c) == v@.subrange(
            k as int,
            to as int,
        ),
{
    let mut k = from;
    while k < to && v[k] == c
        invariant
            from <= k <= to,
            to <= v.len(),
            trim_start_char(v@.subrange(from as int, to as int), c) == trim_start_char(
                v@.subrange(k as int, to as int),
                c,
            ),
        decreases to - k,
    {
        assert(v@.subrange(k as int, to as int).drop_first() =~= v@.subrange(
            k + 1,
            to as int,
        ));
        k += 1;
    }
    k
}

/// Whether `p` occurs in `v` at index `i`.
pub fn matches_at_exec(v: &Vec<char>, p: &Vec<char>, i: usize) -> (b: bool)
    ensures
        b == matches_at(v@, p@, i as int),
{
    if i > v.len() || p.len() > v.len() - i {
        return false;
    }
    let mut j: usize = 0;
    while j < p.len()
        invariant
            i + p.len() <= v.len(),
            j <= p.len(),
            forall|k: int| 0 <= k < j ==> v@[i + k] == p@[k],
        decreases p.len() - j,
    {
        if v[i + j] != p[j] {
            assert(v@.subrange(i as int, i + p.len())[j as int] != p@[j as int]);
            return false;
        }
        j += 1;
    }
    assert(v@.subrange(i as int, i + p.len()) =~= p@);
    true
}

/// First index `i >= from` at which `p` occurs in `v`.
pub fn find_from(v: &Vec<char>, p: &Vec<char>, from: usize) -> (r: Option<usize>)
    requires
        from <= v.len(),
    ensures
        match r {
            Some(i) => from <= i && find(v@.skip(from as int), p@) == Some(i - from),
            None => find(v@.skip(from as int), p@) == None::<int>,
        },
{
    let ghost s = v@.skip(from as int);
    if p.len() == 0 {
        proof {
            assert(s.subrange(0, 0) =~= p@);
            lemma_find_first(s, p@, 0);
        }
        return Some(from);
    }
    let mut i = from;
    while i < v.len()
        invariant
            from <= i <= v.len(),
            p.len() > 0,
            s == v@.skip(from as int),
            forall|j: int| 0 <= j < i - from ==> !matches_at(s, p@, j),
        decreases v.len() - i,
    {
        let m = matches_at_exec(v, p, i);
        proof {
            if i + p.len() <= v.len() {
                assert(s.subrange(i - from, i - from + p.len()) =~= v@.subrange(
                    i as int,
                    i + p.len(),
                ));
            }
        }
        if m {
            proof {
                lemma_find_first(s, p@, i - from);
            }
            return Some(i);
        }
        i += 1;
    }
    proof {
        assert forall|j: int| 0 <= j implies !matches_at(s, p@, j) by {
            if j >= i - from {
                assert(!(j + p.len() <= s.len()));
            }
        }
        lemma_find_none(s, p@);
    }
    None
}


/// Whether two string slices hold the same characters.
pub fn str_eq(a: &str, b: &str) -> (r: bool)
    ensures
        r == (a@ == b@),
{
    let x = a.to_owned();
    let y = b.to_owned();
    x == y
}

/// Builds a string from the characters `v[from..to]`.
pub fn string_from_range(v: &Vec<char>, from: usize, to: usize) -> (s: String)
    requires
        from <= to <= v.len(),
    ensures
        s@ == v@.subrange(from as int, to as int),
{
    let mut s = String::new();
    let mut i = from;
    while i < to
        invariant
            from <= i <= to,
            to <= v.len(),
            s@ == v@.subrange(from as int, i as int),
        decreases to - i,
    {
        push_char(&mut s, v[i]);
        assert(v@.subrange(from as int, i as int).push(v@[i as int]) =~= v@.subrange(
            from as int,
            i + 1,
        ));
        i += 1;
    }
    s
}

/// `s` with whitespace removed at both ends (`str::trim`).
pub fn trim_str(s: &str) -> (r: String)
    ensures
        r@ == trim(s@),
{
    let v = chars_of(s);
    let a = skip_ws(&v, 0, v.len());
    let b = skip_ws_back(&v, a, v.len());
    assert(v@.subrange(0, v.len() as int) =~= v@);
    string_from_range(&v, a, b)
}

/// `s` with its leading whitespace removed (`str::trim_start`).
pub fn trim_start_str(s: &str) -> (r: String)
    ensures
        r@ == trim_start(s@),
{
    let v = chars_of(s);
    let a = skip_ws(&v, 0, v.len());
    assert(v@.subrange(0, v.len() as int) =~= v@);
    string_from_range(&v, a, v.len())
}

/// Whether `s` starts with `p` (`str::starts_with`).
pub fn starts_with_str(s: &str, p: &str) -> (r: bool)
    ensures
        r == starts_with(s@, p@),
{
    let v = chars_of(s);
    let w = chars_of(p);
    let m = matches_at_exec(&v, &w, 0);
    proof {
        if starts_with(s@, p@) {
            assert(v@.subrange(0, p@.len() as int) =~= v@.take(p@.len() as int));
        }
        if m {
            assert(v@.subrange(0, p@.len() as int) =~= v@.take(p@.len() as int));
        }
    }
    m
}

/// Texts joined with a separator (`[T]::join`).
pub open spec fn join(parts: Seq<Seq<char>>, sep: Seq<char>) -> Seq<char>
    decreases parts.len(),
{
    if parts.len() == 0 {
        Seq::empty()
    } else if parts.len() == 1 {
        parts[0]
    } else {
        join(parts.drop_last(), sep) + sep + parts.last()
    }
}

/// Joins strings with a separator.
pub fn join_strings(parts: &Vec<String>, sep: &str) -> (r: String)
    ensures
        r@ == join(views(parts@), sep@),
{
    let mut r = String::new();
    let mut j: usize = 0;
    while j < parts.len()
        invariant
            j <= parts.len(),
            r@ == join(views(parts@).take(j as int), sep@),
        decreases parts.len() - j,
    {
        let ghost t = views(parts@).take(j + 1);
        assert(t.drop_last() =~= views(parts@).take(j as int));
        if j > 0 {
            r.append(sep);
        }
        r.append(parts[j].as_str());
        j += 1;
        proof {
            if j == 1 {
                assert(join(views(parts@).take(0), sep@) =~= Seq::<char>::empty());
                assert(r@ =~= join(t, sep@));
            } else {
                assert(r@ =~= join(t, sep@));
            }
        }
    }
    assert(views(parts@).take(parts.len() as int) =~= views(parts@));
    r
}

/// `s` with one trailing carriage return removed.
pub open spec fn strip_cr(s: Seq<char>) -> Seq<char> {
    if s.len() > 0 && s.last() == '\r' {
        s.drop_last()
    } else {
        s
    }
}

/// The lines of `s` when the unfinished line read so far is `cur`.
pub open spec fn lines_acc(s: Seq<char>, cur: Seq<char>) -> Seq<Seq<char>>
    decreases s.len(),
{
    if s.len() == 0 {
        if cur.len() == 0 {
            Seq::empty()
        } else {
            seq![cur]
        }
    } else if s[0] == '\n' {
        seq![strip_cr(cur)] + lines_acc(s.drop_first(), Seq::empty())
    } else {
        lines_acc(s.drop_first(), cur.push(s[0]))
    }
}

/// The lines of a text (`str::lines`): split at `\n`, a `\r` before the
/// `\n` dropped, and no empty line after a final `\n`.
pub open spec fn lines(s: Seq<char>) -> Seq<Seq<char>> {
    lines_acc(s, Seq::empty())
}

/// The lines of a text (`str::lines`).
pub fn lines_of(s: &str) -> (r: Vec<String>)
    ensures
        views(r@) == lines(s@),
{
    let v = chars_of(s);
    let mut out: Vec<String> = Vec::new();
    let mut cur: Vec<char> = Vec::new();
    let mut i: usize = 0;
    assert(v@.skip(0) =~= v@);
    while i < v.len()
        invariant
            i <= v.len(),
            v@ == s@,
            views(out@) + lines_acc(v@.skip(i as int), cur@) == lines(s@),
        decreases v.len() - i,
    {
        let ghost rest = v@.skip(i as int);
        assert(rest[0] == v@[i as int]);
        assert(rest.drop_first() =~= v@.skip(i + 1));
        if v[i] == '\n' {
            let ghost before = views(out@);
            let ghost c0 = cur@;
            if cur.len() > 0 && cur[cur.len() - 1] == '\r' {
                cur.pop();
            }
            assert(cur@ =~= strip_cr(c0));
            let line = string_from_chars(&cur);
            out.push(line);
            cur = Vec::new();
            assert(views(out@) =~= before.push(line@));
            assert(views(out@) + lines_acc(v@.skip(i + 1), cur@) =~= before + (seq![line@]
                + lines_acc(rest.drop_first(), Seq::empty())));
        } else {
            cur.push(v[i]);
        }
        i += 1;
    }
    if cur.len() > 0 {
        let ghost before = views(out@);
        let line = string_from_chars(&cur);
        out.push(line);
        assert(views(out@) =~= before.push(line@));
    }
    assert(v@.skip(v.len() as int) =~= Seq::<char>::empty());
    out
}

/// The decimal digit character of `d`.
pub open spec fn digit_char(d: int) -> char {
    if d == 0 {
        '0'
    } else if d == 1 {
        '1'
    } else if d == 2 {
        '2'
    } else if d == 3 {
        '3'
    } else if d == 4 {
        '4'
    } else if d == 5 {
        '5'
    } else if d == 6 {
        '6'
    } else if d == 7 {
        '7'
    } else if d == 8 {
        '8'
    } else {
        '9'
    }
}

/// The decimal notation of a natural number, as `Display` writes it.
pub open spec fn decimal(n: nat) -> Seq<char>
    decreases n,
{
    if n < 10 {
        seq![digit_char(n as int)]
    } else {
        decimal(n / 10).push(digit_char((n % 10) as int))
    }
}

fn digit(d: u64) -> (c: char)
    requires
        d < 10,
    ensures
        c == digit_char(d as int),
{
    if d == 0 {
        '0'
    } else if d == 1 {
        '1'
    } else if d == 2 {
        '2'
    } else if d == 3 {
        '3'
    } else if d == 4 {
        '4'
    } else if d == 5 {
        '5'
    } else if d == 6 {
        '6'
    } else if d == 7 {
        '7'
    } else if d == 8 {
        '8'
    } else {
        '9'
    }
}

/// The decimal notation of a number (`u64::to_string`).
pub fn decimal_text(n: u64) -> (r: String)
    ensures
        r@ == decimal(n as nat),
    decreases n,
{
    if n < 10 {
        let mut s = String::new();
        push_char(&mut s, digit(n));
        s
    } else {
        let mut s = decimal_text(n / 10);
        push_char(&mut s, digit(n % 10));
        s
    }
}

/// Index of the first `c` in `s` (`str::find` with a character).
pub open spec fn first_index(s: Seq<char>, c: char) -> Option<int>
    decreases s.len(),
{
    if s.len() == 0 {
        None
    } else if s[0] == c {
        Some(0)
    } else {
        match first_index(s.drop_first(), c) {
            Some(i) => Some(i + 1),
            None => None,
        }
    }
}

/// Index of the last `c` in `s` (`str::rfind` with a character).
pub open spec fn last_index(s: Seq<char>, c: char) -> Option<int>
    decreases s.len(),
{
    if s.len() == 0 {
        None
    } else if s.last() == c {
        Some(s.len() - 1)
    } else {
        last_index(s.drop_last(), c)
    }
}

/// Index of the first `c` in `v`.
pub fn first_index_of(v: &Vec<char>, c: char) -> (r: Option<usize>)
    ensures
        match r {
            Some(i) => first_index(v@, c) == Some(i as int) && i < v.len(),
            None => first_index(v@, c) is None,
        },
{
    let mut i: usize = v.len();
    let mut found: Option<usize> = None;
    while i > 0
        invariant
            i <= v.len(),
            match found {
                Some(k) => k < v.len() && first_index(v@.skip(i as int), c) == Some(k - i) && i
                    <= k,
                None => first_index(v@.skip(i as int), c) is None,
            },
        decreases i,
    {
        let ghost t = v@.skip(i - 1);
        assert(t.drop_first() =~= v@.skip(i as int));
        assert(t[0] == v@[i - 1]);
        if v[i - 1] == c {
            found = Some(i - 1);
        }
        i -= 1;
    }
    assert(v@.skip(0) =~= v@);
    found
}

/// Index of the last `c` in `v`.
pub fn last_index_of(v: &Vec<char>, c: char) -> (r: Option<usize>)
    ensures
        match r {
            Some(i) => last_index(v@, c) == Some(i as int) && i < v.len(),
            None => last_index(v@, c) is None,
        },
{
    let mut i: usize = 0;
    let mut found: Option<usize> = None;
    assert(v@.take(0) =~= Seq::<char>::empty());
    while i < v.len()
        invariant
            i <= v.len(),
            match found {
                Some(k) => k < i && last_index(v@.take(i as int), c) == Some(k as int),
                None => last_index(v@.take(i as int), c) is None,
            },
        decreases v.len() - i,
    {
        let ghost t = v@.take(i + 1);
        assert(t.drop_last() =~= v@.take(i as int));
        assert(t.last() == v@[i as int]);
        if v[i] == c {
            found = Some(i);
        }
        i += 1;
    }
    assert(v@.take(v.len() as int) =~= v@);
    found
}

/// An ASCII decimal digit.
pub open spec fn is_digit(c: char) -> bool {
    '0' <= c && c <= '9'
}

/// The number a string of decimal digits writes.
pub open spec fn digits_value(d: Seq<char>) -> int
    decreases d.len(),
{
    if d.len() == 0 {
        0
    } else {
        digits_value(d.drop_last()) * 10 + (d.last() as int - '0' as int)
    }
}

/// The digits of an unsigned number: the text without its leading `+`.
pub open spec fn unsigned_digits(s: Seq<char>) -> Seq<char> {
    if s.len() > 0 && s[0] == '+' {
        s.drop_first()
    } else {
        s
    }
}

/// What `str::parse::<u32>` gives: an optional `+`, then one or more ASCII
/// digits whose value fits in a `u32`; anything else fails.
pub open spec fn spec_parse_u32(s: Seq<char>) -> Option<u32> {
    let d = unsigned_digits(s);
    if d.len() > 0 && (forall|i: int| 0 <= i < d.len() ==> is_digit(#[trigger] d[i]))
        && digits_value(d) <= u32::MAX {
        Some(digits_value(d) as u32)
    } else {
        None
    }
}

proof fn lemma_digits_value_grows(d: Seq<char>, k: int)
    requires
        0 <= k <= d.len(),
        forall|i: int| 0 <= i < d.len() ==> is_digit(#[trigger] d[i]),
    ensures
        digits_value(d.take(k)) <= digits_value(d),
        digits_value(d.take(k)) >= 0,
    decreases d.len() - k,
{
    if k < d.len() {
        lemma_digits_value_grows(d, k + 1);
        let t = d.take(k + 1);
        assert(t.drop_last() =~= d.take(k));
        assert(is_digit(d[k]));
        assert(t.last() == d[k]);
    } else {
        assert(d.take(k) =~= d);
        lemma_digits_value_nonneg(d);
    }
}

proof fn lemma_digits_value_nonneg(d: Seq<char>)
    requires
        forall|i: int| 0 <= i < d.len() ==> is_digit(#[trigger] d[i]),
    ensures
        digits_value(d) >= 0,
    decreases d.len(),
{
    if d.len() > 0 {
        let t = d.drop_last();
        assert forall|i: int| 0 <= i < t.len() implies is_digit(#[trigger] t[i]) by {
            assert(t[i] == d[i]);
        }
        lemma_digits_value_nonneg(t);
        assert(is_digit(d[d.len() - 1]));
    }
}

/// Parses an unsigned 32-bit number (`str::parse::<u32>`).
pub fn parse_u32(s: &str) -> (r: Option<u32>)
    ensures
        r == spec_parse_u32(s@),
{
    let v = chars_of(s);
    let start: usize = if v.len() > 0 && v[0] == '+' {
        1
    } else {
        0
    };
    let ghost d = unsigned_digits(s@);
    assert(d =~= v@.skip(start as int));
    if start >= v.len() {
        return None;
    }
    let mut val: u64 = 0;
    let mut i: usize = start;
    while i < v.len()
        invariant
            start <= i <= v.len(),
            start < v.len(),
            d == v@.skip(start as int),
            d == unsigned_digits(s@),
            forall|j: int| 0 <= j < i - start ==> is_digit(#[trigger] d[j]),
            val == digits_value(d.take(i - start)),
            val <= u32::MAX,
        decreases v.len() - i,
    {
        let c = v[i];
        assert(d[i - start] == c);
        if !('0' <= c && c <= '9') {
            assert(!is_digit(d[i - start]));
            return None;
        }
        let digit = (c as u32 - '0' as u32) as u64;
        let ghost t = d.take(i - start + 1);
        assert(t.drop_last() =~= d.take(i - start));
        assert(t.last() == c);
        val = val * 10 + digit;
        assert(val == digits_value(t));
        i += 1;
        if val > 0xffff_ffff {
            proof {
                if forall|j: int| 0 <= j < d.len() ==> is_digit(#[trigger] d[j]) {
                    lemma_digits_value_grows(d, i - start);
                }
            }
            return None;
        }
    }
    assert(d.take(d.len() as int) =~= d);
    Some(val as u32)
}

} // verus!
