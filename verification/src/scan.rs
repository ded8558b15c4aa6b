//! Character-level scanners: the leaves of the grammar.
//!
//! Each scanner exists twice: a spec function that defines, over the character
//! sequence, how far the scanner reaches from a position (or that it fails),
//! and an executable twin proved to return exactly that.

use vstd::prelude::*;
use vstd::string::StrSliceExecFns;

verus! {

broadcast use vstd::string::group_string_axioms;

/// Whether `r` is the executable outcome of the spec scanner result `sp`.
pub open spec fn opt_pos_eq(r: Option<usize>, sp: Option<int>) -> bool {
    match r {
        Some(p) => sp == Some(p as int),
        None => sp is None,
    }
}

/// ASCII space or tab.
pub open spec fn is_space(c: char) -> bool {
    c == ' ' || c == '\t'
}

/// ASCII letter or digit.
pub open spec fn is_alnum(c: char) -> bool {
    ('0' as u32) <= (c as u32) && (c as u32) <= ('9' as u32) || ('A' as u32) <= (c as u32) && (
    c as u32) <= ('Z' as u32) || ('a' as u32) <= (c as u32) && (c as u32) <= ('z' as u32)
}

/// ASCII digit.
pub open spec fn is_digit(c: char) -> bool {
    ('0' as u32) <= (c as u32) && (c as u32) <= ('9' as u32)
}

/// The position after the run of spaces and tabs starting at `pos`.
pub open spec fn sp_space0(s: Seq<char>, pos: int) -> int
    decreases s.len() - pos,
{
    if pos < 0 || pos >= s.len() {
        pos
    } else if is_space(s[pos]) {
        sp_space0(s, pos + 1)
    } else {
        pos
    }
}

/// The position after the run of ASCII letters and digits starting at `pos`.
pub open spec fn sp_alnum_run(s: Seq<char>, pos: int) -> int
    decreases s.len() - pos,
{
    if pos < 0 || pos >= s.len() {
        pos
    } else if is_alnum(s[pos]) {
        sp_alnum_run(s, pos + 1)
    } else {
        pos
    }
}

/// One or more ASCII letters or digits.
pub open spec fn sp_alnum1(s: Seq<char>, pos: int) -> Option<int> {
    if 0 <= pos < s.len() && is_alnum(s[pos]) {
        Some(sp_alnum_run(s, pos + 1))
    } else {
        None
    }
}

/// The position after the run of ASCII digits starting at `pos`.
pub open spec fn sp_digit_run(s: Seq<char>, pos: int) -> int
    decreases s.len() - pos,
{
    if pos < 0 || pos >= s.len() {
        pos
    } else if is_digit(s[pos]) {
        sp_digit_run(s, pos + 1)
    } else {
        pos
    }
}

/// One or more ASCII digits.
pub open spec fn sp_digit1(s: Seq<char>, pos: int) -> Option<int> {
    if 0 <= pos < s.len() && is_digit(s[pos]) {
        Some(sp_digit_run(s, pos + 1))
    } else {
        None
    }
}

/// The position after the run of newlines starting at `pos`.
pub open spec fn sp_newlines0(s: Seq<char>, pos: int) -> int
    decreases s.len() - pos,
{
    if pos < 0 || pos >= s.len() {
        pos
    } else if s[pos] == '\n' {
        sp_newlines0(s, pos + 1)
    } else {
        pos
    }
}

/// Fixed text `t` at `pos`: the position just after it, or failure.
pub open spec fn sp_tag(s: Seq<char>, pos: int, t: Seq<char>) -> Option<int> {
    if 0 <= pos && pos + t.len() <= s.len() && s.subrange(pos, pos + t.len()) == t {
        Some(pos + t.len())
    } else {
        None
    }
}

/// The index of the first `#` at or after `pos`, if any.
pub open spec fn sp_find_hash(s: Seq<char>, pos: int) -> Option<int>
    decreases s.len() - pos,
{
    if pos < 0 || pos >= s.len() {
        None
    } else if s[pos] == '#' {
        Some(pos)
    } else {
        sp_find_hash(s, pos + 1)
    }
}

/// Executable twin of [`sp_space0`].
pub fn space0(s: &Vec<char>, pos: usize) -> (r: usize)
    requires
        pos <= s@.len(),
    ensures
        r as int == sp_space0(s@, pos as int),
        pos <= r <= s@.len(),
{
    let n = s.len();
    let mut p = pos;
    while p < n && (s[p] == ' ' || s[p] == '\t')
        invariant
            pos <= p <= n,
            n == s@.len(),
            sp_space0(s@, pos as int) == sp_space0(s@, p as int),
        decreases n - p,
    {
        p = p + 1;
    }
    p
}

/// Executable twin of [`sp_alnum_run`].
pub fn alnum_run(s: &Vec<char>, pos: usize) -> (r: usize)
    requires
        pos <= s@.len(),
    ensures
        r as int == sp_alnum_run(s@, pos as int),
        pos <= r <= s@.len(),
{
    let n = s.len();
    let mut p = pos;
    while p < n && is_alnum_exec(s[p])
        invariant
            pos <= p <= n,
            n == s@.len(),
            sp_alnum_run(s@, pos as int) == sp_alnum_run(s@, p as int),
        decreases n - p,
    {
        p = p + 1;
    }
    p
}

/// Executable twin of [`is_alnum`].
pub fn is_alnum_exec(c: char) -> (r: bool)
    ensures
        r == is_alnum(c),
{
    let u = c as u32;
    (48 <= u && u <= 57) || (65 <= u && u <= 90) || (97 <= u && u <= 122)
}

/// Executable twin of [`is_digit`].
pub fn is_digit_exec(c: char) -> (r: bool)
    ensures
        r == is_digit(c),
{
    let u = c as u32;
    48 <= u && u <= 57
}

/// Executable twin of [`sp_alnum1`].
pub fn alnum1(s: &Vec<char>, pos: usize) -> (r: Option<usize>)
    requires
        pos <= s@.len(),
    ensures
        opt_pos_eq(r, sp_alnum1(s@, pos as int)),
        r matches Some(p) ==> pos < p <= s@.len(),
{
    if pos < s.len() && is_alnum_exec(s[pos]) {
        Some(alnum_run(s, pos + 1))
    } else {
        None
    }
}

/// Executable twin of [`sp_digit_run`].
pub fn digit_run(s: &Vec<char>, pos: usize) -> (r: usize)
    requires
        pos <= s@.len(),
    ensures
        r as int == sp_digit_run(s@, pos as int),
        pos <= r <= s@.len(),
{
    let n = s.len();
    let mut p = pos;
    while p < n && is_digit_exec(s[p])
        invariant
            pos <= p <= n,
            n == s@.len(),
            sp_digit_run(s@, pos as int) == sp_digit_run(s@, p as int),
        decreases n - p,
    {
        p = p + 1;
    }
    p
}

/// Executable twin of [`sp_digit1`].
pub fn digit1(s: &Vec<char>, pos: usize) -> (r: Option<usize>)
    requires
        pos <= s@.len(),
    ensures
        opt_pos_eq(r, sp_digit1(s@, pos as int)),
        r matches Some(p) ==> pos < p <= s@.len(),
{
    if pos < s.len() && is_digit_exec(s[pos]) {
        Some(digit_run(s, pos + 1))
    } else {
        None
    }
}

/// Executable twin of [`sp_newlines0`].
pub fn newlines0(s: &Vec<char>, pos: usize) -> (r: usize)
    requires
        pos <= s@.len(),
    ensures
        r as int == sp_newlines0(s@, pos as int),
        pos <= r <= s@.len(),
{
    let n = s.len();
    let mut p = pos;
    while p < n && s[p] == '\n'
        invariant
            pos <= p <= n,
            n == s@.len(),
            sp_newlines0(s@, pos as int) == sp_newlines0(s@, p as int),
        decreases n - p,
    {
        p = p + 1;
    }
    p
}

/// Executable twin of [`sp_tag`].
pub fn tag_at(s: &Vec<char>, pos: usize, t: &str) -> (r: Option<usize>)
    requires
        pos <= s@.len(),
    ensures
        opt_pos_eq(r, sp_tag(s@, pos as int, t@)),
        r matches Some(p) ==> pos <= p <= s@.len() && p == pos + t@.len(),
{
    let m: usize = t.unicode_len();
    let n: usize = s.len();
    if m > n - pos {
        return None;
    }
    let mut j: usize = 0;
    while j < m
        invariant
            j <= m,
            m == t@.len(),
            n == s@.len(),
            pos + m <= n,
            forall|k: int| 0 <= k < j ==> s@[pos + k] == t@[k],
        decreases m - j,
    {
        if s[pos + j] != t.get_char(j) {
            proof {
                assert(s@.subrange(pos as int, pos + m)[j as int] != t@[j as int]);
            }
            return None;
        }
        j = j + 1;
    }
    proof {
        assert(s@.subrange(pos as int, pos + m) =~= t@);
    }
    Some(pos + m)
}

/// Executable twin of [`sp_find_hash`].
pub fn find_hash(s: &Vec<char>, pos: usize) -> (r: Option<usize>)
    requires
        pos <= s@.len(),
    ensures
        opt_pos_eq(r, sp_find_hash(s@, pos as int)),
        r matches Some(p) ==> pos <= p < s@.len(),
{
    let n = s.len();
    let mut p = pos;
    while p < n && s[p] != '#'
        invariant
            pos <= p <= n,
            n == s@.len(),
            sp_find_hash(s@, pos as int) == sp_find_hash(s@, p as int),
        decreases n - p,
    {
        p = p + 1;
    }
    if p < n {
        Some(p)
    } else {
        None
    }
}

} // verus!
