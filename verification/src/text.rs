//! Character and string helpers shared by the parser and the generators.

use vstd::prelude::*;
use vstd::string::StrSliceExecFns;
use vstd::string::StringExecFns;

verus! {

broadcast use vstd::string::group_string_axioms;

/// Relies on String::push: appends exactly the given character.
#[verifier::external_body]
pub fn push_char(s: &mut String, c: char)
    ensures
        final(s)@ == old(s)@.push(c),
{
    s.push(c);
}

/// The characters of `s` as a vector, for random access while parsing.
pub fn to_chars(s: &str) -> (v: Vec<char>)
    ensures
        v@ == s@,
{
    let n: usize = s.unicode_len();
    let mut v: Vec<char> = Vec::new();
    let mut i: usize = 0;
    while i < n
        invariant
            n == s@.len(),
            i <= n,
            v@ == s@.subrange(0, i as int),
        decreases n - i,
    {
        v.push(s.get_char(i));
        i = i + 1;
        assert(v@ =~= s@.subrange(0, i as int));
    }
    assert(v@ =~= s@);
    v
}

/// The substring of `s` from `from` (inclusive) to `to` (exclusive), as an
/// owned string.
pub fn chars_to_string(s: &Vec<char>, from: usize, to: usize) -> (r: String)
    requires
        from <= to <= s@.len(),
    ensures
        r@ == s@.subrange(from as int, to as int),
{
    let mut r = String::new();
    let mut i: usize = from;
    while i < to
        invariant
            from <= i <= to <= s@.len(),
            r@ == s@.subrange(from as int, i as int),
        decreases to - i,
    {
        push_char(&mut r, s[i]);
        i = i + 1;
        assert(r@ =~= s@.subrange(from as int, i as int));
    }
    r
}

/// `s` with every dot removed.
pub open spec fn sp_remove_dots(s: Seq<char>) -> Seq<char>
    decreases s.len(),
{
    if s.len() == 0 {
        Seq::empty()
    } else if s.last() == '.' {
        sp_remove_dots(s.drop_last())
    } else {
        sp_remove_dots(s.drop_last()).push(s.last())
    }
}

/// Whether `pre` is a prefix of `s`.
pub open spec fn sp_starts_with(s: Seq<char>, pre: Seq<char>) -> bool {
    pre.len() <= s.len() && s.subrange(0, pre.len() as int) == pre
}

/// `s` with every dot removed, as an owned string.
pub fn remove_dots(s: &str) -> (r: String)
    ensures
        r@ == sp_remove_dots(s@),
{
    let n: usize = s.unicode_len();
    let mut r = String::new();
    let mut i: usize = 0;
    while i < n
        invariant
            n == s@.len(),
            i <= n,
            r@ == sp_remove_dots(s@.subrange(0, i as int)),
        decreases n - i,
    {
        let c = s.get_char(i);
        if c != '.' {
            push_char(&mut r, c);
        }
        i = i + 1;
        proof {
            assert(s@.subrange(0, i as int).drop_last() =~= s@.subrange(0, i - 1));
            assert(s@.subrange(0, i as int).last() == s@[i - 1]);
        }
    }
    proof {
        assert(s@.subrange(0, n as int) =~= s@);
    }
    r
}

/// Whether the string `s` starts with the string `pre`.
pub fn starts_with(s: &str, pre: &str) -> (r: bool)
    ensures
        r == sp_starts_with(s@, pre@),
{
    let n: usize = s.unicode_len();
    let k: usize = pre.unicode_len();
    if k > n {
        return false;
    }
    let mut i: usize = 0;
    while i < k
        invariant
            n == s@.len(),
            k == pre@.len(),
            k <= n,
            i <= k,
            forall|j: int| 0 <= j < i ==> s@[j] == pre@[j],
        decreases k - i,
    {
        if s.get_char(i) != pre.get_char(i) {
            proof {
                assert(s@.subrange(0, k as int)[i as int] != pre@[i as int]);
            }
            return false;
        }
        i = i + 1;
    }
    proof {
        assert(s@.subrange(0, k as int) =~= pre@);
    }
    true
}

/// An ASCII uppercase letter mapped to its lowercase form; any other
/// character unchanged.
pub open spec fn lower_char(c: char) -> char {
    if ('A' as u32) <= (c as u32) && (c as u32) <= ('Z' as u32) {
        (((c as u32) + 32) as u8) as char
    } else {
        c
    }
}

/// `s` with ASCII uppercase letters lowered.
pub open spec fn sp_lower(s: Seq<char>) -> Seq<char> {
    s.map_values(|c: char| lower_char(c))
}

/// Executable twin of [`sp_lower`].
pub fn lower(s: &str) -> (r: String)
    ensures
        r@ == sp_lower(s@),
{
    let n: usize = s.unicode_len();
    let mut r = String::new();
    let mut i: usize = 0;
    while i < n
        invariant
            n == s@.len(),
            i <= n,
            r@ == sp_lower(s@.subrange(0, i as int)),
        decreases n - i,
    {
        let c = s.get_char(i);
        let u = c as u32;
        if 65 <= u && u <= 90 {
            push_char(&mut r, ((u + 32) as u8) as char);
        } else {
            push_char(&mut r, c);
        }
        i = i + 1;
        proof {
            assert(r@ =~= sp_lower(s@.subrange(0, i as int)));
        }
    }
    proof {
        assert(s@.subrange(0, n as int) =~= s@);
    }
    r
}

/// Strict lexicographic order on character sequences, by code point, from
/// index `i` on.
pub open spec fn sp_lex_lt_from(a: Seq<char>, b: Seq<char>, i: int) -> bool
    decreases a.len() - i,
{
    if i < 0 || i >= b.len() {
        false
    } else if i >= a.len() {
        true
    } else if (a[i] as u32) < (b[i] as u32) {
        true
    } else if (a[i] as u32) > (b[i] as u32) {
        false
    } else {
        sp_lex_lt_from(a, b, i + 1)
    }
}

/// Strict lexicographic order on character sequences, by code point.
pub open spec fn sp_lex_lt(a: Seq<char>, b: Seq<char>) -> bool {
    sp_lex_lt_from(a, b, 0)
}

/// Executable twin of [`sp_lex_lt`].
pub fn lex_lt(a: &str, b: &str) -> (r: bool)
    ensures
        r == sp_lex_lt(a@, b@),
{
    let na: usize = a.unicode_len();
    let nb: usize = b.unicode_len();
    let mut i: usize = 0;
    loop
        invariant
            na == a@.len(),
            nb == b@.len(),
            i <= na,
            i <= nb,
            sp_lex_lt_from(a@, b@, 0) == sp_lex_lt_from(a@, b@, i as int),
        decreases na - i,
    {
        if i >= nb {
            return false;
        }
        if i >= na {
            return true;
        }
        let ca = a.get_char(i) as u32;
        let cb = b.get_char(i) as u32;
        if ca < cb {
            return true;
        }
        if ca > cb {
            return false;
        }
        i = i + 1;
    }
}

/// Whether two character sequences spell the same text (equal code points).
pub open spec fn sp_chars_eq(a: Seq<char>, b: Seq<char>) -> bool {
    a.len() == b.len() && forall|k: int|
        0 <= k < a.len() ==> ((#[trigger] a[k]) as u32) == ((#[trigger] b[k]) as u32)
}

/// Executable twin of [`sp_chars_eq`].
pub fn chars_eq(a: &str, b: &str) -> (r: bool)
    ensures
        r == sp_chars_eq(a@, b@),
{
    let na: usize = a.unicode_len();
    let nb: usize = b.unicode_len();
    if na != nb {
        return false;
    }
    let mut i: usize = 0;
    while i < na
        invariant
            na == a@.len(),
            nb == b@.len(),
            na == nb,
            i <= na,
            forall|k: int| 0 <= k < i ==> ((#[trigger] a@[k]) as u32) == ((#[trigger] b@[k]) as u32),
        decreases na - i,
    {
        if (a.get_char(i) as u32) != (b.get_char(i) as u32) {
            return false;
        }
        i = i + 1;
    }
    true
}

/// `x` inserted into the lexicographically sorted, duplicate-free sequence
/// `v`, keeping it sorted and dropping `x` when it already spells an element.
pub open spec fn sp_insert_str(x: Seq<char>, v: Seq<Seq<char>>) -> Seq<Seq<char>>
    decreases v.len(),
{
    if v.len() == 0 {
        seq![x]
    } else if sp_chars_eq(x, v[0]) {
        v
    } else if sp_lex_lt(x, v[0]) {
        seq![x] + v
    } else {
        seq![v[0]] + sp_insert_str(x, v.skip(1))
    }
}

/// The elements of `v`, sorted lexicographically with duplicates dropped.
pub open spec fn sp_sorted_unique(v: Seq<Seq<char>>) -> Seq<Seq<char>>
    decreases v.len(),
{
    if v.len() == 0 {
        Seq::empty()
    } else {
        sp_insert_str(v[0], sp_sorted_unique(v.skip(1)))
    }
}

/// Every element is strictly below every later one.
pub open spec fn sp_strictly_sorted(v: Seq<Seq<char>>) -> bool {
    forall|a: int, b: int| 0 <= a < b < v.len() ==> sp_lex_lt(#[trigger] v[a], #[trigger] v[b])
}

/// Every element is strictly below the next one.
pub open spec fn sp_adj_sorted(v: Seq<Seq<char>>) -> bool {
    forall|k: int| 0 <= k < v.len() - 1 ==> sp_lex_lt(#[trigger] v[k], v[k + 1])
}

proof fn lemma_lex_lt_irrefl(a: Seq<char>, i: int)
    ensures
        !sp_lex_lt_from(a, a, i),
    decreases a.len() - i,
{
    if 0 <= i < a.len() {
        lemma_lex_lt_irrefl(a, i + 1);
    }
}

proof fn lemma_lex_lt_trans(a: Seq<char>, b: Seq<char>, c: Seq<char>, i: int)
    requires
        sp_lex_lt_from(a, b, i),
        sp_lex_lt_from(b, c, i),
    ensures
        sp_lex_lt_from(a, c, i),
    decreases a.len() - i,
{
    if 0 <= i < a.len() && i < b.len() && i < c.len() && (a[i] as u32) == (b[i] as u32) && (
    b[i] as u32) == (c[i] as u32) {
        lemma_lex_lt_trans(a, b, c, i + 1);
    }
}

proof fn lemma_lex_lt_total(a: Seq<char>, b: Seq<char>, i: int)
    requires
        0 <= i <= a.len(),
        i <= b.len(),
    ensures
        sp_lex_lt_from(a, b, i) || sp_lex_lt_from(b, a, i) || (a.len() == b.len() && forall|k: int|
            i <= k < a.len() ==> ((#[trigger] a[k]) as u32) == ((#[trigger] b[k]) as u32)),
    decreases a.len() - i,
{
    if i < a.len() && i < b.len() && (a[i] as u32) == (b[i] as u32) {
        lemma_lex_lt_total(a, b, i + 1);
    }
}

proof fn lemma_insert_str_adj_sorted(x: Seq<char>, v: Seq<Seq<char>>)
    requires
        sp_adj_sorted(v),
    ensures
        sp_adj_sorted(sp_insert_str(x, v)),
        sp_insert_str(x, v).len() >= 1,
        sp_insert_str(x, v)[0] == x || (v.len() > 0 && sp_insert_str(x, v)[0] == v[0]),
    decreases v.len(),
{
    let r = sp_insert_str(x, v);
    if v.len() == 0 {
        assert(r =~= seq![x]);
    } else if sp_chars_eq(x, v[0]) {
    } else if sp_lex_lt(x, v[0]) {
        assert(forall|k: int| 0 <= k < r.len() - 1 ==> sp_lex_lt(#[trigger] r[k], r[k + 1])) by {
            assert(forall|k: int| 1 <= k < r.len() - 1 ==> #[trigger] r[k] == v[k - 1] && r[k + 1] == v[k]);
        }
    } else {
        let tail = v.skip(1);
        assert(sp_adj_sorted(tail)) by {
            assert(forall|k: int| 0 <= k < tail.len() - 1 ==> #[trigger] tail[k] == v[k + 1]
                && tail[k + 1] == v[k + 2]);
        }
        lemma_insert_str_adj_sorted(x, tail);
        let rt = sp_insert_str(x, tail);
        assert(r =~= seq![v[0]] + rt);
        // the new head is below the inserted tail's head
        assert(sp_lex_lt(v[0], rt[0])) by {
            if rt[0] == x {
                lemma_lex_lt_total(x, v[0], 0);
                assert(!sp_chars_eq(x, v[0]));
                assert(!sp_lex_lt(x, v[0]));
            } else {
                assert(rt[0] == tail[0] && tail[0] == v[1]);
            }
        }
        assert(forall|k: int| 0 <= k < r.len() - 1 ==> sp_lex_lt(#[trigger] r[k], r[k + 1])) by {
            assert(forall|k: int| 1 <= k < r.len() - 1 ==> #[trigger] r[k] == rt[k - 1] && r[k + 1] == rt[k]);
        }
    }
}

proof fn lemma_adj_pair(v: Seq<Seq<char>>, a: int, b: int)
    requires
        sp_adj_sorted(v),
        0 <= a < b < v.len(),
    ensures
        sp_lex_lt(v[a], v[b]),
    decreases b - a,
{
    if b == a + 1 {
    } else {
        lemma_adj_pair(v, a, b - 1);
        lemma_lex_lt_trans(v[a], v[b - 1], v[b], 0);
    }
}

/// Sorting with duplicate dropping does what its name says: the result is
/// strictly sorted, so in particular its elements are pairwise distinct.
pub proof fn lemma_sorted_unique_strictly_sorted(v: Seq<Seq<char>>)
    ensures
        sp_strictly_sorted(sp_sorted_unique(v)),
        forall|a: int, b: int|
            0 <= a < b < sp_sorted_unique(v).len() ==> #[trigger] sp_sorted_unique(v)[a]
                != #[trigger] sp_sorted_unique(v)[b],
    decreases v.len(),
{
    let r = sp_sorted_unique(v);
    assert(sp_adj_sorted(r)) by {
        lemma_sorted_unique_adj(v);
    }
    assert forall|a: int, b: int| 0 <= a < b < r.len() implies sp_lex_lt(
        #[trigger] r[a],
        #[trigger] r[b],
    ) by {
        lemma_adj_pair(r, a, b);
    }
    assert forall|a: int, b: int| 0 <= a < b < r.len() implies #[trigger] r[a] != #[trigger] r[b] by {
        lemma_adj_pair(r, a, b);
        lemma_lex_lt_irrefl(r[a], 0);
    }
}

proof fn lemma_sorted_unique_adj(v: Seq<Seq<char>>)
    ensures
        sp_adj_sorted(sp_sorted_unique(v)),
    decreases v.len(),
{
    if v.len() == 0 {
    } else {
        lemma_sorted_unique_adj(v.skip(1));
        lemma_insert_str_adj_sorted(v[0], sp_sorted_unique(v.skip(1)));
    }
}

fn insert_str(x: String, v: Vec<String>) -> (r: Vec<String>)
    ensures
        r.deep_view() == sp_insert_str(x@, v.deep_view()),
    decreases v@.len(),
{
    let ghost old_dv = v.deep_view();
    if v.len() == 0 {
        let r = vec![x];
        proof {
            assert(r.deep_view() =~= seq![x@]);
        }
        r
    } else if chars_eq(x.as_str(), v[0].as_str()) {
        proof {
            assert(sp_chars_eq(x@, old_dv[0]));
        }
        v
    } else if lex_lt(x.as_str(), v[0].as_str()) {
        let mut r = v;
        r.insert(0, x);
        proof {
            assert(r.deep_view() =~= seq![x@] + old_dv);
        }
        r
    } else {
        let mut v = v;
        let first = v.remove(0);
        proof {
            assert(v.deep_view() =~= old_dv.skip(1));
        }
        let mut r = insert_str(x, v);
        let ghost mid_dv = r.deep_view();
        r.insert(0, first);
        proof {
            assert(r.deep_view() =~= seq![first@] + mid_dv);
        }
        r
    }
}

/// The strings of `v`, sorted lexicographically with duplicates dropped.
pub fn sorted_unique(v: Vec<String>) -> (r: Vec<String>)
    ensures
        r.deep_view() == sp_sorted_unique(v.deep_view()),
    decreases v@.len(),
{
    let ghost old_dv = v.deep_view();
    if v.len() == 0 {
        let r: Vec<String> = Vec::new();
        proof {
            assert(r.deep_view() =~= Seq::<Seq<char>>::empty());
        }
        r
    } else {
        let mut v = v;
        let first = v.remove(0);
        proof {
            assert(v.deep_view() =~= old_dv.skip(1));
        }
        let rest = sorted_unique(v);
        insert_str(first, rest)
    }
}

/// Joined text of `v[i..]` with `sep` between elements.
pub open spec fn sp_join_from(v: Seq<Seq<char>>, sep: Seq<char>, i: int) -> Seq<char>
    decreases v.len() - i,
{
    if i < 0 || i >= v.len() {
        Seq::empty()
    } else if i == v.len() - 1 {
        v[i]
    } else {
        v[i] + sep + sp_join_from(v, sep, i + 1)
    }
}

/// Joined text of `v` with `sep` between elements.
pub open spec fn sp_join(v: Seq<Seq<char>>, sep: Seq<char>) -> Seq<char> {
    sp_join_from(v, sep, 0)
}

fn join_from(v: &Vec<String>, sep: &str, i: usize) -> (r: String)
    requires
        i <= v@.len(),
    ensures
        r@ == sp_join_from(v.deep_view(), sep@, i as int),
    decreases v@.len() - i,
{
    if i >= v.len() {
        String::new()
    } else if i == v.len() - 1 {
        v[i].clone()
    } else {
        let mut r = v[i].clone();
        r.append(sep);
        r.append(join_from(v, sep, i + 1).as_str());
        r
    }
}

/// Executable twin of [`sp_join`].
pub fn join(v: &Vec<String>, sep: &str) -> (r: String)
    ensures
        r@ == sp_join(v.deep_view(), sep@),
{
    join_from(v, sep, 0)
}

/// The suffix of `s` from character position `k`, as an owned string.
pub fn suffix_from(s: &str, k: usize) -> (r: String)
    requires
        k <= s@.len(),
    ensures
        r@ == s@.skip(k as int),
{
    let n: usize = s.unicode_len();
    let r = s.substring_char(k, n).to_owned();
    proof {
        assert(s@.subrange(k as int, n as int) =~= s@.skip(k as int));
    }
    r
}

} // verus!
