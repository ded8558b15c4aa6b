//! The document grammar: a recursive-descent parser.
//!
//! Every construct of the grammar is defined once as a spec function over the
//! character sequence, and the executable parser is proved to return exactly
//! what the spec functions say.  The spec functions are therefore the
//! authoritative grammar definition; determinism of parsing is immediate.

use vstd::prelude::*;

use crate::model::Config;
use crate::model::ConfigFeature;
use crate::model::ConfigFeatureRepoOptionFlag;
use crate::model::ConfigFeatures;
use crate::model::ConfigSection;
use crate::model::ConfigType;
use crate::model::ConfigV;
use crate::model::ConfigValue;
use crate::model::FeatureV;
use crate::model::FeaturesV;
use crate::model::RepoFlagV;
use crate::model::SectionV;
use crate::model::ValueV;
use crate::text::chars_to_string;
use crate::text::to_chars;
use crate::scan::alnum1;
use crate::scan::digit1;
use crate::scan::find_hash;
use crate::scan::newlines0;
use crate::scan::opt_pos_eq;
use crate::scan::space0;
use crate::scan::sp_alnum1;
use crate::scan::sp_digit1;
use crate::scan::sp_find_hash;
use crate::scan::sp_newlines0;
use crate::scan::sp_space0;
use crate::scan::sp_tag;
use crate::scan::tag_at;

verus! {

broadcast use vstd::string::group_string_axioms;

// ---------------------------------------------------------------------------
// Names
// ---------------------------------------------------------------------------
/// After a leading alphanumeric run: zero or more `_`-joined alphanumeric
/// groups.
pub open spec fn sp_name_groups(s: Seq<char>, pos: int) -> int
    decreases s.len() - pos,
{
    if 0 <= pos < s.len() && s[pos] == '_' {
        match sp_alnum1(s, pos + 1) {
            Some(p) => if pos < p <= s.len() {
                sp_name_groups(s, p)
            } else {
                pos
            },
            None => pos,
        }
    } else {
        pos
    }
}

/// A bare name: an alphanumeric run, continued by underscore-joined
/// alphanumeric groups.
pub open spec fn sp_name(s: Seq<char>, pos: int) -> Option<int> {
    match sp_alnum1(s, pos) {
        Some(p) => Some(sp_name_groups(s, p)),
        None => None,
    }
}

/// Zero or more `.`-prefixed names (the tail of a dotted name).
pub open spec fn sp_dots_tail(s: Seq<char>, pos: int) -> int
    decreases s.len() - pos,
{
    if 0 <= pos < s.len() && s[pos] == '.' {
        match sp_name(s, pos + 1) {
            Some(p) => if pos < p <= s.len() {
                sp_dots_tail(s, p)
            } else {
                pos
            },
            None => pos,
        }
    } else {
        pos
    }
}

/// Zero or more further name components or bare dots (the tail of a partial
/// name, which tolerates a trailing dot).
pub open spec fn sp_partial_tail(s: Seq<char>, pos: int) -> int
    decreases s.len() - pos,
{
    if 0 <= pos < s.len() && s[pos] == '.' {
        sp_partial_tail(s, pos + 1)
    } else {
        match sp_name(s, pos) {
            Some(p) => if pos < p <= s.len() {
                sp_partial_tail(s, p)
            } else {
                pos
            },
            None => pos,
        }
    }
}

/// Leading spaces, then a name with at least one dot: `(end, start)` of the
/// name's span.
pub open spec fn sp_name_with_dot(s: Seq<char>, pos: int) -> Option<(int, int)> {
    let st = sp_space0(s, pos);
    match sp_name(s, st) {
        Some(p1) => if 0 <= p1 < s.len() && s[p1] == '.' {
            match sp_name(s, p1 + 1) {
                Some(p2) => Some((sp_dots_tail(s, p2), st)),
                None => None,
            }
        } else {
            None
        },
        None => None,
    }
}

/// Leading spaces, then a name with zero or more dots: `(end, start)`.
pub open spec fn sp_name_with_optional_dot(s: Seq<char>, pos: int) -> Option<(int, int)> {
    let st = sp_space0(s, pos);
    match sp_name(s, st) {
        Some(p1) => Some((sp_dots_tail(s, p1), st)),
        None => None,
    }
}

/// Leading spaces, then a partial name (dots may dangle): `(end, start)`.
pub open spec fn sp_partial_name(s: Seq<char>, pos: int) -> Option<(int, int)> {
    let st = sp_space0(s, pos);
    match sp_name(s, st) {
        Some(p1) => Some((sp_partial_tail(s, p1), st)),
        None => None,
    }
}

/// Whether `r` is the executable outcome of a spec span result `sp`.
pub open spec fn opt_span_eq(r: Option<(usize, usize)>, sp: Option<(int, int)>) -> bool {
    match r {
        Some((end, start)) => sp == Some((end as int, start as int)),
        None => sp is None,
    }
}

fn name_groups(s: &Vec<char>, pos: usize) -> (r: usize)
    requires
        pos <= s@.len(),
    ensures
        r as int == sp_name_groups(s@, pos as int),
        pos <= r <= s@.len(),
    decreases s@.len() - pos,
{
    if pos < s.len() && s[pos] == '_' {
        match alnum1(s, pos + 1) {
            Some(p) => name_groups(s, p),
            None => pos,
        }
    } else {
        pos
    }
}

/// A bare name: an alphanumeric run optionally continued by underscore-joined
/// alphanumeric groups.  Returns the position just after the name.
pub fn parse_name(s: &Vec<char>, pos: usize) -> (r: Option<usize>)
    requires
        pos <= s@.len(),
    ensures
        opt_pos_eq(r, sp_name(s@, pos as int)),
        r matches Some(p) ==> pos < p <= s@.len(),
{
    match alnum1(s, pos) {
        Some(p) => Some(name_groups(s, p)),
        None => None,
    }
}

fn dots_tail(s: &Vec<char>, pos: usize) -> (r: usize)
    requires
        pos <= s@.len(),
    ensures
        r as int == sp_dots_tail(s@, pos as int),
        pos <= r <= s@.len(),
    decreases s@.len() - pos,
{
    if pos < s.len() && s[pos] == '.' {
        match parse_name(s, pos + 1) {
            Some(p) => dots_tail(s, p),
            None => pos,
        }
    } else {
        pos
    }
}

fn partial_tail(s: &Vec<char>, pos: usize) -> (r: usize)
    requires
        pos <= s@.len(),
    ensures
        r as int == sp_partial_tail(s@, pos as int),
        pos <= r <= s@.len(),
    decreases s@.len() - pos,
{
    if pos < s.len() && s[pos] == '.' {
        partial_tail(s, pos + 1)
    } else {
        match parse_name(s, pos) {
            Some(p) => partial_tail(s, p),
            None => pos,
        }
    }
}

/// Leading spaces, then a dotted name with at least one dot.  Returns
/// `(end, start)`: the span of the name without the leading spaces.
pub fn parse_name_with_dot(s: &Vec<char>, pos: usize) -> (r: Option<(usize, usize)>)
    requires
        pos <= s@.len(),
    ensures
        opt_span_eq(r, sp_name_with_dot(s@, pos as int)),
        r matches Some((end, start)) ==> pos <= start < end <= s@.len(),
{
    let st = space0(s, pos);
    match parse_name(s, st) {
        Some(p1) => {
            if p1 < s.len() && s[p1] == '.' {
                match parse_name(s, p1 + 1) {
                    Some(p2) => Some((dots_tail(s, p2), st)),
                    None => None,
                }
            } else {
                None
            }
        },
        None => None,
    }
}

/// Leading spaces, then a dotted name with zero or more dots.
pub fn parse_name_with_optional_dot(s: &Vec<char>, pos: usize) -> (r: Option<(usize, usize)>)
    requires
        pos <= s@.len(),
    ensures
        opt_span_eq(r, sp_name_with_optional_dot(s@, pos as int)),
        r matches Some((end, start)) ==> pos <= start < end <= s@.len(),
{
    let st = space0(s, pos);
    match parse_name(s, st) {
        Some(p1) => Some((dots_tail(s, p1), st)),
        None => None,
    }
}

/// Leading spaces, then a partial name, which tolerates dangling dots.
pub fn parse_partial_name(s: &Vec<char>, pos: usize) -> (r: Option<(usize, usize)>)
    requires
        pos <= s@.len(),
    ensures
        opt_span_eq(r, sp_partial_name(s@, pos as int)),
        r matches Some((end, start)) ==> pos <= start < end <= s@.len(),
{
    let st = space0(s, pos);
    match parse_name(s, st) {
        Some(p1) => Some((partial_tail(s, p1), st)),
        None => None,
    }
}

// ---------------------------------------------------------------------------
// Quoted strings
// ---------------------------------------------------------------------------
/// Inside a quoted string after the opening quote: ordinary characters and
/// backslash-escaped quotes or backslashes, up to and including the closing
/// quote.
pub open spec fn sp_str_tail(s: Seq<char>, pos: int) -> Option<int>
    decreases s.len() - pos,
{
    if !(0 <= pos < s.len()) {
        None
    } else if s[pos] == '"' {
        Some(pos + 1)
    } else if s[pos] == '\\' {
        if pos + 2 <= s.len() && (s[pos + 1] == '"' || s[pos + 1] == '\\') {
            sp_str_tail(s, pos + 2)
        } else {
            None
        }
    } else {
        sp_str_tail(s, pos + 1)
    }
}

/// A quoted string literal, escapes preserved verbatim: the position after
/// the closing quote.
pub open spec fn sp_string(s: Seq<char>, pos: int) -> Option<int> {
    if 0 <= pos < s.len() && s[pos] == '"' {
        sp_str_tail(s, pos + 1)
    } else {
        None
    }
}

fn str_tail(s: &Vec<char>, pos: usize) -> (r: Option<usize>)
    requires
        pos <= s@.len(),
    ensures
        opt_pos_eq(r, sp_str_tail(s@, pos as int)),
        r matches Some(p) ==> pos < p <= s@.len(),
    decreases s@.len() - pos,
{
    if pos >= s.len() {
        None
    } else if s[pos] == '"' {
        Some(pos + 1)
    } else if s[pos] == '\\' {
        if pos + 1 < s.len() && (s[pos + 1] == '"' || s[pos + 1] == '\\') {
            str_tail(s, pos + 2)
        } else {
            None
        }
    } else {
        str_tail(s, pos + 1)
    }
}

/// A quoted string literal (escaped quotes and backslashes kept verbatim).
/// Returns the position just after the closing quote; the consumed span is
/// the literal, quotes included.
pub fn parse_string(s: &Vec<char>, pos: usize) -> (r: Option<usize>)
    requires
        pos <= s@.len(),
    ensures
        opt_pos_eq(r, sp_string(s@, pos as int)),
        r matches Some(p) ==> pos < p <= s@.len(),
{
    if pos < s.len() && s[pos] == '"' {
        str_tail(s, pos + 1)
    } else {
        None
    }
}

// ---------------------------------------------------------------------------
// Numeric expressions
// ---------------------------------------------------------------------------
/// An optional sign.
pub open spec fn sp_sign_opt(s: Seq<char>, pos: int) -> int {
    if 0 <= pos < s.len() && (s[pos] == '-' || s[pos] == '+') {
        pos + 1
    } else {
        pos
    }
}

/// An optional long/unsigned-long suffix.
pub open spec fn sp_num_suffix(s: Seq<char>, pos: int) -> int {
    match sp_tag(s, pos, "LL"@) {
        Some(p) => p,
        None => match sp_tag(s, pos, "ll"@) {
            Some(p) => p,
            None => match sp_tag(s, pos, "ULL"@) {
                Some(p) => p,
                None => match sp_tag(s, pos, "ull"@) {
                    Some(p) => p,
                    None => pos,
                },
            },
        },
    }
}

/// An unsigned numeric literal: digits with an optional fraction, or a
/// leading-dot fraction, with an optional suffix.
pub open spec fn sp_num_body(s: Seq<char>, pos: int) -> Option<int> {
    match sp_digit1(s, pos) {
        Some(d) => {
            let e = if 0 <= d < s.len() && s[d] == '.' {
                match sp_digit1(s, d + 1) {
                    Some(f) => f,
                    None => d,
                }
            } else {
                d
            };
            Some(sp_num_suffix(s, e))
        },
        None => {
            if 0 <= pos < s.len() && s[pos] == '.' {
                match sp_digit1(s, pos + 1) {
                    Some(f) => Some(sp_num_suffix(s, f)),
                    None => None,
                }
            } else {
                None
            }
        },
    }
}

/// A signed literal or one of the integer-maximum sentinels (after leading
/// spaces were consumed).
pub open spec fn sp_num_atom(s: Seq<char>, pos: int) -> Option<int> {
    let p = sp_sign_opt(s, pos);
    match sp_tag(s, p, "INT_MAX"@) {
        Some(q) => Some(q),
        None => match sp_tag(s, p, "INT64_MAX"@) {
            Some(q) => Some(q),
            None => sp_num_body(s, p),
        },
    }
}

/// One of the binary operators `* + - / << >>`.
pub open spec fn sp_op(s: Seq<char>, pos: int) -> Option<int> {
    if !(0 <= pos < s.len()) {
        None
    } else if s[pos] == '*' || s[pos] == '+' || s[pos] == '-' || s[pos] == '/' {
        Some(pos + 1)
    } else if s[pos] == '<' && pos + 1 < s.len() && s[pos + 1] == '<' {
        Some(pos + 2)
    } else if s[pos] == '>' && pos + 1 < s.len() && s[pos + 1] == '>' {
        Some(pos + 2)
    } else {
        None
    }
}

/// A numeric term: a parenthesized expression, or a signed literal; leading
/// spaces are part of the consumed span.
pub open spec fn sp_num(s: Seq<char>, pos: int) -> Option<int>
    decreases s.len() - pos, 0int,
{
    let p1 = sp_space0(s, pos);
    if pos <= p1 < s.len() && s[p1] == '(' {
        match sp_num_expr(s, p1 + 1) {
            Some(q) => {
                let q2 = sp_space0(s, q);
                if 0 <= q2 < s.len() && s[q2] == ')' {
                    Some(q2 + 1)
                } else {
                    sp_num_atom(s, p1)
                }
            },
            None => sp_num_atom(s, p1),
        }
    } else if pos <= p1 {
        sp_num_atom(s, p1)
    } else {
        None
    }
}

/// After a term: a left-to-right chain of operator-then-term steps, as long
/// as both match.
pub open spec fn sp_num_chain(s: Seq<char>, pos: int) -> int
    decreases s.len() - pos, 2int,
{
    let t = sp_space0(s, pos);
    if pos <= t <= s.len() {
        match sp_op(s, t) {
            Some(o) => match sp_num(s, o) {
                Some(q) => if pos < q <= s.len() {
                    sp_num_chain(s, q)
                } else {
                    pos
                },
                None => pos,
            },
            None => pos,
        }
    } else {
        pos
    }
}

/// A numeric expression: a term followed by a left-associative chain of
/// operator-joined terms.
pub open spec fn sp_num_expr(s: Seq<char>, pos: int) -> Option<int>
    decreases s.len() - pos, 1int,
{
    match sp_num(s, pos) {
        Some(q) => if pos < q <= s.len() {
            Some(sp_num_chain(s, q))
        } else {
            Some(q)
        },
        None => None,
    }
}

fn sign_opt(s: &Vec<char>, pos: usize) -> (r: usize)
    requires
        pos <= s@.len(),
    ensures
        r as int == sp_sign_opt(s@, pos as int),
        pos <= r <= s@.len(),
{
    if pos < s.len() && (s[pos] == '-' || s[pos] == '+') {
        pos + 1
    } else {
        pos
    }
}

fn num_suffix(s: &Vec<char>, pos: usize) -> (r: usize)
    requires
        pos <= s@.len(),
    ensures
        r as int == sp_num_suffix(s@, pos as int),
        pos <= r <= s@.len(),
{
    match tag_at(s, pos, "LL") {
        Some(p) => p,
        None => match tag_at(s, pos, "ll") {
            Some(p) => p,
            None => match tag_at(s, pos, "ULL") {
                Some(p) => p,
                None => match tag_at(s, pos, "ull") {
                    Some(p) => p,
                    None => pos,
                },
            },
        },
    }
}

fn num_body(s: &Vec<char>, pos: usize) -> (r: Option<usize>)
    requires
        pos <= s@.len(),
    ensures
        opt_pos_eq(r, sp_num_body(s@, pos as int)),
        r matches Some(p) ==> pos < p <= s@.len(),
{
    match digit1(s, pos) {
        Some(d) => {
            let e = if d < s.len() && s[d] == '.' {
                match digit1(s, d + 1) {
                    Some(f) => f,
                    None => d,
                }
            } else {
                d
            };
            Some(num_suffix(s, e))
        },
        None => {
            if pos < s.len() && s[pos] == '.' {
                match digit1(s, pos + 1) {
                    Some(f) => Some(num_suffix(s, f)),
                    None => None,
                }
            } else {
                None
            }
        },
    }
}

fn num_atom(s: &Vec<char>, pos: usize) -> (r: Option<usize>)
    requires
        pos <= s@.len(),
    ensures
        opt_pos_eq(r, sp_num_atom(s@, pos as int)),
        r matches Some(p) ==> pos < p <= s@.len(),
{
    proof {
        reveal_strlit("INT_MAX");
        reveal_strlit("INT64_MAX");
    }
    let p = sign_opt(s, pos);
    match tag_at(s, p, "INT_MAX") {
        Some(q) => Some(q),
        None => match tag_at(s, p, "INT64_MAX") {
            Some(q) => Some(q),
            None => num_body(s, p),
        },
    }
}

fn op_at(s: &Vec<char>, pos: usize) -> (r: Option<usize>)
    requires
        pos <= s@.len(),
    ensures
        opt_pos_eq(r, sp_op(s@, pos as int)),
        r matches Some(p) ==> pos < p <= s@.len(),
{
    if pos >= s.len() {
        None
    } else if s[pos] == '*' || s[pos] == '+' || s[pos] == '-' || s[pos] == '/' {
        Some(pos + 1)
    } else if s[pos] == '<' && pos + 1 < s.len() && s[pos + 1] == '<' {
        Some(pos + 2)
    } else if s[pos] == '>' && pos + 1 < s.len() && s[pos + 1] == '>' {
        Some(pos + 2)
    } else {
        None
    }
}

/// A numeric term (parenthesized expression or signed literal), leading
/// spaces included in the span.
pub fn parse_num(s: &Vec<char>, pos: usize) -> (r: Option<usize>)
    requires
        pos <= s@.len(),
    ensures
        opt_pos_eq(r, sp_num(s@, pos as int)),
        r matches Some(p) ==> pos < p <= s@.len(),
    decreases s@.len() - pos, 0int,
{
    let p1 = space0(s, pos);
    if p1 < s.len() && s[p1] == '(' {
        match parse_num_expr(s, p1 + 1) {
            Some(q) => {
                let q2 = space0(s, q);
                if q2 < s.len() && s[q2] == ')' {
                    Some(q2 + 1)
                } else {
                    num_atom(s, p1)
                }
            },
            None => num_atom(s, p1),
        }
    } else {
        num_atom(s, p1)
    }
}

fn num_chain(s: &Vec<char>, pos: usize) -> (r: usize)
    requires
        pos <= s@.len(),
    ensures
        r as int == sp_num_chain(s@, pos as int),
        pos <= r <= s@.len(),
    decreases s@.len() - pos, 2int,
{
    let t = space0(s, pos);
    match op_at(s, t) {
        Some(o) => match parse_num(s, o) {
            Some(q) => num_chain(s, q),
            None => pos,
        },
        None => pos,
    }
}

/// A numeric expression: a left-associative chain of terms joined by
/// `* + - / << >>`.  Returns the position just after the consumed span.
pub fn parse_num_expr(s: &Vec<char>, pos: usize) -> (r: Option<usize>)
    requires
        pos <= s@.len(),
    ensures
        opt_pos_eq(r, sp_num_expr(s@, pos as int)),
        r matches Some(p) ==> pos < p <= s@.len(),
    decreases s@.len() - pos, 1int,
{
    match parse_num(s, pos) {
        Some(q) => Some(num_chain(s, q)),
        None => None,
    }
}

/// `true` or `false`.
pub open spec fn sp_bool(s: Seq<char>, pos: int) -> Option<int> {
    match sp_tag(s, pos, "true"@) {
        Some(p) => Some(p),
        None => sp_tag(s, pos, "false"@),
    }
}

/// Executable twin of [`sp_bool`].
pub fn parse_bool(s: &Vec<char>, pos: usize) -> (r: Option<usize>)
    requires
        pos <= s@.len(),
    ensures
        opt_pos_eq(r, sp_bool(s@, pos as int)),
        r matches Some(p) ==> pos < p <= s@.len(),
{
    proof {
        reveal_strlit("true");
        reveal_strlit("false");
    }
    match tag_at(s, pos, "true") {
        Some(p) => Some(p),
        None => tag_at(s, pos, "false"),
    }
}

/// A constant: `{}`, a quoted string, a numeric expression, or a boolean.
pub open spec fn sp_constant(s: Seq<char>, pos: int) -> Option<int> {
    match sp_tag(s, pos, "{}"@) {
        Some(p) => Some(p),
        None => match sp_string(s, pos) {
            Some(p) => Some(p),
            None => match sp_num_expr(s, pos) {
                Some(p) => Some(p),
                None => sp_bool(s, pos),
            },
        },
    }
}

/// Executable twin of [`sp_constant`].
pub fn parse_constant_value(s: &Vec<char>, pos: usize) -> (r: Option<usize>)
    requires
        pos <= s@.len(),
    ensures
        opt_pos_eq(r, sp_constant(s@, pos as int)),
        r matches Some(p) ==> pos < p <= s@.len(),
{
    proof {
        reveal_strlit("{}");
    }
    match tag_at(s, pos, "{}") {
        Some(p) => Some(p),
        None => match parse_string(s, pos) {
            Some(p) => Some(p),
            None => match parse_num_expr(s, pos) {
                Some(p) => Some(p),
                None => parse_bool(s, pos),
            },
        },
    }
}

// ---------------------------------------------------------------------------
// Values and owners
// ---------------------------------------------------------------------------
/// The outcome of a cut-sensitive construct: parsed up to a position, an
/// ordinary mismatch (at the position of the failing construct) that
/// alternatives may recover from, or a hard failure (at the position of the
/// malformed text) that aborts the whole parse.
pub enum SpOut<T> {
    Parsed(int, T),
    NoParse(int),
    Abort(int),
}

/// A failed parse: the position of the failing construct, whether the failure
/// was past the point of no return (a malformed default value), and the trail
/// of construct names that were being attempted.
#[derive(Debug, Clone, PartialEq)]
pub struct ParseFail {
    pub pos: usize,
    pub hard: bool,
    pub trace: Vec<&'static str>,
}

impl ParseFail {
    /// Whether the parse failed at the very end of the input: the document
    /// ended while a construct was still open.
    pub fn is_incomplete(&self, input_len: usize) -> (r: bool)
        ensures
            r == (self.pos == input_len),
    {
        self.pos == input_len
    }
}

/// A default value: a constant, or the dotted name of another option.
pub open spec fn sp_value(s: Seq<char>, pos: int) -> Option<(int, ValueV)> {
    match sp_constant(s, pos) {
        Some(q) => Some((q, ValueV::Const(s.subrange(pos, q)))),
        None => match sp_name_with_dot(s, pos) {
            Some((end, st)) => Some((end, ValueV::Name(s.subrange(st, end)))),
            None => None,
        },
    }
}

/// Whether `r` is the executable outcome of the spec value result `sp`.
pub open spec fn opt_val_eq(r: Option<(usize, ConfigValue)>, sp: Option<(int, ValueV)>) -> bool {
    match r {
        Some((p, v)) => sp == Some((p as int, v@)),
        None => sp is None,
    }
}

/// Executable twin of [`sp_value`].
pub fn parse_value(s: &Vec<char>, pos: usize) -> (r: Option<(usize, ConfigValue)>)
    requires
        pos <= s@.len(),
    ensures
        opt_val_eq(r, sp_value(s@, pos as int)),
        r matches Some((p, _)) ==> pos < p <= s@.len(),
{
    match parse_constant_value(s, pos) {
        Some(q) => Some((q, ConfigValue::Const(chars_to_string(s, pos, q)))),
        None => match parse_name_with_dot(s, pos) {
            Some((end, st)) => Some((end, ConfigValue::Name(chars_to_string(s, st, end)))),
            None => None,
        },
    }
}

/// An optional ` = value` group.  A mismatched `= ` prefix means "no default";
/// a malformed value after `= ` aborts the parse.
pub open spec fn sp_default_value(s: Seq<char>, pos: int) -> SpOut<Option<ValueV>> {
    let t = sp_space0(s, pos);
    if 0 <= t < s.len() && s[t] == '=' {
        let u = sp_space0(s, t + 1);
        if u > t + 1 {
            match sp_value(s, u) {
                Some((q, v)) => SpOut::Parsed(q, Some(v)),
                None => SpOut::Abort(u),
            }
        } else {
            SpOut::Parsed(pos, None)
        }
    } else {
        SpOut::Parsed(pos, None)
    }
}

/// Whether `r` is the executable outcome of the spec default-value result.
pub open spec fn out_default_eq(
    r: Result<(usize, Option<ConfigValue>), ParseFail>,
    sp: SpOut<Option<ValueV>>,
) -> bool {
    match r {
        Ok((p, v)) => sp == SpOut::Parsed(p as int, v.deep_view()),
        Err(e) => sp == (if e.hard {
            SpOut::<Option<ValueV>>::Abort(e.pos as int)
        } else {
            SpOut::<Option<ValueV>>::NoParse(e.pos as int)
        }),
    }
}

/// Executable twin of [`sp_default_value`].
pub fn parse_default_value(s: &Vec<char>, pos: usize) -> (r: Result<
    (usize, Option<ConfigValue>),
    ParseFail,
>)
    requires
        pos <= s@.len(),
    ensures
        out_default_eq(r, sp_default_value(s@, pos as int)),
        r matches Ok((p, _)) ==> pos <= p <= s@.len(),
        r matches Err(e) ==> e.pos <= s@.len(),
        (match r {
            Err(e) => e.hard && e.trace.deep_view() == seq!["default value"@],
            Ok(_) => true,
        }),
{
    let t = space0(s, pos);
    if t < s.len() && s[t] == '=' {
        let u = space0(s, t + 1);
        if u > t + 1 {
            match parse_value(s, u) {
                Some((q, v)) => Ok((q, Some(v))),
                None => {
                    let f = ParseFail { pos: u, hard: true, trace: vec!["default value"] };
                    proof {
                        assert(f.trace.deep_view() =~= seq!["default value"@]);
                    }
                    Err(f)
                },
            }
        } else {
            Ok((pos, None))
        }
    } else {
        Ok((pos, None))
    }
}

/// The owner group `, Owner`: the sentinel owner name reads as "no owner".
pub open spec fn sp_owner(s: Seq<char>, pos: int) -> Option<(int, Option<Seq<char>>)> {
    let t = sp_space0(s, pos);
    if 0 <= t < s.len() && s[t] == ',' {
        let u = sp_space0(s, t + 1);
        match sp_alnum1(s, u) {
            Some(p) => {
                let span = s.subrange(u, p);
                Some((p, if span == "UNKNOWN"@ {
                    None
                } else {
                    Some(span)
                }))
            },
            None => None,
        }
    } else {
        None
    }
}

/// Whether `r` is the executable outcome of the spec owner result.
pub open spec fn opt_owner_eq(
    r: Option<(usize, Option<String>)>,
    sp: Option<(int, Option<Seq<char>>)>,
) -> bool {
    match r {
        Some((p, o)) => sp == Some((p as int, o.deep_view())),
        None => sp is None,
    }
}

/// Executable twin of [`sp_owner`].
pub fn parse_owner(s: &Vec<char>, pos: usize) -> (r: Option<(usize, Option<String>)>)
    requires
        pos <= s@.len(),
    ensures
        opt_owner_eq(r, sp_owner(s@, pos as int)),
        r matches Some((p, _)) ==> pos < p <= s@.len(),
{
    proof {
        reveal_strlit("UNKNOWN");
    }
    let t = space0(s, pos);
    if t < s.len() && s[t] == ',' {
        let u = space0(s, t + 1);
        match alnum1(s, u) {
            Some(p) => {
                match tag_at(s, u, "UNKNOWN") {
                    Some(q) => {
                        if q == p {
                            proof {
                                assert(s@.subrange(u as int, p as int) == "UNKNOWN"@);
                            }
                            Some((p, None))
                        } else {
                            proof {
                                assert(s@.subrange(u as int, p as int).len() != "UNKNOWN"@.len());
                            }
                            Some((p, Some(chars_to_string(s, u, p))))
                        }
                    },
                    None => {
                        proof {
                            if s@.subrange(u as int, p as int) == "UNKNOWN"@ {
                                assert(p == u + 7);
                                assert(sp_tag(s@, u as int, "UNKNOWN"@) is Some);
                            }
                        }
                        Some((p, Some(chars_to_string(s, u, p))))
                    },
                }
            },
            None => None,
        }
    } else {
        None
    }
}

// ---------------------------------------------------------------------------
// Features
// ---------------------------------------------------------------------------
/// One feature keyword, with its parenthesized argument where it takes one.
pub open spec fn sp_feature(s: Seq<char>, pos: int) -> Option<(int, FeatureV)> {
    match sp_tag(s, pos, "private"@) {
        Some(p) => Some((p, FeatureV::Private)),
        None => match sp_tag(s, pos, "globaldata"@) {
            Some(p) => Some((p, FeatureV::GlobalData)),
            None => match sp_tag(s, pos, "unitcacheflag"@) {
                Some(p) => Some((p, FeatureV::UnitCacheFlag)),
                None => match sp_tag(s, pos, "repooptionsflag("@) {
                    Some(p) => sp_repo_flag_args(s, p),
                    None => match sp_tag(s, pos, "nobind"@) {
                        Some(p) => Some((p, FeatureV::NoBind)),
                        None => match sp_tag(s, pos, "compileroption("@) {
                            Some(p) => match sp_name_arg(s, p) {
                                Some((q, a)) => Some((q, FeatureV::CompilerOption(a))),
                                None => None,
                            },
                            None => match sp_tag(s, pos, "lookuppath("@) {
                                Some(p) => match sp_name_arg(s, p) {
                                    Some((q, a)) => Some((q, FeatureV::LookupPath(a))),
                                    None => None,
                                },
                                None => match sp_tag(s, pos, "postprocess"@) {
                                    Some(p) => Some((p, FeatureV::PostProcess)),
                                    None => match sp_tag(s, pos, "staticdefault("@) {
                                        Some(p) => match sp_const_arg(s, p) {
                                            Some((q, a)) => Some((q, FeatureV::StaticDefault(a))),
                                            None => None,
                                        },
                                        None => None,
                                    },
                                },
                            },
                        },
                    },
                },
            },
        },
    }
}

/// A dotted-name argument up to the closing parenthesis.
pub open spec fn sp_name_arg(s: Seq<char>, pos: int) -> Option<(int, Seq<char>)> {
    match sp_name_with_optional_dot(s, pos) {
        Some((end, st)) => if 0 <= end < s.len() && s[end] == ')' {
            Some((end + 1, s.subrange(st, end)))
        } else {
            None
        },
        None => None,
    }
}

/// A constant argument up to the closing parenthesis.
pub open spec fn sp_const_arg(s: Seq<char>, pos: int) -> Option<(int, Seq<char>)> {
    match sp_constant(s, pos) {
        Some(end) => if 0 <= end < s.len() && s[end] == ')' {
            Some((end + 1, s.subrange(pos, end)))
        } else {
            None
        },
        None => None,
    }
}

/// The arguments of `repooptionsflag(...)`: a prefix name, an optional
/// `, constant` library default, and the closing parenthesis.
pub open spec fn sp_repo_flag_args(s: Seq<char>, pos: int) -> Option<(int, FeatureV)> {
    match sp_name_with_optional_dot(s, pos) {
        Some((e1, st1)) => {
            let prefix = s.subrange(st1, e1);
            let t = sp_space0(s, e1);
            let dv = if 0 <= t < s.len() && s[t] == ',' {
                let u = sp_space0(s, t + 1);
                match sp_constant(s, u) {
                    Some(e2) => Some((e2, s.subrange(u, e2))),
                    None => None,
                }
            } else {
                None
            };
            match dv {
                Some((e2, d)) => if 0 <= e2 < s.len() && s[e2] == ')' {
                    Some((e2 + 1, FeatureV::RepoOptionsFlag(prefix, Some(d))))
                } else {
                    None
                },
                None => if 0 <= e1 < s.len() && s[e1] == ')' {
                    Some((e1 + 1, FeatureV::RepoOptionsFlag(prefix, None)))
                } else {
                    None
                },
            }
        },
        None => None,
    }
}

/// A `|`-separated feature list (at least one feature).
pub open spec fn sp_feature_list(s: Seq<char>, pos: int) -> Option<(int, Seq<FeatureV>)>
    decreases s.len() - pos,
{
    match sp_feature(s, pos) {
        Some((p, f)) => if pos < p < s.len() && s[p] == '|' {
            match sp_feature_list(s, p + 1) {
                Some((q, fs)) => Some((q, seq![f] + fs)),
                None => Some((p, seq![f])),
            }
        } else {
            Some((p, seq![f]))
        },
        None => None,
    }
}

/// The empty feature set.
pub open spec fn sp_features_default() -> FeaturesV {
    FeaturesV {
        is_repo_specific: false,
        is_request_level: false,
        is_private: false,
        is_global_data: false,
        is_unit_cache_flag: false,
        repo_options_flag: None,
        compiler_option: None,
        lookup_path: None,
        has_no_bind: false,
        has_post_process: false,
        static_default: None,
    }
}

/// One feature keyword folded into the accumulated feature set.
pub open spec fn sp_apply_feature(acc: FeaturesV, f: FeatureV) -> FeaturesV {
    match f {
        FeatureV::Private => FeaturesV { is_private: true, ..acc },
        FeatureV::GlobalData => FeaturesV { is_global_data: true, ..acc },
        FeatureV::UnitCacheFlag => FeaturesV { is_unit_cache_flag: true, ..acc },
        FeatureV::RepoOptionsFlag(prefix, d) => FeaturesV {
            repo_options_flag: Some(RepoFlagV { prefix: prefix, default_value: d }),
            ..acc
        },
        FeatureV::CompilerOption(n) => FeaturesV { compiler_option: Some(n), ..acc },
        FeatureV::LookupPath(n) => FeaturesV { lookup_path: Some(n), ..acc },
        FeatureV::NoBind => FeaturesV { has_no_bind: true, ..acc },
        FeatureV::PostProcess => FeaturesV { has_post_process: true, ..acc },
        FeatureV::StaticDefault(v) => FeaturesV { static_default: Some(v), ..acc },
    }
}

/// The feature keywords from index `i` on, folded left into `acc`.
pub open spec fn sp_accumulate(fs: Seq<FeatureV>, i: int, acc: FeaturesV) -> FeaturesV
    decreases fs.len() - i,
{
    if 0 <= i < fs.len() {
        sp_accumulate(fs, i + 1, sp_apply_feature(acc, fs[i]))
    } else {
        acc
    }
}

/// The optional `, feature|feature|...` group, folded into a feature set.
/// A mismatch anywhere leaves the position unchanged and the set empty.
pub open spec fn sp_features(s: Seq<char>, pos: int) -> (int, FeaturesV) {
    let t = sp_space0(s, pos);
    if 0 <= t < s.len() && s[t] == ',' {
        let u = sp_space0(s, t + 1);
        match sp_feature_list(s, u) {
            Some((q, fs)) => (q, sp_accumulate(fs, 0, sp_features_default())),
            None => (pos, sp_features_default()),
        }
    } else {
        (pos, sp_features_default())
    }
}

/// Whether `r` is the executable outcome of the spec feature result.
pub open spec fn opt_feat_eq(
    r: Option<(usize, ConfigFeature)>,
    sp: Option<(int, FeatureV)>,
) -> bool {
    match r {
        Some((p, f)) => sp == Some((p as int, f@)),
        None => sp is None,
    }
}

fn name_arg(s: &Vec<char>, pos: usize) -> (r: Option<(usize, String)>)
    requires
        pos <= s@.len(),
    ensures
        (match r {
            Some((p, a)) => sp_name_arg(s@, pos as int) == Some((p as int, a@)),
            None => sp_name_arg(s@, pos as int) is None,
        }),
        r matches Some((p, _)) ==> pos < p <= s@.len(),
{
    match parse_name_with_optional_dot(s, pos) {
        Some((end, st)) => {
            if end < s.len() && s[end] == ')' {
                Some((end + 1, chars_to_string(s, st, end)))
            } else {
                None
            }
        },
        None => None,
    }
}

fn const_arg(s: &Vec<char>, pos: usize) -> (r: Option<(usize, String)>)
    requires
        pos <= s@.len(),
    ensures
        (match r {
            Some((p, a)) => sp_const_arg(s@, pos as int) == Some((p as int, a@)),
            None => sp_const_arg(s@, pos as int) is None,
        }),
        r matches Some((p, _)) ==> pos < p <= s@.len(),
{
    match parse_constant_value(s, pos) {
        Some(end) => {
            if end < s.len() && s[end] == ')' {
                Some((end + 1, chars_to_string(s, pos, end)))
            } else {
                None
            }
        },
        None => None,
    }
}

fn repo_flag_args(s: &Vec<char>, pos: usize) -> (r: Option<(usize, ConfigFeature)>)
    requires
        pos <= s@.len(),
    ensures
        opt_feat_eq(r, sp_repo_flag_args(s@, pos as int)),
        r matches Some((p, _)) ==> pos < p <= s@.len(),
{
    match parse_name_with_optional_dot(s, pos) {
        Some((e1, st1)) => {
            let prefix = chars_to_string(s, st1, e1);
            let t = space0(s, e1);
            let dv: Option<(usize, String)> = if t < s.len() && s[t] == ',' {
                let u = space0(s, t + 1);
                match parse_constant_value(s, u) {
                    Some(e2) => Some((e2, chars_to_string(s, u, e2))),
                    None => None,
                }
            } else {
                None
            };
            match dv {
                Some((e2, d)) => {
                    if e2 < s.len() && s[e2] == ')' {
                        Some((e2 + 1, ConfigFeature::RepoOptionsFlag(prefix, Some(d))))
                    } else {
                        None
                    }
                },
                None => {
                    if e1 < s.len() && s[e1] == ')' {
                        Some((e1 + 1, ConfigFeature::RepoOptionsFlag(prefix, None)))
                    } else {
                        None
                    }
                },
            }
        },
        None => None,
    }
}

/// Executable twin of [`sp_feature`].
pub fn parse_feature(s: &Vec<char>, pos: usize) -> (r: Option<(usize, ConfigFeature)>)
    requires
        pos <= s@.len(),
    ensures
        opt_feat_eq(r, sp_feature(s@, pos as int)),
        r matches Some((p, _)) ==> pos < p <= s@.len(),
{
    proof {
        reveal_strlit("private");
        reveal_strlit("globaldata");
        reveal_strlit("unitcacheflag");
        reveal_strlit("repooptionsflag(");
        reveal_strlit("nobind");
        reveal_strlit("compileroption(");
        reveal_strlit("lookuppath(");
        reveal_strlit("postprocess");
        reveal_strlit("staticdefault(");
    }
    match tag_at(s, pos, "private") {
        Some(p) => Some((p, ConfigFeature::Private)),
        None => match tag_at(s, pos, "globaldata") {
            Some(p) => Some((p, ConfigFeature::GlobalData)),
            None => match tag_at(s, pos, "unitcacheflag") {
                Some(p) => Some((p, ConfigFeature::UnitCacheFlag)),
                None => match tag_at(s, pos, "repooptionsflag(") {
                    Some(p) => repo_flag_args(s, p),
                    None => match tag_at(s, pos, "nobind") {
                        Some(p) => Some((p, ConfigFeature::NoBind)),
                        None => match tag_at(s, pos, "compileroption(") {
                            Some(p) => match name_arg(s, p) {
                                Some((q, a)) => Some((q, ConfigFeature::CompilerOption(a))),
                                None => None,
                            },
                            None => match tag_at(s, pos, "lookuppath(") {
                                Some(p) => match name_arg(s, p) {
                                    Some((q, a)) => Some((q, ConfigFeature::LookupPath(a))),
                                    None => None,
                                },
                                None => match tag_at(s, pos, "postprocess") {
                                    Some(p) => Some((p, ConfigFeature::PostProcess)),
                                    None => match tag_at(s, pos, "staticdefault(") {
                                        Some(p) => match const_arg(s, p) {
                                            Some((q, a)) => Some((
                                                q,
                                                ConfigFeature::StaticDefault(a),
                                            )),
                                            None => None,
                                        },
                                        None => None,
                                    },
                                },
                            },
                        },
                    },
                },
            },
        },
    }
}

fn feature_list(s: &Vec<char>, pos: usize) -> (r: Option<(usize, Vec<ConfigFeature>)>)
    requires
        pos <= s@.len(),
    ensures
        (match r {
            Some((p, fs)) => sp_feature_list(s@, pos as int) == Some((p as int, fs.deep_view())),
            None => sp_feature_list(s@, pos as int) is None,
        }),
        r matches Some((p, _)) ==> pos < p <= s@.len(),
    decreases s@.len() - pos,
{
    match parse_feature(s, pos) {
        Some((p, f)) => {
            if p < s.len() && s[p] == '|' {
                match feature_list(s, p + 1) {
                    Some((q, mut fs)) => {
                        fs.insert(0, f);
                        proof {
                            assert(fs.deep_view() =~= seq![f@] + fs.deep_view().skip(1));
                        }
                        Some((q, fs))
                    },
                    None => {
                        let fs = vec![f];
                        proof {
                            assert(fs.deep_view() =~= seq![f@]);
                        }
                        Some((p, fs))
                    },
                }
            } else {
                let fs = vec![f];
                proof {
                    assert(fs.deep_view() =~= seq![f@]);
                }
                Some((p, fs))
            }
        },
        None => None,
    }
}

fn apply_feature(acc: ConfigFeatures, f: &ConfigFeature) -> (r: ConfigFeatures)
    ensures
        r@ == sp_apply_feature(acc@, f@),
{
    match f {
        ConfigFeature::Private => ConfigFeatures { is_private: true, ..acc },
        ConfigFeature::GlobalData => ConfigFeatures { is_global_data: true, ..acc },
        ConfigFeature::UnitCacheFlag => ConfigFeatures { is_unit_cache_flag: true, ..acc },
        ConfigFeature::RepoOptionsFlag(prefix, d) => ConfigFeatures {
            repo_options_flag: Some(
                ConfigFeatureRepoOptionFlag { prefix: prefix.clone(), default_value: d.clone() },
            ),
            ..acc
        },
        ConfigFeature::CompilerOption(n) => ConfigFeatures {
            compiler_option: Some(n.clone()),
            ..acc
        },
        ConfigFeature::LookupPath(n) => ConfigFeatures { lookup_path: Some(n.clone()), ..acc },
        ConfigFeature::NoBind => ConfigFeatures { has_no_bind: true, ..acc },
        ConfigFeature::PostProcess => ConfigFeatures { has_post_process: true, ..acc },
        ConfigFeature::StaticDefault(v) => ConfigFeatures { static_default: Some(v.clone()), ..acc },
    }
}

/// The empty feature set.
pub fn features_default() -> (r: ConfigFeatures)
    ensures
        r@ == sp_features_default(),
{
    ConfigFeatures {
        is_repo_specific: false,
        is_request_level: false,
        is_private: false,
        is_global_data: false,
        is_unit_cache_flag: false,
        repo_options_flag: None,
        compiler_option: None,
        lookup_path: None,
        has_no_bind: false,
        has_post_process: false,
        static_default: None,
    }
}

/// Executable twin of [`sp_features`].
pub fn parse_features(s: &Vec<char>, pos: usize) -> (r: (usize, ConfigFeatures))
    requires
        pos <= s@.len(),
    ensures
        ({
            let (p, fv) = sp_features(s@, pos as int);
            r.0 as int == p && r.1@ == fv
        }),
        pos <= r.0 <= s@.len(),
{
    let t = space0(s, pos);
    if t < s.len() && s[t] == ',' {
        let u = space0(s, t + 1);
        match feature_list(s, u) {
            Some((q, fs)) => {
                let mut acc = features_default();
                let mut i: usize = 0;
                while i < fs.len()
                    invariant
                        i <= fs.len(),
                        sp_accumulate(fs.deep_view(), 0, sp_features_default()) == sp_accumulate(
                            fs.deep_view(),
                            i as int,
                            acc@,
                        ),
                    decreases fs.len() - i,
                {
                    acc = apply_feature(acc, &fs[i]);
                    i = i + 1;
                }
                (q, acc)
            },
            None => (pos, features_default()),
        }
    } else {
        (pos, features_default())
    }
}

// ---------------------------------------------------------------------------
// Descriptions
// ---------------------------------------------------------------------------
/// The end of the line text starting at `pos`: the first carriage return,
/// newline, or the end of input.
pub open spec fn sp_line_end(s: Seq<char>, pos: int) -> int
    decreases s.len() - pos,
{
    if pos < 0 || pos >= s.len() {
        pos
    } else if s[pos] == '\r' || s[pos] == '\n' {
        pos
    } else {
        sp_line_end(s, pos + 1)
    }
}

/// One description line: two spaces of indentation, the line text, and the
/// terminating newline.  The text is the line without indentation.
pub open spec fn sp_line(s: Seq<char>, pos: int) -> Option<(int, Seq<char>)> {
    if 0 <= pos && pos + 2 <= s.len() && s[pos] == ' ' && s[pos + 1] == ' ' {
        let e = sp_line_end(s, pos + 2);
        if 0 <= e < s.len() && s[e] == '\n' {
            Some((e + 1, s.subrange(pos + 2, e)))
        } else {
            None
        }
    } else {
        None
    }
}

/// One or more description lines, joined with single newlines.
pub open spec fn sp_desc_lines(s: Seq<char>, pos: int) -> Option<(int, Seq<char>)>
    decreases s.len() - pos,
{
    match sp_line(s, pos) {
        Some((p, l)) => if pos < p <= s.len() {
            match sp_desc_lines(s, p) {
                Some((q, rest)) => Some((q, l + "\n"@ + rest)),
                None => Some((p, l)),
            }
        } else {
            Some((p, l))
        },
        None => None,
    }
}

/// A description block: after exactly two newlines, one or more indented
/// lines; any other run of blank lines is consumed as "no description".
pub open spec fn sp_description(s: Seq<char>, pos: int) -> (int, Option<Seq<char>>) {
    if 0 <= pos && pos + 2 <= s.len() && s[pos] == '\n' && s[pos + 1] == '\n' {
        match sp_desc_lines(s, pos + 2) {
            Some((p, d)) => (p, Some(d)),
            None => (pos + 2, None),
        }
    } else {
        (sp_newlines0(s, pos), None)
    }
}

fn line_end(s: &Vec<char>, pos: usize) -> (r: usize)
    requires
        pos <= s@.len(),
    ensures
        r as int == sp_line_end(s@, pos as int),
        pos <= r <= s@.len(),
{
    let n = s.len();
    let mut p = pos;
    while p < n && s[p] != '\r' && s[p] != '\n'
        invariant
            pos <= p <= n,
            n == s@.len(),
            sp_line_end(s@, pos as int) == sp_line_end(s@, p as int),
        decreases n - p,
    {
        p = p + 1;
    }
    p
}

fn desc_line(s: &Vec<char>, pos: usize) -> (r: Option<(usize, String)>)
    requires
        pos <= s@.len(),
    ensures
        (match r {
            Some((p, l)) => sp_line(s@, pos as int) == Some((p as int, l@)),
            None => sp_line(s@, pos as int) is None,
        }),
        r matches Some((p, _)) ==> pos < p <= s@.len(),
{
    if pos < s.len() && pos + 1 < s.len() && s[pos] == ' ' && s[pos + 1] == ' ' {
        let e = line_end(s, pos + 2);
        if e < s.len() && s[e] == '\n' {
            Some((e + 1, chars_to_string(s, pos + 2, e)))
        } else {
            None
        }
    } else {
        None
    }
}

fn desc_lines(s: &Vec<char>, pos: usize) -> (r: Option<(usize, String)>)
    requires
        pos <= s@.len(),
    ensures
        (match r {
            Some((p, d)) => sp_desc_lines(s@, pos as int) == Some((p as int, d@)),
            None => sp_desc_lines(s@, pos as int) is None,
        }),
        r matches Some((p, _)) ==> pos < p <= s@.len(),
    decreases s@.len() - pos,
{
    match desc_line(s, pos) {
        Some((p, l)) => {
            match desc_lines(s, p) {
                Some((q, rest)) => {
                    let mut d = l;
                    d.append("\n");
                    d.append(rest.as_str());
                    Some((q, d))
                },
                None => Some((p, l)),
            }
        },
        None => None,
    }
}

/// Executable twin of [`sp_description`].
pub fn parse_description(s: &Vec<char>, pos: usize) -> (r: (usize, Option<String>))
    requires
        pos <= s@.len(),
    ensures
        ({
            let (p, d) = sp_description(s@, pos as int);
            r.0 as int == p && r.1.deep_view() == d
        }),
        pos <= r.0 <= s@.len(),
{
    if pos < s.len() && pos + 1 < s.len() && s[pos] == '\n' && s[pos + 1] == '\n' {
        match desc_lines(s, pos + 2) {
            Some((p, d)) => (p, Some(d)),
            None => (pos + 2, None),
        }
    } else {
        (newlines0(s, pos), None)
    }
}

// ---------------------------------------------------------------------------
// Types
// ---------------------------------------------------------------------------
/// A type keyword, more specific keywords first so that no keyword shadows a
/// longer one that it prefixes.
pub open spec fn sp_type(s: Seq<char>, pos: int) -> Option<(int, ConfigType)> {
    let p = sp_space0(s, pos);
    match sp_tag(s, p, "bool"@) {
        Some(q) => Some((q, ConfigType::Bool)),
        None => match sp_tag(s, p, "int8_t"@) {
            Some(q) => Some((q, ConfigType::Int8t)),
            None => match sp_tag(s, p, "int16_t"@) {
                Some(q) => Some((q, ConfigType::Int16t)),
                None => match sp_tag(s, p, "int32_t"@) {
                    Some(q) => Some((q, ConfigType::Int32t)),
                    None => match sp_tag(s, p, "int64_t"@) {
                        Some(q) => Some((q, ConfigType::Int64t)),
                        None => match sp_tag(s, p, "int"@) {
                            Some(q) => Some((q, ConfigType::Int)),
                            None => match sp_tag(s, p, "double"@) {
                                Some(q) => Some((q, ConfigType::Double)),
                                None => match sp_tag(s, p, "uint8_t"@) {
                                    Some(q) => Some((q, ConfigType::UInt8t)),
                                    None => match sp_tag(s, p, "uint16_t"@) {
                                        Some(q) => Some((q, ConfigType::UInt16t)),
                                        None => match sp_tag(s, p, "uint32_t"@) {
                                            Some(q) => Some((q, ConfigType::UInt32t)),
                                            None => match sp_tag(s, p, "uint64_t"@) {
                                                Some(q) => Some((q, ConfigType::UInt64t)),
                                                None => sp_type_rest(s, p),
                                            },
                                        },
                                    },
                                },
                            },
                        },
                    },
                },
            },
        },
    }
}

/// The standard-library and container type keywords.
pub open spec fn sp_type_rest(s: Seq<char>, p: int) -> Option<(int, ConfigType)> {
    match sp_tag(s, p, "std::string"@) {
        Some(q) => Some((q, ConfigType::StdString)),
        None => match sp_tag(s, p, "std::vector<std::string>"@) {
            Some(q) => Some((q, ConfigType::StdVectorStdString)),
            None => match sp_tag(s, p, "std::set<std::string>"@) {
                Some(q) => Some((q, ConfigType::StdSetStdString)),
                None => match sp_tag(s, p, "std::map<std::string,std::string>"@) {
                    Some(q) => Some((q, ConfigType::StdMapStdStringStdString)),
                    None => match sp_tag(s, p, "boost::container::flat_set<std::string>"@) {
                        Some(q) => Some((q, ConfigType::BoostFlatSetStdString)),
                        None => None,
                    },
                },
            },
        },
    }
}

/// Executable twin of [`sp_type`].
pub fn parse_type(s: &Vec<char>, pos: usize) -> (r: Option<(usize, ConfigType)>)
    requires
        pos <= s@.len(),
    ensures
        (match r {
            Some((p, t)) => sp_type(s@, pos as int) == Some((p as int, t)),
            None => sp_type(s@, pos as int) is None,
        }),
        r matches Some((p, _)) ==> pos < p <= s@.len(),
{
    proof {
        reveal_strlit("bool");
        reveal_strlit("int8_t");
        reveal_strlit("int16_t");
        reveal_strlit("int32_t");
        reveal_strlit("int64_t");
        reveal_strlit("int");
        reveal_strlit("double");
        reveal_strlit("uint8_t");
        reveal_strlit("uint16_t");
        reveal_strlit("uint32_t");
        reveal_strlit("uint64_t");
        reveal_strlit("std::string");
        reveal_strlit("std::vector<std::string>");
        reveal_strlit("std::set<std::string>");
        reveal_strlit("std::map<std::string,std::string>");
        reveal_strlit("boost::container::flat_set<std::string>");
    }
    let p = space0(s, pos);
    match tag_at(s, p, "bool") {
        Some(q) => Some((q, ConfigType::Bool)),
        None => match tag_at(s, p, "int8_t") {
            Some(q) => Some((q, ConfigType::Int8t)),
            None => match tag_at(s, p, "int16_t") {
                Some(q) => Some((q, ConfigType::Int16t)),
                None => match tag_at(s, p, "int32_t") {
                    Some(q) => Some((q, ConfigType::Int32t)),
                    None => match tag_at(s, p, "int64_t") {
                        Some(q) => Some((q, ConfigType::Int64t)),
                        None => match tag_at(s, p, "int") {
                            Some(q) => Some((q, ConfigType::Int)),
                            None => match tag_at(s, p, "double") {
                                Some(q) => Some((q, ConfigType::Double)),
                                None => match tag_at(s, p, "uint8_t") {
                                    Some(q) => Some((q, ConfigType::UInt8t)),
                                    None => match tag_at(s, p, "uint16_t") {
                                        Some(q) => Some((q, ConfigType::UInt16t)),
                                        None => match tag_at(s, p, "uint32_t") {
                                            Some(q) => Some((q, ConfigType::UInt32t)),
                                            None => match tag_at(s, p, "uint64_t") {
                                                Some(q) => Some((q, ConfigType::UInt64t)),
                                                None => parse_type_rest(s, p),
                                            },
                                        },
                                    },
                                },
                            },
                        },
                    },
                },
            },
        },
    }
}

fn parse_type_rest(s: &Vec<char>, p: usize) -> (r: Option<(usize, ConfigType)>)
    requires
        p <= s@.len(),
    ensures
        (match r {
            Some((q, t)) => sp_type_rest(s@, p as int) == Some((q as int, t)),
            None => sp_type_rest(s@, p as int) is None,
        }),
        r matches Some((q, _)) ==> p < q <= s@.len(),
{
    proof {
        reveal_strlit("std::string");
        reveal_strlit("std::vector<std::string>");
        reveal_strlit("std::set<std::string>");
        reveal_strlit("std::map<std::string,std::string>");
        reveal_strlit("boost::container::flat_set<std::string>");
    }
    match tag_at(s, p, "std::string") {
        Some(q) => Some((q, ConfigType::StdString)),
        None => match tag_at(s, p, "std::vector<std::string>") {
            Some(q) => Some((q, ConfigType::StdVectorStdString)),
            None => match tag_at(s, p, "std::set<std::string>") {
                Some(q) => Some((q, ConfigType::StdSetStdString)),
                None => match tag_at(s, p, "std::map<std::string,std::string>") {
                    Some(q) => Some((q, ConfigType::StdMapStdStringStdString)),
                    None => match tag_at(s, p, "boost::container::flat_set<std::string>") {
                        Some(q) => Some((q, ConfigType::BoostFlatSetStdString)),
                        None => None,
                    },
                },
            },
        },
    }
}

// ---------------------------------------------------------------------------
// Options, sections, the whole document
// ---------------------------------------------------------------------------
/// One option declaration: an optional leading newline, `- `, the type, the
/// dotted name, and the optional default, owner, features and description.
pub open spec fn sp_config(s: Seq<char>, pos: int) -> SpOut<ConfigV> {
    let p0 = if 0 <= pos < s.len() && s[pos] == '\n' {
        pos + 1
    } else {
        pos
    };
    if 0 <= p0 < s.len() && s[p0] == '-' {
        let q = sp_space0(s, p0 + 1);
        if q > p0 + 1 {
            match sp_type(s, q) {
                Some((p1, ty)) => match sp_name_with_dot(s, p1) {
                    Some((p2, st)) => {
                        let nm = s.subrange(st, p2);
                        match sp_default_value(s, p2) {
                            SpOut::Parsed(p3, dv) => match sp_owner(s, p3) {
                                Some((p4, ow)) => {
                                    let (p5, fs) = sp_features(s, p4);
                                    let (p6, de) = sp_description(s, p5);
                                    SpOut::Parsed(
                                        p6,
                                        ConfigV {
                                            type_: ty,
                                            name: nm,
                                            default_value: dv,
                                            owner: ow,
                                            description: de,
                                            features: fs,
                                        },
                                    )
                                },
                                None => SpOut::NoParse(p3),
                            },
                            SpOut::NoParse(n) => SpOut::NoParse(n),
                            SpOut::Abort(a) => SpOut::Abort(a),
                        }
                    },
                    None => SpOut::NoParse(p1),
                },
                None => SpOut::NoParse(q),
            }
        } else {
            SpOut::NoParse(p0)
        }
    } else {
        SpOut::NoParse(p0)
    }
}

/// Whether `r` is the executable outcome of the spec option result.
pub open spec fn out_config_eq(r: Result<(usize, Config), ParseFail>, sp: SpOut<ConfigV>) -> bool {
    match r {
        Ok((p, c)) => sp == SpOut::Parsed(p as int, c@),
        Err(e) => sp == (if e.hard {
            SpOut::<ConfigV>::Abort(e.pos as int)
        } else {
            SpOut::<ConfigV>::NoParse(e.pos as int)
        }),
    }
}

/// Executable twin of [`sp_config`].
pub fn parse_config(s: &Vec<char>, pos: usize) -> (r: Result<(usize, Config), ParseFail>)
    requires
        pos <= s@.len(),
    ensures
        out_config_eq(r, sp_config(s@, pos as int)),
        r matches Ok((p, _)) ==> pos < p <= s@.len(),
        r matches Err(e) ==> e.pos <= s@.len(),
        (match r {
            Err(e) => e.trace.deep_view().len() > 0 && e.trace.deep_view().last() == "config"@ && (
            e.hard ==> e.trace.deep_view() == seq!["default value"@, "config"@]),
            Ok(_) => true,
        }),
{
    let p0 = if pos < s.len() && s[pos] == '\n' {
        pos + 1
    } else {
        pos
    };
    if p0 < s.len() && s[p0] == '-' {
        let q = space0(s, p0 + 1);
        if q > p0 + 1 {
            match parse_type(s, q) {
                Some((p1, ty)) => match parse_name_with_dot(s, p1) {
                    Some((p2, st)) => {
                        let nm = chars_to_string(s, st, p2);
                        match parse_default_value(s, p2) {
                            Ok((p3, dv)) => match parse_owner(s, p3) {
                                Some((p4, ow)) => {
                                    let (p5, fs) = parse_features(s, p4);
                                    let (p6, de) = parse_description(s, p5);
                                    Ok((
                                        p6,
                                        Config {
                                            type_: ty,
                                            name: nm,
                                            default_value: dv,
                                            owner: ow,
                                            description: de,
                                            features: fs,
                                        },
                                    ))
                                },
                                None => Err(config_fail(p3)),
                            },
                            Err(mut e) => {
                                let ghost before = e.trace.deep_view();
                                e.trace.push("config");
                                proof {
                                    assert(e.trace.deep_view() =~= before + seq!["config"@]);
                                }
                                Err(e)
                            },
                        }
                    },
                    None => Err(config_fail(p1)),
                },
                None => Err(config_fail(q)),
            }
        } else {
            Err(config_fail(p0))
        }
    } else {
        Err(config_fail(p0))
    }
}

/// A recoverable failure of the option construct at `pos`.
fn config_fail(pos: usize) -> (f: ParseFail)
    ensures
        f.pos == pos,
        !f.hard,
        f.trace.deep_view() == seq!["config"@],
{
    let f = ParseFail { pos: pos, hard: false, trace: vec!["config"] };
    proof {
        assert(f.trace.deep_view() =~= seq!["config"@]);
    }
    f
}

/// One or more option declarations.
pub open spec fn sp_configs1(s: Seq<char>, pos: int) -> SpOut<Seq<ConfigV>>
    decreases s.len() - pos,
{
    match sp_config(s, pos) {
        SpOut::Parsed(p, c) => if pos < p <= s.len() {
            match sp_configs1(s, p) {
                SpOut::Parsed(q, rest) => SpOut::Parsed(q, seq![c] + rest),
                SpOut::NoParse(_) => SpOut::Parsed(p, seq![c]),
                SpOut::Abort(a) => SpOut::Abort(a),
            }
        } else {
            SpOut::Parsed(p, seq![c])
        },
        SpOut::NoParse(n) => SpOut::NoParse(n),
        SpOut::Abort(a) => SpOut::Abort(a),
    }
}

fn configs1(s: &Vec<char>, pos: usize) -> (r: Result<(usize, Vec<Config>), ParseFail>)
    requires
        pos <= s@.len(),
    ensures
        (match r {
            Ok((p, cs)) => sp_configs1(s@, pos as int) == SpOut::Parsed(p as int, cs.deep_view()),
            Err(e) => sp_configs1(s@, pos as int) == (if e.hard {
                SpOut::<Seq<ConfigV>>::Abort(e.pos as int)
            } else {
                SpOut::<Seq<ConfigV>>::NoParse(e.pos as int)
            }),
        }),
        r matches Ok((p, _)) ==> pos < p <= s@.len(),
        r matches Err(e) ==> e.pos <= s@.len(),
        (match r {
            Err(e) => e.trace.deep_view().len() > 0 && e.trace.deep_view().last() == "config"@ && (
            e.hard ==> e.trace.deep_view() == seq!["default value"@, "config"@]),
            Ok(_) => true,
        }),
    decreases s@.len() - pos,
{
    match parse_config(s, pos) {
        Ok((p, c)) => {
            match configs1(s, p) {
                Ok((q, mut rest)) => {
                    let ghost old_dv = rest.deep_view();
                    rest.insert(0, c);
                    proof {
                        assert(rest.deep_view() =~= seq![c@] + old_dv);
                    }
                    Ok((q, rest))
                },
                Err(e) => {
                    if e.hard {
                        Err(e)
                    } else {
                        let cs = vec![c];
                        proof {
                            assert(cs.deep_view() =~= seq![c@]);
                        }
                        Ok((p, cs))
                    }
                },
            }
        },
        Err(e) => Err(e),
    }
}

/// One section: `# `, its name, an optional parenthesized lookup prefix, a
/// description, and one or more option declarations.
pub open spec fn sp_section(s: Seq<char>, pos: int) -> SpOut<SectionV> {
    let p0 = if 0 <= pos < s.len() && s[pos] == '\n' {
        pos + 1
    } else {
        pos
    };
    if 0 <= p0 < s.len() && s[p0] == '#' {
        let q = sp_space0(s, p0 + 1);
        if q > p0 + 1 {
            match sp_name_with_optional_dot(s, q) {
                Some((p1, st)) => {
                    let nm = s.subrange(st, p1);
                    let t = sp_space0(s, p1);
                    let pre = if t > p1 && 0 <= t < s.len() && s[t] == '(' {
                        match sp_partial_name(s, t + 1) {
                            Some((p2, st2)) => if 0 <= p2 < s.len() && s[p2] == ')' {
                                Some((p2 + 1, s.subrange(st2, p2)))
                            } else {
                                None
                            },
                            None => None,
                        }
                    } else {
                        None
                    };
                    let p3 = match pre {
                        Some((pp, _)) => pp,
                        None => p1,
                    };
                    let prefix = match pre {
                        Some((_, pf)) => Some(pf),
                        None => None,
                    };
                    let (p4, desc) = sp_description(s, p3);
                    match sp_configs1(s, p4) {
                        SpOut::Parsed(p5, cfgs) => SpOut::Parsed(
                            p5,
                            SectionV { name: nm, prefix: prefix, description: desc, configs: cfgs },
                        ),
                        SpOut::NoParse(n) => SpOut::NoParse(n),
                        SpOut::Abort(a) => SpOut::Abort(a),
                    }
                },
                None => SpOut::NoParse(q),
            }
        } else {
            SpOut::NoParse(p0)
        }
    } else {
        SpOut::NoParse(p0)
    }
}

/// Whether `r` is the executable outcome of the spec section result.
pub open spec fn out_section_eq(
    r: Result<(usize, ConfigSection), ParseFail>,
    sp: SpOut<SectionV>,
) -> bool {
    match r {
        Ok((p, sec)) => sp == SpOut::Parsed(p as int, sec@),
        Err(e) => sp == (if e.hard {
            SpOut::<SectionV>::Abort(e.pos as int)
        } else {
            SpOut::<SectionV>::NoParse(e.pos as int)
        }),
    }
}

/// Executable twin of [`sp_section`].
pub fn parse_section(s: &Vec<char>, pos: usize) -> (r: Result<(usize, ConfigSection), ParseFail>)
    requires
        pos <= s@.len(),
    ensures
        out_section_eq(r, sp_section(s@, pos as int)),
        r matches Ok((p, _)) ==> pos < p <= s@.len(),
        r matches Err(e) ==> e.pos <= s@.len(),
        (match r {
            Err(e) => e.trace.deep_view().len() > 0 && e.trace.deep_view().last() == "section"@
                && (e.hard ==> e.trace.deep_view() == seq![
                "default value"@,
                "config"@,
                "section"@,
            ]),
            Ok(_) => true,
        }),
{
    let p0 = if pos < s.len() && s[pos] == '\n' {
        pos + 1
    } else {
        pos
    };
    if p0 < s.len() && s[p0] == '#' {
        let q = space0(s, p0 + 1);
        if q > p0 + 1 {
            match parse_name_with_optional_dot(s, q) {
                Some((p1, st)) => {
                    let nm = chars_to_string(s, st, p1);
                    let t = space0(s, p1);
                    let pre: Option<(usize, String)> = if t > p1 && t < s.len() && s[t] == '(' {
                        match parse_partial_name(s, t + 1) {
                            Some((p2, st2)) => {
                                if p2 < s.len() && s[p2] == ')' {
                                    Some((p2 + 1, chars_to_string(s, st2, p2)))
                                } else {
                                    None
                                }
                            },
                            None => None,
                        }
                    } else {
                        None
                    };
                    let (p3, prefix): (usize, Option<String>) = match pre {
                        Some((pp, pf)) => (pp, Some(pf)),
                        None => (p1, None),
                    };
                    let (p4, desc) = parse_description(s, p3);
                    match configs1(s, p4) {
                        Ok((p5, cfgs)) => Ok((
                            p5,
                            ConfigSection {
                                name: nm,
                                prefix: prefix,
                                description: desc,
                                configs: cfgs,
                            },
                        )),
                        Err(mut e) => {
                            let ghost before = e.trace.deep_view();
                            e.trace.push("section");
                            proof {
                                assert(e.trace.deep_view() =~= before + seq!["section"@]);
                            }
                            Err(e)
                        },
                    }
                },
                None => Err(section_fail(q)),
            }
        } else {
            Err(section_fail(p0))
        }
    } else {
        Err(section_fail(p0))
    }
}

/// A recoverable failure of the section construct at `pos`.
fn section_fail(pos: usize) -> (f: ParseFail)
    ensures
        f.pos == pos,
        !f.hard,
        f.trace.deep_view() == seq!["section"@],
{
    let f = ParseFail { pos: pos, hard: false, trace: vec!["section"] };
    proof {
        assert(f.trace.deep_view() =~= seq!["section"@]);
    }
    f
}

/// The sections of the document, up to the end of the input.
pub open spec fn sp_sections(s: Seq<char>, pos: int) -> SpOut<Seq<SectionV>>
    decreases s.len() - pos,
{
    if pos >= s.len() {
        SpOut::Parsed(pos, Seq::empty())
    } else {
        match sp_section(s, pos) {
            SpOut::Parsed(p, sec) => if pos < p <= s.len() {
                match sp_sections(s, p) {
                    SpOut::Parsed(q, rest) => SpOut::Parsed(q, seq![sec] + rest),
                    SpOut::NoParse(n) => SpOut::NoParse(n),
                    SpOut::Abort(a) => SpOut::Abort(a),
                }
            } else {
                SpOut::NoParse(pos)
            },
            SpOut::NoParse(n) => SpOut::NoParse(n),
            SpOut::Abort(a) => SpOut::Abort(a),
        }
    }
}

fn sections_till_end(s: &Vec<char>, pos: usize) -> (r: Result<
    (usize, Vec<ConfigSection>),
    ParseFail,
>)
    requires
        pos <= s@.len(),
    ensures
        (match r {
            Ok((p, secs)) => sp_sections(s@, pos as int) == SpOut::Parsed(
                p as int,
                secs.deep_view(),
            ) && p == s@.len(),
            Err(e) => sp_sections(s@, pos as int) == (if e.hard {
                SpOut::<Seq<SectionV>>::Abort(e.pos as int)
            } else {
                SpOut::<Seq<SectionV>>::NoParse(e.pos as int)
            }) && e.pos <= s@.len() && e.trace.deep_view().len() > 0 && e.trace.deep_view().last()
                == "section"@ && (e.hard ==> e.trace.deep_view() == seq![
                "default value"@,
                "config"@,
                "section"@,
            ]),
        }),
    decreases s@.len() - pos,
{
    if pos >= s.len() {
        let secs: Vec<ConfigSection> = Vec::new();
        proof {
            assert(secs.deep_view() =~= Seq::<SectionV>::empty());
        }
        Ok((pos, secs))
    } else {
        match parse_section(s, pos) {
            Ok((p, sec)) => {
                match sections_till_end(s, p) {
                    Ok((q, mut rest)) => {
                        let ghost old_dv = rest.deep_view();
                        rest.insert(0, sec);
                        proof {
                            assert(rest.deep_view() =~= seq![sec@] + old_dv);
                        }
                        Ok((q, rest))
                    },
                    Err(e) => Err(e),
                }
            },
            Err(e) => Err(e),
        }
    }
}

/// The whole document: free text up to the first `#`, then one or more
/// sections, then the end of the input.
pub open spec fn sp_doc(s: Seq<char>) -> SpOut<Seq<SectionV>> {
    match sp_find_hash(s, 0) {
        Some(h) => sp_sections(s, h),
        None => SpOut::NoParse(0),
    }
}

/// Parse a whole document into its sections.
///
/// The result is exactly what the spec-level grammar [`sp_doc`] assigns to
/// the text: parsing the same text twice yields the same outcome.  On
/// failure, the reported position is the spec grammar's failure position (for
/// a hard failure, the start of the malformed default value), the trail names
/// the constructs that were being attempted, innermost first, and an error
/// whose position equals the input length means the input ended while a
/// construct was still open.
pub fn parse_option_doc(input: &str) -> (r: Result<Vec<ConfigSection>, ParseFail>)
    ensures
        (match r {
            Ok(secs) => sp_doc(input@) == SpOut::Parsed(input@.len() as int, secs.deep_view()),
            Err(e) => sp_doc(input@) == (if e.hard {
                SpOut::<Seq<SectionV>>::Abort(e.pos as int)
            } else {
                SpOut::<Seq<SectionV>>::NoParse(e.pos as int)
            }) && e.pos <= input@.len() && e.trace.deep_view().len() > 0 && (e.hard
                ==> e.trace.deep_view() == seq!["default value"@, "config"@, "section"@]) && (
            !e.hard ==> e.trace.deep_view().last() == "section"@ || e.trace.deep_view().last()
                == "document"@),
        }),
{
    let chars = to_chars(input);
    match find_hash(&chars, 0) {
        Some(h) => {
            match sections_till_end(&chars, h) {
                Ok((_, secs)) => Ok(secs),
                Err(e) => Err(e),
            }
        },
        None => {
            let f = ParseFail { pos: 0, hard: false, trace: vec!["document"] };
            proof {
                assert(f.trace.deep_view() =~= seq!["document"@]);
            }
            Err(f)
        },
    }
}

} // verus!
