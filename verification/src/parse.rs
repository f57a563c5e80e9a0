//! STEP entity-line tokenizer.
//!
//! [`parse_entity`] takes a single entity line (e.g.
//! `#123=IFCWALL('guid',$,...);`) and returns the entity id, type, and
//! attribute tokens.  The grammar is stated below as functions on the
//! UTF-8 bytes of the line; the tokens borrow from the line.
use vstd::prelude::*;
use vstd::string::StringSliceAdditionalSpecFns;
use vstd::utf8::*;
use crate::scan::{digits_end, digits_value};
use crate::text::{
    alphanumeric, at_char, char_at, code_at, decode_at, find_byte, first_byte_from, is_alphanumeric,
    is_white_space, is_white_space_code, lemma_ascii_at, lemma_char_start, lemma_ends,
    lemma_first_byte_bound, lemma_first_byte_shift, lemma_step, lemma_str_valid, substr, width_at,
};
use crate::entity_id::EntityId;
use crate::error::{Error, Result};
use crate::ifc_type::{IfcType, view_of_name};
use crate::token::{Token, TokenModel};

verus! {

// ═══════════════════════════════════════════════════════════════════
// The grammar, on bytes
// ═══════════════════════════════════════════════════════════════════

/// The character at `p` is whitespace (`char::is_whitespace`).
pub open spec fn is_ws_at(b: Seq<u8>, p: int) -> bool {
    is_white_space_code(code_at(b, p))
}

/// The character at `p` is alphanumeric or `_`.
pub open spec fn is_word_at(b: Seq<u8>, p: int) -> bool {
    alphanumeric(char_at(b, p)) || code_at(b, p) == 0x5f
}

/// End of the run of whitespace characters that starts at `p`.
pub open spec fn ws_end(b: Seq<u8>, p: int) -> int
    decreases b.len() - p,
{
    if 0 <= p < b.len() && p + width_at(b, p) <= b.len() && is_ws_at(b, p) {
        ws_end(b, p + width_at(b, p))
    } else {
        p
    }
}

/// End of the run of alphanumeric-or-`_` characters that starts at `p`.
pub open spec fn word_end(b: Seq<u8>, p: int) -> int
    decreases b.len() - p,
{
    if 0 <= p < b.len() && p + width_at(b, p) <= b.len() && is_word_at(b, p) {
        word_end(b, p + width_at(b, p))
    } else {
        p
    }
}

/// `b[p]` exists and is `x`.
pub open spec fn byte_is(b: Seq<u8>, p: int, x: u8) -> bool {
    0 <= p < b.len() && b[p] == x
}

/// Position of the closing `q` of a quoted text whose content starts at
/// `p`: the first `q` that is not doubled.
pub open spec fn unescaped_quote(b: Seq<u8>, q: u8, p: int) -> Option<int>
    decreases b.len() - p,
{
    if p < 0 || p > b.len() {
        None
    } else {
        match first_byte_from(b, q, p) {
            None => None,
            Some(i) => {
                proof {
                    lemma_first_byte_bound(b, q, p);
                }
                if byte_is(b, i + 1, q) {
                    unescaped_quote(b, q, i + 2)
                } else {
                    Some(i)
                }
            },
        }
    }
}

/// `#` and digits naming a 32-bit number.
pub open spec fn entity_ref_spec(b: Seq<u8>, p: int) -> Option<(TokenModel, int)> {
    let e = digits_end(b, p + 1);
    let v = digits_value(b.subrange(p + 1, e));
    if byte_is(b, p, 0x23) && e > p + 1 && v <= u32::MAX {
        Some((TokenModel::EntityRef(v as u32), e))
    } else {
        None
    }
}

/// A text between `'` or between `"`, ending at the first undoubled quote.
pub open spec fn string_spec(b: Seq<u8>, p: int) -> Option<(TokenModel, int)> {
    if byte_is(b, p, 0x27) || byte_is(b, p, 0x22) {
        match unescaped_quote(b, b[p], p + 1) {
            Some(i) => Some((TokenModel::Str(b.subrange(p + 1, i)), i + 1)),
            None => None,
        }
    } else {
        None
    }
}

/// Where the digits start after an optional `-` at `p`.
pub open spec fn after_sign(b: Seq<u8>, p: int) -> int {
    if byte_is(b, p, 0x2d) {
        p + 1
    } else {
        p
    }
}

/// An optional `-` and digits naming a 64-bit signed number.
pub open spec fn integer_spec(b: Seq<u8>, p: int) -> Option<(TokenModel, int)> {
    let s = after_sign(b, p);
    let e = digits_end(b, s);
    let m = digits_value(b.subrange(s, e)) as int;
    let v = if s == p + 1 {
        -m
    } else {
        m
    };
    if 0 <= p && e > s && i64::MIN <= v <= i64::MAX {
        Some((TokenModel::Integer(v as i64), e))
    } else {
        None
    }
}

/// End of an optional exponent (`e` or `E`, optional sign, digits) at `p`.
pub open spec fn exponent_end(b: Seq<u8>, p: int) -> int {
    if byte_is(b, p, 0x65) || byte_is(b, p, 0x45) {
        let s = if byte_is(b, p + 1, 0x2b) || byte_is(b, p + 1, 0x2d) {
            p + 2
        } else {
            p + 1
        };
        let e = digits_end(b, s);
        if e > s {
            e
        } else {
            p
        }
    } else {
        p
    }
}

/// An optional `-`, digits, `.`, optional digits, optional exponent.
pub open spec fn float_spec(b: Seq<u8>, p: int) -> Option<(TokenModel, int)> {
    let s = after_sign(b, p);
    let e1 = digits_end(b, s);
    if 0 <= p && e1 > s && byte_is(b, e1, 0x2e) {
        let e = exponent_end(b, digits_end(b, e1 + 1));
        Some((TokenModel::Float(b.subrange(p, e)), e))
    } else {
        None
    }
}

/// `.`, a non-empty word, `.`.
pub open spec fn enum_spec(b: Seq<u8>, p: int) -> Option<(TokenModel, int)> {
    let e = word_end(b, p + 1);
    if byte_is(b, p, 0x2e) && e > p + 1 && byte_is(b, e, 0x2e) {
        Some((TokenModel::Enum(b.subrange(p + 1, e)), e + 1))
    } else {
        None
    }
}

/// The first of the alternatives that succeeds.
pub open spec fn or_else(
    a: Option<(TokenModel, int)>,
    b: Option<(TokenModel, int)>,
) -> Option<(TokenModel, int)> {
    if a is Some {
        a
    } else {
        b
    }
}

/// `(`, comma-separated tokens, `)`.
pub open spec fn list_spec(b: Seq<u8>, s: int) -> Option<(TokenModel, int)>
    decreases b.len() - s, 1int,
{
    if byte_is(b, s, 0x28) {
        let (items, q) = items_spec(b, s + 1);
        if byte_is(b, q, 0x29) {
            Some((TokenModel::List(items), q + 1))
        } else {
            None
        }
    } else {
        None
    }
}

/// A non-empty word, then `(`, comma-separated tokens, `)`.
pub open spec fn typed_spec(b: Seq<u8>, s: int) -> Option<(TokenModel, int)>
    decreases b.len() - s, 1int,
{
    let w = word_end(b, s);
    proof {
        lemma_word_end_bounds(b, s);
    }
    if 0 <= s && w > s && byte_is(b, w, 0x28) {
        let (items, q) = items_spec(b, w + 1);
        if byte_is(b, q, 0x29) {
            Some((TokenModel::TypedValue(b.subrange(s, w), items), q + 1))
        } else {
            None
        }
    } else {
        None
    }
}

/// `$` or `*`.
pub open spec fn marker_spec(b: Seq<u8>, s: int) -> Option<(TokenModel, int)> {
    if byte_is(b, s, 0x24) {
        Some((TokenModel::Null, s + 1))
    } else if byte_is(b, s, 0x2a) {
        Some((TokenModel::Derived, s + 1))
    } else {
        None
    }
}

/// The alternatives of a token at `s`, tried in order: `$`, `*`, entity
/// reference, enumeration, string, list, float, integer, typed value.
pub open spec fn alternatives_spec(b: Seq<u8>, s: int) -> Option<(TokenModel, int)>
    decreases b.len() - s, 2int,
{
    or_else(
        marker_spec(b, s),
        or_else(
            entity_ref_spec(b, s),
            or_else(
                enum_spec(b, s),
                or_else(
                    string_spec(b, s),
                    or_else(
                        list_spec(b, s),
                        or_else(
                            float_spec(b, s),
                            or_else(integer_spec(b, s), typed_spec(b, s)),
                        ),
                    ),
                ),
            ),
        ),
    )
}

/// A token surrounded by optional whitespace.
pub open spec fn token_spec(b: Seq<u8>, p: int) -> Option<(TokenModel, int)>
    decreases b.len() - p, 3int,
{
    let s = ws_end(b, p);
    proof {
        lemma_ws_end_bounds(b, p);
    }
    match alternatives_spec(b, s) {
        Some((t, e)) => Some((t, ws_end(b, e))),
        None => None,
    }
}

/// Tokens separated by commas (with optional whitespace around them),
/// starting at `q`; possibly none.  Stops before a comma that is not
/// followed by a token.
pub open spec fn items_spec(b: Seq<u8>, q: int) -> (Seq<TokenModel>, int)
    decreases b.len() - q, 4int,
{
    match token_spec(b, q) {
        None => (Seq::empty(), q),
        Some((t, r)) => if q < r <= b.len() {
            let (ts, e) = items_tail_spec(b, r);
            (seq![t] + ts, e)
        } else {
            (seq![t], r)
        },
    }
}

/// The rest of a comma-separated run of tokens, after a token that ends at `r`.
pub open spec fn items_tail_spec(b: Seq<u8>, r: int) -> (Seq<TokenModel>, int)
    decreases b.len() - r, 5int,
{
    let w = ws_end(b, r);
    proof {
        lemma_ws_end_bounds(b, r);
    }
    if 0 <= r && byte_is(b, w, 0x2c) {
        let w2 = ws_end(b, w + 1);
        proof {
            lemma_ws_end_bounds(b, w + 1);
        }
        match token_spec(b, w2) {
            None => (Seq::empty(), r),
            Some((t, r2)) => if w2 < r2 <= b.len() {
                let (ts, e) = items_tail_spec(b, r2);
                (seq![t] + ts, e)
            } else {
                (seq![t], r2)
            },
        }
    } else {
        (Seq::empty(), r)
    }
}

/// A whole entity line: optional whitespace, `#` and the id, optional
/// whitespace, `=`, the type name between optional whitespace, then the
/// attribute tokens between `(` and `)`, optional whitespace and `;`.
/// What follows the `;` is not looked at.
pub open spec fn entity_spec(b: Seq<u8>) -> Option<(u32, Seq<u8>, Seq<TokenModel>)> {
    let s0 = ws_end(b, 0);
    let d = digits_end(b, s0 + 1);
    let v = digits_value(b.subrange(s0 + 1, d));
    let s1 = ws_end(b, d);
    let s2 = ws_end(b, s1 + 1);
    let e2 = word_end(b, s2);
    let s3 = ws_end(b, e2);
    let (args, q) = items_spec(b, s3 + 1);
    let s4 = ws_end(b, q + 1);
    if byte_is(b, s0, 0x23) && d > s0 + 1 && v <= u32::MAX && byte_is(b, s1, 0x3d) && e2 > s2
        && byte_is(b, s3, 0x28) && byte_is(b, q, 0x29) && byte_is(b, s4, 0x3b) {
        Some((v as u32, b.subrange(s2, e2), args))
    } else {
        None
    }
}

/// Where the entity grammar stops matching `b`: the offset of the first
/// part of the line that does not fit.  It is the error position when
/// [`entity_spec`] gives `None`.
pub open spec fn entity_error_at(b: Seq<u8>) -> int {
    let s0 = ws_end(b, 0);
    let d = digits_end(b, s0 + 1);
    let v = digits_value(b.subrange(s0 + 1, d));
    let s1 = ws_end(b, d);
    let s2 = ws_end(b, s1 + 1);
    let e2 = word_end(b, s2);
    let s3 = ws_end(b, e2);
    let (args, q) = items_spec(b, s3 + 1);
    let s4 = ws_end(b, q + 1);
    if !byte_is(b, s0, 0x23) {
        s0
    } else if d == s0 + 1 || v > u32::MAX {
        s0 + 1
    } else if !byte_is(b, s1, 0x3d) {
        s1
    } else if e2 == s2 {
        s2
    } else if !byte_is(b, s3, 0x28) {
        s3
    } else if !byte_is(b, q, 0x29) {
        q
    } else {
        s4
    }
}

// ═══════════════════════════════════════════════════════════════════
// Facts about runs
// ═══════════════════════════════════════════════════════════════════

pub proof fn lemma_ws_end_bounds(b: Seq<u8>, p: int)
    ensures
        p <= ws_end(b, p),
        p <= b.len() ==> ws_end(b, p) <= b.len(),
    decreases b.len() - p,
{
    if 0 <= p < b.len() && p + width_at(b, p) <= b.len() && is_ws_at(b, p) {
        lemma_ws_end_bounds(b, p + width_at(b, p));
    }
}

pub proof fn lemma_word_end_bounds(b: Seq<u8>, p: int)
    ensures
        p <= word_end(b, p),
        p <= b.len() ==> word_end(b, p) <= b.len(),
    decreases b.len() - p,
{
    if 0 <= p < b.len() && p + width_at(b, p) <= b.len() && is_word_at(b, p) {
        lemma_word_end_bounds(b, p + width_at(b, p));
    }
}

pub proof fn lemma_digits_end_bounds(b: Seq<u8>, p: int)
    ensures
        p <= digits_end(b, p),
        p <= b.len() ==> digits_end(b, p) <= b.len(),
        forall|k: int| p <= k < digits_end(b, p) ==> 0x30 <= #[trigger] b[k] <= 0x39,
    decreases b.len() - p,
{
    if 0 <= p < b.len() && 0x30 <= b[p] <= 0x39 {
        lemma_digits_end_bounds(b, p + 1);
    }
}

/// A longer run of digits names at least as large a number.
pub proof fn lemma_digits_value_grows(s: Seq<u8>, k: int)
    requires
        0 <= k <= s.len(),
    ensures
        digits_value(s.take(k)) <= digits_value(s),
    decreases s.len(),
{
    if k < s.len() {
        lemma_digits_value_grows(s.drop_last(), k);
        assert(s.drop_last().take(k) =~= s.take(k));
    } else {
        assert(s.take(k) =~= s);
    }
}

/// An ASCII byte at a character start is followed by a character start.
pub proof fn lemma_ascii_step(b: Seq<u8>, p: int)
    requires
        at_char(b, p),
        p < b.len(),
        b[p] < 0x80,
    ensures
        at_char(b, p + 1),
{
    lemma_ascii_at(b, p);
    lemma_step(b, p);
}

/// A run of ASCII bytes from a character start ends at a character start.
pub proof fn lemma_digits_end_at_char(b: Seq<u8>, p: int)
    requires
        at_char(b, p),
    ensures
        at_char(b, digits_end(b, p)),
    decreases b.len() - p,
{
    if 0 <= p < b.len() && 0x30 <= b[p] <= 0x39 {
        lemma_ascii_step(b, p);
        lemma_digits_end_at_char(b, p + 1);
    }
}

/// The result of a lexer matches the grammar.
pub open spec fn lexed<'a>(r: Option<(Token<'a>, usize)>, s: Option<(TokenModel, int)>) -> bool {
    match r {
        Some((t, e)) => s == Some((t.model(), e as int)),
        None => s is None,
    }
}

/// Appending a token appends its model.
pub proof fn lemma_models_push<'a>(v: Seq<Token<'a>>, t: Token<'a>)
    ensures
        Token::models(v.push(t)) == Token::models(v).push(t.model()),
{
    assert(Token::models(v.push(t)) =~= Token::models(v).push(t.model()));
}

/// Walk `bytes` starting at `pos` looking for `quote` that is not doubled.
pub fn find_unescaped_quote(bytes: &[u8], quote: u8, pos: usize) -> (r: Option<usize>)
    ensures
        r matches Some(i) ==> unescaped_quote(bytes@, quote, pos as int) == Some(i as int),
        r is None ==> unescaped_quote(bytes@, quote, pos as int) is None,
{
    let ghost b = bytes@;
    let mut p = pos;
    loop
        invariant
            b == bytes@,
            unescaped_quote(b, quote, p as int) == unescaped_quote(b, quote, pos as int),
        decreases b.len() + 2 - p,
    {
        if p > bytes.len() {
            return None;
        }
        let (_, rest) = bytes.split_at(p);
        assert(rest@ =~= b.subrange(p as int, b.len() as int));
        proof {
            lemma_first_byte_shift(b, quote, p as int, 0);
            lemma_first_byte_bound(rest@, quote, 0);
        }
        match find_byte(quote, rest) {
            None => {
                return None;
            },
            Some(offset) => {
                let idx = p + offset;
                if idx + 1 < bytes.len() && bytes[idx + 1] == quote {
                    p = idx + 2;
                } else {
                    return Some(idx);
                }
            },
        }
    }
}

proof fn lemma_unescaped_quote_bound(b: Seq<u8>, q: u8, p: int)
    ensures
        unescaped_quote(b, q, p) matches Some(i) ==> p <= i < b.len() && b[i] == q,
    decreases b.len() - p,
{
    if 0 <= p <= b.len() {
        lemma_first_byte_bound(b, q, p);
        match first_byte_from(b, q, p) {
            None => {},
            Some(i) => {
                if byte_is(b, i + 1, q) {
                    lemma_unescaped_quote_bound(b, q, i + 2);
                }
            },
        }
    }
}

// ═══════════════════════════════════════════════════════════════════
// The lexer
// ═══════════════════════════════════════════════════════════════════

/// A line being tokenized, with its bytes at hand.
struct Cursor<'a> {
    text: &'a str,
    bytes: &'a [u8],
}

impl<'a> Cursor<'a> {
    spec fn b(&self) -> Seq<u8> {
        self.bytes@
    }

    spec fn wf(&self) -> bool {
        &&& self.bytes@ == self.text.spec_bytes()
        &&& valid_utf8(self.bytes@)
        &&& self.bytes@.len() <= usize::MAX
    }

    fn new(text: &'a str) -> (c: Self)
        ensures
            c.wf(),
            c.text == text,
            at_char(c.b(), 0),
    {
        let bytes = text.as_bytes();
        let _n = bytes.len();
        proof {
            lemma_str_valid(text);
            lemma_ends(bytes@);
        }
        Cursor { text, bytes }
    }

    fn byte_is(&self, p: usize, x: u8) -> (r: bool)
        requires
            self.wf(),
        ensures
            r == byte_is(self.b(), p as int, x),
    {
        p < self.bytes.len() && self.bytes[p] == x
    }

    /// Whether the character at `p` is whitespace, and its width.
    fn ws_at(&self, p: usize) -> (r: (bool, usize))
        requires
            self.wf(),
            at_char(self.b(), p as int),
            p < self.b().len(),
        ensures
            r.0 == is_ws_at(self.b(), p as int),
            r.1 == width_at(self.b(), p as int),
    {
        let x = self.bytes[p];
        if x < 0x80 {
            proof {
                lemma_ascii_at(self.b(), p as int);
            }
            ((0x09 <= x && x <= 0x0d) || x == 0x20, 1)
        } else {
            let (c, w) = decode_at(self.text, p);
            (is_white_space(c), w)
        }
    }

    /// Whether the character at `p` is alphanumeric or `_`, and its width.
    fn word_at(&self, p: usize) -> (r: (bool, usize))
        requires
            self.wf(),
            at_char(self.b(), p as int),
            p < self.b().len(),
        ensures
            r.0 == is_word_at(self.b(), p as int),
            r.1 == width_at(self.b(), p as int),
    {
        let x = self.bytes[p];
        if x < 0x80 {
            proof {
                lemma_ascii_at(self.b(), p as int);
            }
            (is_alphanumeric(x as char) || x == 0x5f, 1)
        } else {
            let (c, w) = decode_at(self.text, p);
            (is_alphanumeric(c) || c == '_', w)
        }
    }

    /// Skip optional whitespace.
    fn ws(&self, p: usize) -> (e: usize)
        requires
            self.wf(),
            at_char(self.b(), p as int),
        ensures
            e == ws_end(self.b(), p as int),
            at_char(self.b(), e as int),
            p <= e,
    {
        let mut i = p;
        loop
            invariant
                self.wf(),
                p <= i,
                at_char(self.b(), i as int),
                ws_end(self.b(), i as int) == ws_end(self.b(), p as int),
            ensures
                i == ws_end(self.b(), p as int),
                at_char(self.b(), i as int),
                p <= i,
            decreases self.b().len() - i,
        {
            if i >= self.bytes.len() {
                break;
            }
            let (is_ws, w) = self.ws_at(i);
            proof {
                lemma_step(self.b(), i as int);
            }
            if !is_ws {
                break;
            }
            i = i + w;
        }
        i
    }

    /// Skip a run of alphanumeric-or-`_` characters.
    fn word(&self, p: usize) -> (e: usize)
        requires
            self.wf(),
            at_char(self.b(), p as int),
        ensures
            e == word_end(self.b(), p as int),
            at_char(self.b(), e as int),
            p <= e,
    {
        let mut i = p;
        loop
            invariant
                self.wf(),
                p <= i,
                at_char(self.b(), i as int),
                word_end(self.b(), i as int) == word_end(self.b(), p as int),
            ensures
                i == word_end(self.b(), p as int),
                at_char(self.b(), i as int),
                p <= i,
            decreases self.b().len() - i,
        {
            if i >= self.bytes.len() {
                break;
            }
            let (is_word, w) = self.word_at(i);
            proof {
                lemma_step(self.b(), i as int);
            }
            if !is_word {
                break;
            }
            i = i + w;
        }
        i
    }

    /// Skip a run of ASCII digits.
    fn digits(&self, p: usize) -> (e: usize)
        requires
            self.wf(),
            at_char(self.b(), p as int),
        ensures
            e == digits_end(self.b(), p as int),
            at_char(self.b(), e as int),
            p <= e,
    {
        let mut i = p;
        while i < self.bytes.len() && 0x30 <= self.bytes[i] && self.bytes[i] <= 0x39
            invariant
                self.wf(),
                p <= i <= self.b().len(),
                at_char(self.b(), i as int),
                digits_end(self.b(), i as int) == digits_end(self.b(), p as int),
            decreases self.b().len() - i,
        {
            proof {
                lemma_ascii_step(self.b(), i as int);
            }
            i = i + 1;
        }
        i
    }

    /// The number written by the digits in `from..to`, if it is at most `limit`.
    fn value(&self, from: usize, to: usize, limit: u64) -> (r: Option<u64>)
        requires
            self.wf(),
            from <= to <= self.b().len(),
            forall|k: int| from <= k < to ==> 0x30 <= #[trigger] self.b()[k] <= 0x39,
        ensures
            r == (if digits_value(self.b().subrange(from as int, to as int)) <= limit {
                Some(digits_value(self.b().subrange(from as int, to as int)) as u64)
            } else {
                None
            }),
    {
        let ghost s = self.b().subrange(from as int, to as int);
        let mut acc: u128 = 0;
        let mut i = from;
        while i < to
            invariant
                self.wf(),
                from <= i <= to <= self.b().len(),
                s == self.b().subrange(from as int, to as int),
                forall|k: int| from <= k < to ==> 0x30 <= #[trigger] self.b()[k] <= 0x39,
                acc == digits_value(s.take(i - from)),
                acc <= limit,
            decreases to - i,
        {
            let d = self.bytes[i] - 0x30;
            assert(s.take(i - from + 1).drop_last() =~= s.take(i - from));
            assert(s.take(i - from + 1).last() == self.b()[i as int]);
            acc = acc * 10 + d as u128;
            i = i + 1;
            if acc > limit as u128 {
                proof {
                    lemma_digits_value_grows(s, i - from);
                }
                return None;
            }
        }
        assert(s.take(to - from) =~= s);
        Some(acc as u64)
    }

    /// `#123`
    fn entity_ref(&self, p: usize) -> (r: Option<(Token<'a>, usize)>)
        requires
            self.wf(),
            at_char(self.b(), p as int),
        ensures
            lexed(r, entity_ref_spec(self.b(), p as int)),
            r matches Some((t, e)) ==> p < e && at_char(self.b(), e as int),
    {
        if !self.byte_is(p, 0x23) {
            return None;
        }
        proof {
            lemma_ascii_step(self.b(), p as int);
            lemma_digits_end_bounds(self.b(), p + 1);
        }
        let e = self.digits(p + 1);
        if e == p + 1 {
            return None;
        }
        match self.value(p + 1, e, 0xffff_ffff) {
            Some(v) => Some((Token::EntityRef(EntityId::new(v as u32)), e)),
            None => None,
        }
    }

    /// `'hello'` or `"hello"`; doubled quotes stay in the text.
    fn string_literal(&self, p: usize) -> (r: Option<(Token<'a>, usize)>)
        requires
            self.wf(),
            at_char(self.b(), p as int),
        ensures
            lexed(r, string_spec(self.b(), p as int)),
            r matches Some((t, e)) ==> p < e && at_char(self.b(), e as int),
    {
        if !(self.byte_is(p, 0x27) || self.byte_is(p, 0x22)) {
            return None;
        }
        let quote = self.bytes[p];
        proof {
            lemma_ascii_step(self.b(), p as int);
            lemma_unescaped_quote_bound(self.b(), quote, p + 1);
        }
        match find_unescaped_quote(self.bytes, quote, p + 1) {
            None => None,
            Some(i) => {
                proof {
                    lemma_char_start(self.b(), i as int);
                    lemma_ascii_step(self.b(), i as int);
                }
                let content = substr(self.text, p + 1, i);
                Some((Token::Str(content), i + 1))
            },
        }
    }

    /// `42`, `-42`
    fn integer(&self, p: usize) -> (r: Option<(Token<'a>, usize)>)
        requires
            self.wf(),
            at_char(self.b(), p as int),
        ensures
            lexed(r, integer_spec(self.b(), p as int)),
            r matches Some((t, e)) ==> p < e && at_char(self.b(), e as int),
    {
        let negative = self.byte_is(p, 0x2d);
        let s = if negative {
            proof {
                lemma_ascii_step(self.b(), p as int);
            }
            p + 1
        } else {
            p
        };
        proof {
            lemma_digits_end_bounds(self.b(), s as int);
        }
        let e = self.digits(s);
        if e == s {
            return None;
        }
        let limit: u64 = if negative {
            0x8000_0000_0000_0000
        } else {
            0x7fff_ffff_ffff_ffff
        };
        match self.value(s, e, limit) {
            None => None,
            Some(m) => {
                let v: i64 = if negative {
                    if m == 0x8000_0000_0000_0000 {
                        i64::MIN
                    } else {
                        -(m as i64)
                    }
                } else {
                    m as i64
                };
                Some((Token::Integer(v), e))
            },
        }
    }

    /// End of an optional exponent at `p`.
    fn exponent(&self, p: usize) -> (e: usize)
        requires
            self.wf(),
            at_char(self.b(), p as int),
        ensures
            e == exponent_end(self.b(), p as int),
            at_char(self.b(), e as int),
            p <= e,
    {
        if !(self.byte_is(p, 0x65) || self.byte_is(p, 0x45)) {
            return p;
        }
        proof {
            lemma_ascii_step(self.b(), p as int);
        }
        let s = if self.byte_is(p + 1, 0x2b) || self.byte_is(p + 1, 0x2d) {
            proof {
                lemma_ascii_step(self.b(), p + 1);
            }
            p + 2
        } else {
            p + 1
        };
        let e = self.digits(s);
        if e > s {
            e
        } else {
            p
        }
    }

    /// `3.14`, `-3.14`, `1.5E-10`, `0.`
    fn float(&self, p: usize) -> (r: Option<(Token<'a>, usize)>)
        requires
            self.wf(),
            at_char(self.b(), p as int),
        ensures
            lexed(r, float_spec(self.b(), p as int)),
            r matches Some((t, e)) ==> p < e && at_char(self.b(), e as int),
    {
        let s = if self.byte_is(p, 0x2d) {
            proof {
                lemma_ascii_step(self.b(), p as int);
            }
            p + 1
        } else {
            p
        };
        let e1 = self.digits(s);
        if e1 == s || !self.byte_is(e1, 0x2e) {
            return None;
        }
        proof {
            lemma_ascii_step(self.b(), e1 as int);
        }
        let e2 = self.digits(e1 + 1);
        let e = self.exponent(e2);
        let text = substr(self.text, p, e);
        Some((Token::Float(text), e))
    }

    /// `.TRUE.`, `.ELEMENT.`
    fn enum_value(&self, p: usize) -> (r: Option<(Token<'a>, usize)>)
        requires
            self.wf(),
            at_char(self.b(), p as int),
        ensures
            lexed(r, enum_spec(self.b(), p as int)),
            r matches Some((t, e)) ==> p < e && at_char(self.b(), e as int),
    {
        if !self.byte_is(p, 0x2e) {
            return None;
        }
        proof {
            lemma_ascii_step(self.b(), p as int);
        }
        let e = self.word(p + 1);
        if e == p + 1 || !self.byte_is(e, 0x2e) {
            return None;
        }
        proof {
            lemma_ascii_step(self.b(), e as int);
        }
        let name = substr(self.text, p + 1, e);
        Some((Token::Enum(name), e + 1))
    }

    /// `(1, 2, 3)` or nested lists.
    fn list(&self, s: usize) -> (r: Option<(Token<'a>, usize)>)
        requires
            self.wf(),
            at_char(self.b(), s as int),
        ensures
            lexed(r, list_spec(self.b(), s as int)),
            r matches Some((t, e)) ==> s < e && at_char(self.b(), e as int),
        decreases self.b().len() - s, 1int,
    {
        if !self.byte_is(s, 0x28) {
            return None;
        }
        proof {
            lemma_ascii_step(self.b(), s as int);
        }
        let (items, q) = self.items(s + 1);
        if !self.byte_is(q, 0x29) {
            return None;
        }
        proof {
            lemma_ascii_step(self.b(), q as int);
        }
        Some((Token::List(items), q + 1))
    }

    /// `IFCPARAMETERVALUE(0.)`, `IFCBOOLEAN(.T.)`
    fn typed_value(&self, s: usize) -> (r: Option<(Token<'a>, usize)>)
        requires
            self.wf(),
            at_char(self.b(), s as int),
        ensures
            lexed(r, typed_spec(self.b(), s as int)),
            r matches Some((t, e)) ==> s < e && at_char(self.b(), e as int),
        decreases self.b().len() - s, 1int,
    {
        let w = self.word(s);
        if w == s || !self.byte_is(w, 0x28) {
            return None;
        }
        proof {
            lemma_ascii_step(self.b(), w as int);
        }
        let (items, q) = self.items(w + 1);
        if !self.byte_is(q, 0x29) {
            return None;
        }
        proof {
            lemma_ascii_step(self.b(), q as int);
        }
        let name = substr(self.text, s, w);
        Some((Token::TypedValue(name, items), q + 1))
    }

    /// The token alternatives at `s`, cheapest first.
    fn alternatives(&self, s: usize) -> (r: Option<(Token<'a>, usize)>)
        requires
            self.wf(),
            at_char(self.b(), s as int),
        ensures
            lexed(r, alternatives_spec(self.b(), s as int)),
            r matches Some((t, e)) ==> s < e && at_char(self.b(), e as int),
        decreases self.b().len() - s, 2int,
    {
        let r = self.marker(s);
        if r.is_some() {
            return r;
        }
        let r = self.entity_ref(s);
        if r.is_some() {
            return r;
        }
        let r = self.enum_value(s);
        if r.is_some() {
            return r;
        }
        let r = self.string_literal(s);
        if r.is_some() {
            return r;
        }
        let r = self.list(s);
        if r.is_some() {
            return r;
        }
        let r = self.float(s);
        if r.is_some() {
            return r;
        }
        let r = self.integer(s);
        if r.is_some() {
            return r;
        }
        self.typed_value(s)
    }

    /// A single token with surrounding whitespace stripped.
    fn token(&self, p: usize) -> (r: Option<(Token<'a>, usize)>)
        requires
            self.wf(),
            at_char(self.b(), p as int),
        ensures
            lexed(r, token_spec(self.b(), p as int)),
            r matches Some((t, e)) ==> p < e && at_char(self.b(), e as int),
        decreases self.b().len() - p, 3int,
    {
        let s = self.ws(p);
        match self.alternatives(s) {
            None => None,
            Some((t, e)) => {
                let e2 = self.ws(e);
                Some((t, e2))
            },
        }
    }

    /// Comma-separated tokens starting at `q`, possibly none.
    fn items(&self, q: usize) -> (r: (Vec<Token<'a>>, usize))
        requires
            self.wf(),
            at_char(self.b(), q as int),
        ensures
            (Token::models(r.0@), r.1 as int) == items_spec(self.b(), q as int),
            at_char(self.b(), r.1 as int),
            q <= r.1,
        decreases self.b().len() - q, 4int,
    {
        let ghost b = self.b();
        let mut v: Vec<Token<'a>> = Vec::new();
        let (first, r) = match self.token(q) {
            None => {
                return (v, q);
            },
            Some(x) => x,
        };
        let ghost first_model = first.model();
        v.push(first);
        proof {
            lemma_models_push(Seq::<Token<'a>>::empty(), first);
            assert(Seq::<Token<'a>>::empty().push(first) =~= v@);
            assert(Token::models(Seq::<Token<'a>>::empty()) =~= Seq::<TokenModel>::empty());
            assert(Token::models(v@) =~= seq![first_model]);
        }
        let mut pos = r;
        loop
            invariant
                self.wf(),
                b == self.b(),
                q < pos <= b.len(),
                at_char(b, pos as int),
                ({
                    let (ts, e) = items_tail_spec(b, pos as int);
                    items_spec(b, q as int) == (Token::models(v@) + ts, e)
                }),
            decreases b.len() - pos,
        {
            let w = self.ws(pos);
            if !self.byte_is(w, 0x2c) {
                assert(Token::models(v@) + Seq::<TokenModel>::empty() =~= Token::models(v@));
                return (v, pos);
            }
            proof {
                lemma_ascii_step(b, w as int);
            }
            let w2 = self.ws(w + 1);
            match self.token(w2) {
                None => {
                    assert(Token::models(v@) + Seq::<TokenModel>::empty() =~= Token::models(v@));
                    return (v, pos);
                },
                Some((t, r2)) => {
                    let ghost old_v = v@;
                    let ghost tm = t.model();
                    v.push(t);
                    proof {
                        lemma_models_push(old_v, t);
                        let (ts2, e2) = items_tail_spec(b, r2 as int);
                        assert(Token::models(old_v) + (seq![tm] + ts2) =~= Token::models(v@)
                            + ts2);
                    }
                    pos = r2;
                },
            }
        }
    }

    /// `$` or `*`
    fn marker(&self, p: usize) -> (r: Option<(Token<'a>, usize)>)
        requires
            self.wf(),
            at_char(self.b(), p as int),
        ensures
            lexed(r, marker_spec(self.b(), p as int)),
            r matches Some((t, e)) ==> p < e && at_char(self.b(), e as int),
    {
        if self.byte_is(p, 0x24) {
            proof {
                lemma_ascii_step(self.b(), p as int);
            }
            Some((Token::Null, p + 1))
        } else if self.byte_is(p, 0x2a) {
            proof {
                lemma_ascii_step(self.b(), p as int);
            }
            Some((Token::Derived, p + 1))
        } else {
            None
        }
    }
}

// ═══════════════════════════════════════════════════════════════════
// Public API
// ═══════════════════════════════════════════════════════════════════

/// A token parser found no match at the start of its input.
#[derive(Debug, Clone, Copy, PartialEq, Eq, Structural)]
pub struct ParseFailure;

/// What a token parser returns: the input after the token, and the token.
pub type LexResult<'a> = core::result::Result<(&'a str, Token<'a>), ParseFailure>;

/// A token parser's result agrees with the grammar `s` applied at the
/// start of `input`.
pub open spec fn lex_outcome<'a>(r: LexResult<'a>, input: &str, s: Option<(TokenModel, int)>) -> bool {
    let b = input.spec_bytes();
    match r {
        Ok((rest, t)) => match s {
            Some((m, e)) => m == t.model() && rest.spec_bytes() == b.subrange(e, b.len() as int),
            None => false,
        },
        Err(_) => s is None,
    }
}

impl<'a> Cursor<'a> {
    /// Turn a lexer result at the start of the line into a token parser's result.
    fn finish(&self, r: Option<(Token<'a>, usize)>) -> (out: LexResult<'a>)
        requires
            self.wf(),
            r matches Some((t, e)) ==> at_char(self.b(), e as int),
        ensures
            out matches Ok((rest, t)) ==> r matches Some((t2, e)) && t == t2 && rest.spec_bytes()
                == self.b().subrange(e as int, self.b().len() as int),
            out is Err <==> r is None,
    {
        match r {
            None => Err(ParseFailure),
            Some((t, e)) => {
                proof {
                    lemma_ends(self.b());
                }
                let rest = substr(self.text, e, self.bytes.len());
                Ok((rest, t))
            },
        }
    }
}

/// `#123`
pub fn entity_ref(input: &str) -> (r: LexResult<'_>)
    ensures
        lex_outcome(r, input, entity_ref_spec(input.spec_bytes(), 0)),
{
    let c = Cursor::new(input);
    c.finish(c.entity_ref(0))
}

/// `'hello'` or `"hello"`, with doubled quotes kept in the text.
pub fn string_literal(input: &str) -> (r: LexResult<'_>)
    ensures
        lex_outcome(r, input, string_spec(input.spec_bytes(), 0)),
{
    let c = Cursor::new(input);
    c.finish(c.string_literal(0))
}

/// `42`, `-42`
pub fn integer(input: &str) -> (r: LexResult<'_>)
    ensures
        lex_outcome(r, input, integer_spec(input.spec_bytes(), 0)),
{
    let c = Cursor::new(input);
    c.finish(c.integer(0))
}

/// `3.14`, `-3.14`, `1.5E-10`, `0.`
pub fn float(input: &str) -> (r: LexResult<'_>)
    ensures
        lex_outcome(r, input, float_spec(input.spec_bytes(), 0)),
{
    let c = Cursor::new(input);
    c.finish(c.float(0))
}

/// `.TRUE.`, `.ELEMENT.`
pub fn enum_value(input: &str) -> (r: LexResult<'_>)
    ensures
        lex_outcome(r, input, enum_spec(input.spec_bytes(), 0)),
{
    let c = Cursor::new(input);
    c.finish(c.enum_value(0))
}

/// `IFCPARAMETERVALUE(0.)`, `IFCBOOLEAN(.T.)`
pub fn typed_value(input: &str) -> (r: LexResult<'_>)
    ensures
        lex_outcome(r, input, typed_spec(input.spec_bytes(), 0)),
{
    let c = Cursor::new(input);
    c.finish(c.typed_value(0))
}

/// `(1, 2, 3)` or nested lists.
pub fn list(input: &str) -> (r: LexResult<'_>)
    ensures
        lex_outcome(r, input, list_spec(input.spec_bytes(), 0)),
{
    let c = Cursor::new(input);
    c.finish(c.list(0))
}

/// A single token with surrounding whitespace stripped.
pub fn token(input: &str) -> (r: LexResult<'_>)
    ensures
        lex_outcome(r, input, token_spec(input.spec_bytes(), 0)),
{
    let c = Cursor::new(input);
    c.finish(c.token(0))
}

/// The parsing step that failed, in nom's terms.
#[derive(Debug, Clone, Copy, PartialEq, Eq, Structural)]
pub enum GrammarFailure {
    /// An expected character is missing (`char`).
    Char,
    /// No decimal digit where the entity number starts (`digit1`).
    Digit,
    /// The entity number does not fit in a `u32` (`map_res`).
    MapRes,
    /// No character of the type name (`take_while1`).
    TakeWhile1,
}

/// nom's rendering of a parse error (`nom::Err::Error`) at the text
/// `rest`, with the given failing step.
pub uninterp spec fn nom_error_text(rest: Seq<char>, kind: GrammarFailure) -> Seq<char>;

/// `format!("{}", nom::Err::Error(nom::error::Error::new(rest, code)))`:
/// nom's `Display` of a parse error, which shows the remaining input with
/// `Debug` and the error code.  The text depends on the arguments alone.
#[verifier::external_body]
fn render_nom_error(rest: &str, kind: GrammarFailure) -> (s: String)
    ensures
        s@ == nom_error_text(rest@, kind),
{
    let code = match kind {
        GrammarFailure::Char => nom::error::ErrorKind::Char,
        GrammarFailure::Digit => nom::error::ErrorKind::Digit,
        GrammarFailure::MapRes => nom::error::ErrorKind::MapRes,
        GrammarFailure::TakeWhile1 => nom::error::ErrorKind::TakeWhile1,
    };
    format!("{}", nom::Err::Error(nom::error::Error::new(rest, code)))
}

/// Which step of the entity grammar fails on `b` (see [`entity_error_at`]).
pub open spec fn entity_error_kind(b: Seq<u8>) -> GrammarFailure {
    let s0 = ws_end(b, 0);
    let d = digits_end(b, s0 + 1);
    let s2 = ws_end(b, ws_end(b, d) + 1);
    if !byte_is(b, s0, 0x23) {
        GrammarFailure::Char
    } else if d == s0 + 1 {
        GrammarFailure::Digit
    } else if digits_value(b.subrange(s0 + 1, d)) > u32::MAX {
        GrammarFailure::MapRes
    } else if !byte_is(b, ws_end(b, d), 0x3d) {
        GrammarFailure::Char
    } else if word_end(b, s2) == s2 {
        GrammarFailure::TakeWhile1
    } else {
        GrammarFailure::Char
    }
}

/// The message of the error for a line `b` that does not parse: nom's
/// rendering of the failing step at the rest of the line.
pub open spec fn entity_error_message(b: Seq<u8>) -> Seq<char> {
    "failed to parse entity: "@ + nom_error_text(
        decode_utf8(b.subrange(entity_error_at(b), b.len() as int)),
        entity_error_kind(b),
    )
}

/// The error [`parse_entity`] reports for `input` when the grammar stops
/// matching at byte `position`, with the failing step `kind`.
fn entity_failure<T>(input: &str, position: usize, kind: GrammarFailure) -> (r: Result<T>)
    requires
        at_char(input.spec_bytes(), position as int),
    ensures
        r matches Err(e) && e is Parse && e->Parse_position == position
            && e->Parse_message@ == "failed to parse entity: "@ + nom_error_text(
            decode_utf8(input.spec_bytes().subrange(position as int, input.spec_bytes().len() as int)),
            kind,
        ),
{
    proof {
        lemma_ends(input.spec_bytes());
    }
    let n = input.as_bytes().len();
    let rest = substr(input, position, n);
    proof {
        encode_utf8_decode_utf8(rest@);
    }
    let text = render_nom_error(rest, kind);
    let mut message = String::from_str("failed to parse entity: ");
    message.append(text.as_str());
    Err(Error::Parse { position, message })
}

/// Parse a complete STEP entity line, including the trailing `;`.
///
/// On success the id, the type looked up from the type name, and the
/// attribute tokens are those of [`entity_spec`]; otherwise the error is
/// an [`Error::Parse`] at the offset where the grammar stops matching
/// ([`entity_error_at`]), whose message is nom's rendering of the failing
/// step ([`entity_error_message`]).
pub fn parse_entity(input: &str) -> (r: Result<(EntityId, IfcType, Vec<Token<'_>>)>)
    ensures
        r is Ok <==> entity_spec(input.spec_bytes()) is Some,
        r matches Ok((id, t, args)) ==> {
            let (v, name, ms) = entity_spec(input.spec_bytes()).unwrap();
            &&& id.spec_value() == v
            &&& t@ == view_of_name(decode_utf8(name))
            &&& Token::models(args@) == ms
        },
        r matches Err(e) ==> e is Parse && e->Parse_position == entity_error_at(input.spec_bytes())
            && e->Parse_message@ == entity_error_message(input.spec_bytes()),
{
    let c = Cursor::new(input);
    let ghost b = c.b();
    let s0 = c.ws(0);
    if !c.byte_is(s0, 0x23) {
        return entity_failure(input, s0, GrammarFailure::Char);
    }
    proof {
        lemma_ascii_step(b, s0 as int);
        lemma_digits_end_bounds(b, s0 + 1);
    }
    let d = c.digits(s0 + 1);
    if d == s0 + 1 {
        return entity_failure(input, s0 + 1, GrammarFailure::Digit);
    }
    let v = match c.value(s0 + 1, d, 0xffff_ffff) {
        Some(v) => v,
        None => {
            return entity_failure(input, s0 + 1, GrammarFailure::MapRes);
        },
    };
    let s1 = c.ws(d);
    if !c.byte_is(s1, 0x3d) {
        return entity_failure(input, s1, GrammarFailure::Char);
    }
    proof {
        lemma_ascii_step(b, s1 as int);
    }
    let s2 = c.ws(s1 + 1);
    let e2 = c.word(s2);
    if e2 == s2 {
        return entity_failure(input, s2, GrammarFailure::TakeWhile1);
    }
    let s3 = c.ws(e2);
    if !c.byte_is(s3, 0x28) {
        return entity_failure(input, s3, GrammarFailure::Char);
    }
    proof {
        lemma_ascii_step(b, s3 as int);
    }
    let (args, q) = c.items(s3 + 1);
    if !c.byte_is(q, 0x29) {
        return entity_failure(input, q, GrammarFailure::Char);
    }
    proof {
        lemma_ascii_step(b, q as int);
    }
    let s4 = c.ws(q + 1);
    if !c.byte_is(s4, 0x3b) {
        return entity_failure(input, s4, GrammarFailure::Char);
    }
    let name = substr(input, s2, e2);
    proof {
        encode_utf8_decode_utf8(name@);
    }
    Ok((EntityId::new(v as u32), IfcType::from_name(name), args))
}

} // verus!
