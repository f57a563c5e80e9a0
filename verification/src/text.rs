//! Text helpers shared by the scanner and the tokenizer.
//!
//! STEP content is handled as the UTF-8 bytes of a `&str`.  Every
//! position the tokenizer stands on is the start of a character; the
//! character that starts there is read with [`char_at`] and classified
//! with the predicates below.
use vstd::prelude::*;
use vstd::string::{StringExecFns, StringSliceAdditionalSpecFns};
use vstd::utf8::*;

verus! {

broadcast use vstd::string::group_string_axioms;

/// Two strings are equal exactly when their UTF-8 encodings are.
pub proof fn lemma_encoding_injective(a: Seq<char>, b: Seq<char>)
    requires
        encode_utf8(a) == encode_utf8(b),
    ensures
        a == b,
{
    encode_utf8_decode_utf8(a);
    encode_utf8_decode_utf8(b);
}

/// Compare two string slices character for character.
pub fn str_eq(a: &str, b: &str) -> (r: bool)
    ensures
        r == (a@ == b@),
{
    let x = a.as_bytes();
    let y = b.as_bytes();
    if x.len() != y.len() {
        return false;
    }
    let mut i: usize = 0;
    while i < x.len()
        invariant
            x@ == a.spec_bytes(),
            y@ == b.spec_bytes(),
            x@.len() == y@.len(),
            i <= x@.len(),
            forall|j: int| 0 <= j < i ==> x@[j] == y@[j],
        decreases x@.len() - i,
    {
        if x[i] != y[i] {
            return false;
        }
        i = i + 1;
    }
    proof {
        assert(x@ =~= y@);
        lemma_encoding_injective(a@, b@);
    }
    true
}

// ───────────────────────────────────────────────────────────────────
// Characters inside a byte sequence
// ───────────────────────────────────────────────────────────────────

/// The UTF-8 bytes of an owned string.
pub open spec fn string_bytes(s: String) -> Seq<u8> {
    encode_utf8(s@)
}

/// The bytes from `p` to the end.
pub open spec fn rest_of(b: Seq<u8>, p: int) -> Seq<u8> {
    b.subrange(p, b.len() as int)
}

/// `p` is the start of a character (or the end) of the valid UTF-8 text `b`.
pub open spec fn at_char(b: Seq<u8>, p: int) -> bool {
    &&& 0 <= p <= b.len()
    &&& valid_utf8(b)
    &&& valid_utf8(rest_of(b, p))
}

/// The code point of the character that starts at byte `p`.
pub open spec fn code_at(b: Seq<u8>, p: int) -> u32 {
    decode_first_scalar(rest_of(b, p))
}

/// The number of bytes of the character that starts at byte `p` (1 to 4).
pub open spec fn width_at(b: Seq<u8>, p: int) -> int {
    length_of_first_scalar(rest_of(b, p))
}

/// The character that starts at byte `p`.
pub open spec fn char_at(b: Seq<u8>, p: int) -> char {
    code_at(b, p) as char
}

/// Unicode `White_Space`, the property that `char::is_whitespace` tests.
pub open spec fn is_white_space_code(c: u32) -> bool {
    ||| 0x09 <= c <= 0x0d
    ||| c == 0x20
    ||| c == 0x85
    ||| c == 0xa0
    ||| c == 0x1680
    ||| 0x2000 <= c <= 0x200a
    ||| c == 0x2028
    ||| c == 0x2029
    ||| c == 0x202f
    ||| c == 0x205f
    ||| c == 0x3000
}

/// What `char::is_alphanumeric` answers for `c` (Unicode `Alphabetic` or `Numeric`).
pub uninterp spec fn alphanumeric(c: char) -> bool;

/// An ASCII letter or digit.
pub open spec fn is_ascii_alnum(c: char) -> bool {
    ('0' <= c <= '9') || ('A' <= c <= 'Z') || ('a' <= c <= 'z')
}

/// `char::is_alphanumeric` from std.
///
/// The Unicode tables behind it are not restated here: the contract names
/// the answer, which depends on the character alone, and states the ASCII
/// case, where the letters and digits are exactly the alphanumeric ones.
#[verifier::external_body]
pub(crate) fn is_alphanumeric(c: char) -> (r: bool)
    ensures
        r == alphanumeric(c),
        (c as u32) < 0x80 ==> (r <==> is_ascii_alnum(c)),
{
    c.is_alphanumeric()
}

/// Whitespace in the sense of `char::is_whitespace`.
pub fn is_white_space(c: char) -> (r: bool)
    ensures
        r == is_white_space_code(c as u32),
{
    let v = c as u32;
    (0x09 <= v && v <= 0x0d) || v == 0x20 || v == 0x85 || v == 0xa0 || v == 0x1680 || (0x2000
        <= v && v <= 0x200a) || v == 0x2028 || v == 0x2029 || v == 0x202f || v == 0x205f || v
        == 0x3000
}

/// Number of bytes in the UTF-8 encoding of `c`.
pub fn utf8_width(c: char) -> (w: usize)
    ensures
        w == encode_scalar(c as u32).len(),
{
    let v = c as u32;
    proof {
        char_is_scalar(c);
    }
    if v < 0x80 {
        1
    } else if v < 0x800 {
        2
    } else if v < 0x10000 {
        3
    } else {
        4
    }
}

/// An ASCII byte at a character start is a whole character.
pub proof fn lemma_ascii_at(b: Seq<u8>, p: int)
    requires
        at_char(b, p),
        p < b.len(),
        b[p] < 0x80,
    ensures
        code_at(b, p) == b[p] as u32,
        char_at(b, p) == b[p] as char,
        width_at(b, p) == 1,
{
    let r = rest_of(b, p);
    assert(r[0] == b[p]);
    let x = b[p];
    assert(x < 0x80 ==> (x & 0x7f) == x) by (bit_vector);
}

/// Stepping over one character keeps us at a character start.
pub proof fn lemma_step(b: Seq<u8>, p: int)
    requires
        at_char(b, p),
        p < b.len(),
    ensures
        1 <= width_at(b, p) <= b.len() - p,
        at_char(b, p + width_at(b, p)),
{
    let r = rest_of(b, p);
    assert(valid_first_scalar(r));
    let w = width_at(b, p);
    assert(pop_first_scalar(r) =~= rest_of(b, p + w));
}

/// A byte that is not a UTF-8 continuation byte starts a character.
pub proof fn lemma_char_start(b: Seq<u8>, p: int)
    requires
        valid_utf8(b),
        0 <= p < b.len(),
        !is_continuation_byte(b[p]),
    ensures
        at_char(b, p),
{
    is_char_boundary_iff_not_is_continuation_byte(b, p);
    valid_utf8_split(b, p);
}

/// The whole text, and its end, are character starts.
pub proof fn lemma_ends(b: Seq<u8>)
    requires
        valid_utf8(b),
    ensures
        at_char(b, 0),
        at_char(b, b.len() as int),
{
    assert(rest_of(b, 0) =~= b);
    assert(rest_of(b, b.len() as int) =~= Seq::<u8>::empty());
}

/// A character start is a char boundary in the sense of `str::split_at`.
pub proof fn lemma_boundary(b: Seq<u8>, p: int)
    requires
        at_char(b, p),
    ensures
        is_char_boundary(b, p),
{
    is_char_boundary_start_end_of_seq(b);
    if p < b.len() {
        let r = rest_of(b, p);
        assert(valid_first_scalar(r));
        assert(r[0] == b[p]);
        is_char_boundary_iff_not_is_continuation_byte(b, p);
    }
}

/// A char boundary in the sense of `str::is_char_boundary` is a character start.
pub proof fn lemma_at_char_of_boundary(b: Seq<u8>, p: int)
    requires
        valid_utf8(b),
        is_char_boundary(b, p),
    ensures
        at_char(b, p),
{
    valid_utf8_split(b, p);
}

/// The text of a `&str` is valid UTF-8.
pub proof fn lemma_str_valid(s: &str)
    ensures
        valid_utf8(s.spec_bytes()),
{
    encode_utf8_valid_utf8(s@);
}

/// The part of `s` between two character starts.
pub fn substr<'a>(s: &'a str, from: usize, to: usize) -> (r: &'a str)
    requires
        at_char(s.spec_bytes(), from as int),
        at_char(s.spec_bytes(), to as int),
        from <= to,
    ensures
        r.spec_bytes() == s.spec_bytes().subrange(from as int, to as int),
{
    let ghost b = s.spec_bytes();
    proof {
        lemma_boundary(b, from as int);
    }
    let (_, tail) = s.split_at(from);
    let ghost t = tail.spec_bytes();
    assert(t =~= rest_of(b, from as int));
    proof {
        lemma_str_valid(tail);
        let k = (to - from) as int;
        if k < t.len() {
            assert(t[k] == b[to as int]);
            lemma_boundary(b, to as int);
            is_char_boundary_iff_not_is_continuation_byte(b, to as int);
            is_char_boundary_iff_not_is_continuation_byte(t, k);
        } else {
            is_char_boundary_start_end_of_seq(t);
        }
    }
    let (mid, _) = tail.split_at(to - from);
    assert(mid.spec_bytes() =~= b.subrange(from as int, to as int));
    mid
}

/// The character that starts at byte `p` of `s`, and its width.
pub fn decode_at(s: &str, p: usize) -> (r: (char, usize))
    requires
        at_char(s.spec_bytes(), p as int),
        p < s.spec_bytes().len(),
    ensures
        r.0 == char_at(s.spec_bytes(), p as int),
        r.0 as u32 == code_at(s.spec_bytes(), p as int),
        r.1 == width_at(s.spec_bytes(), p as int),
{
    let ghost b = s.spec_bytes();
    proof {
        lemma_boundary(b, p as int);
    }
    let (_, tail) = s.split_at(p);
    assert(tail.spec_bytes() =~= rest_of(b, p as int));
    assert(tail@.len() > 0);
    let mut it = tail.chars();
    let c = match it.next() {
        Some(c) => c,
        None => ' ',
    };
    proof {
        encode_utf8_first_scalar(tail@);
        char_u32_cast(c, c as u32);
    }
    (c, utf8_width(c))
}

// ───────────────────────────────────────────────────────────────────
// Decimal text
// ───────────────────────────────────────────────────────────────────

/// The decimal digit character for `d < 10`.
pub open spec fn digit_char(d: nat) -> char {
    (d + 0x30) as char
}

/// The decimal digits of `n`, most significant first, without leading zeros.
pub open spec fn decimal_chars(n: nat) -> Seq<char>
    decreases n,
{
    if n < 10 {
        seq![digit_char(n)]
    } else {
        decimal_chars(n / 10) + seq![digit_char(n % 10)]
    }
}

/// The one-character text of the decimal digit `d`.
fn digit_text(d: u64) -> (r: &'static str)
    requires
        d < 10,
    ensures
        r@ == seq![digit_char(d as nat)],
{
    match d {
        0 => {
            proof {
                reveal_strlit("0");
            }
            "0"
        },
        1 => {
            proof {
                reveal_strlit("1");
            }
            "1"
        },
        2 => {
            proof {
                reveal_strlit("2");
            }
            "2"
        },
        3 => {
            proof {
                reveal_strlit("3");
            }
            "3"
        },
        4 => {
            proof {
                reveal_strlit("4");
            }
            "4"
        },
        5 => {
            proof {
                reveal_strlit("5");
            }
            "5"
        },
        6 => {
            proof {
                reveal_strlit("6");
            }
            "6"
        },
        7 => {
            proof {
                reveal_strlit("7");
            }
            "7"
        },
        8 => {
            proof {
                reveal_strlit("8");
            }
            "8"
        },
        _ => {
            proof {
                reveal_strlit("9");
            }
            "9"
        },
    }
}

/// The decimal digits of `n`.
pub(crate) fn decimal(n: u64) -> (s: String)
    ensures
        s@ == decimal_chars(n as nat),
    decreases n,
{
    if n < 10 {
        String::from_str(digit_text(n))
    } else {
        let mut s = decimal(n / 10);
        s.append(digit_text(n % 10));
        s
    }
}

/// A new string holding `s`.
pub fn string_of(s: &str) -> (r: String)
    ensures
        r@ == s@,
{
    s.to_owned()
}

// ───────────────────────────────────────────────────────────────────
// Byte search
// ───────────────────────────────────────────────────────────────────

/// First position at or after `p` that holds the byte `x`.
pub open spec fn first_byte_from(b: Seq<u8>, x: u8, p: int) -> Option<int>
    decreases b.len() - p,
{
    if p < 0 || p >= b.len() {
        None
    } else if b[p] == x {
        Some(p)
    } else {
        first_byte_from(b, x, p + 1)
    }
}

/// `memchr::memchr`: the index of the first occurrence of `needle` in
/// `haystack`, or `None` when the byte does not occur.
#[verifier::external_body]
pub(crate) fn find_byte(needle: u8, haystack: &[u8]) -> (r: Option<usize>)
    ensures
        r matches Some(i) ==> first_byte_from(haystack@, needle, 0) == Some(i as int),
        r is None ==> first_byte_from(haystack@, needle, 0) is None,
{
    memchr::memchr(needle, haystack)
}

/// Searching the tail from `p` is searching the whole text from `p` on.
pub proof fn lemma_first_byte_shift(b: Seq<u8>, x: u8, p: int, k: int)
    requires
        0 <= p <= b.len(),
        0 <= k,
    ensures
        first_byte_from(b.subrange(p, b.len() as int), x, k) matches Some(i) ==> first_byte_from(
            b,
            x,
            p + k,
        ) == Some(p + i),
        first_byte_from(b.subrange(p, b.len() as int), x, k) is None ==> first_byte_from(
            b,
            x,
            p + k,
        ) is None,
    decreases b.len() - p - k,
{
    if p + k < b.len() {
        lemma_first_byte_shift(b, x, p, k + 1);
    }
}

/// A found byte lies at or after the start of the search and is the byte sought.
pub proof fn lemma_first_byte_bound(b: Seq<u8>, x: u8, p: int)
    ensures
        first_byte_from(b, x, p) matches Some(i) ==> p <= i < b.len() && b[i] == x,
    decreases b.len() - p,
{
    if 0 <= p < b.len() && b[p] != x {
        lemma_first_byte_bound(b, x, p + 1);
    }
}

} // verus!
