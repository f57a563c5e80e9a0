//! Entity scanning: discover entities in STEP content.
//!
//! The scanner walks through raw bytes looking for `#id=TYPE(…);`
//! patterns without tokenizing the attributes.  This is the first pass
//! over an IFC file; it yields byte ranges for the decoder.
use std::collections::HashMap;
use std::sync::Arc;
use comp_cat_rs::effect::io::Io;
use comp_cat_rs::effect::stream::Stream;
use vstd::prelude::*;
use vstd::string::StringSliceAdditionalSpecFns;
use vstd::utf8::*;
use crate::entity_id::EntityId;
use crate::error::Error;
use crate::ifc_type::{IfcType, view_of_name};
use crate::text::{
    at_char, find_byte, first_byte_from, lemma_ascii_at, lemma_boundary, lemma_char_start,
    lemma_first_byte_bound, lemma_first_byte_shift, lemma_step, lemma_str_valid, string_bytes,
};

verus! {

broadcast use vstd::std_specs::hash::group_hash_axioms;

// ═══════════════════════════════════════════════════════════════════
// ScannedEntity
// ═══════════════════════════════════════════════════════════════════

/// What a [`ScannedEntity`] records, as plain values.
#[verifier::ext_equal]
pub struct ScannedView {
    pub id: u32,
    pub ifc_type: (int, Seq<char>),
    pub raw_name: Seq<char>,
    pub start: usize,
    pub end: usize,
}

/// A lightweight descriptor produced by the first-pass scanner.
#[derive(Debug, Clone)]
pub struct ScannedEntity {
    id: EntityId,
    ifc_type: IfcType,
    raw_name: String,
    start: usize,
    end: usize,
}

impl View for ScannedEntity {
    type V = ScannedView;

    closed spec fn view(&self) -> ScannedView {
        ScannedView {
            id: self.id.spec_value(),
            ifc_type: self.ifc_type@,
            raw_name: self.raw_name@,
            start: self.start,
            end: self.end,
        }
    }
}

impl ScannedEntity {
    /// Construct a new scanned entity descriptor.
    pub fn new(id: EntityId, ifc_type: IfcType, raw_name: String, start: usize, end: usize) -> (e:
        Self)
        ensures
            e@ == (ScannedView {
                id: id.spec_value(),
                ifc_type: ifc_type@,
                raw_name: raw_name@,
                start,
                end,
            }),
    {
        ScannedEntity { id, ifc_type, raw_name, start, end }
    }

    /// Entity identifier.
    pub fn id(&self) -> (r: EntityId)
        ensures
            r.spec_value() == self@.id,
    {
        self.id
    }

    /// Parsed IFC type.
    pub fn ifc_type(&self) -> (r: &IfcType)
        ensures
            r@ == self@.ifc_type,
    {
        &self.ifc_type
    }

    /// Raw type name as it appeared in the file.
    pub fn raw_name(&self) -> (r: &str)
        ensures
            r@ == self@.raw_name,
    {
        self.raw_name.as_str()
    }

    /// Byte offset where the entity starts (at `#`).
    pub fn start(&self) -> (r: usize)
        ensures
            r == self@.start,
    {
        self.start
    }

    /// Byte offset one past the trailing `;`.
    pub fn end(&self) -> (r: usize)
        ensures
            r == self@.end,
    {
        self.end
    }
}

// ═══════════════════════════════════════════════════════════════════
// What the scanner recognises
// ═══════════════════════════════════════════════════════════════════

/// An ASCII decimal digit.
pub open spec fn is_digit_byte(x: u8) -> bool {
    0x30 <= x <= 0x39
}

/// ASCII whitespace in the sense of `u8::is_ascii_whitespace`.
pub open spec fn is_ascii_ws_byte(x: u8) -> bool {
    x == 0x20 || x == 0x09 || x == 0x0a || x == 0x0c || x == 0x0d
}

/// A byte that may appear in a type name: anything but `(` and ASCII whitespace.
pub open spec fn is_name_byte(x: u8) -> bool {
    x != 0x28 && !is_ascii_ws_byte(x)
}

/// End of the run of digits that starts at `p`.
pub open spec fn digits_end(b: Seq<u8>, p: int) -> int
    decreases b.len() - p,
{
    if 0 <= p < b.len() && is_digit_byte(b[p]) {
        digits_end(b, p + 1)
    } else {
        p
    }
}

/// End of the run of ASCII whitespace that starts at `p`.
pub open spec fn ascii_ws_end(b: Seq<u8>, p: int) -> int
    decreases b.len() - p,
{
    if 0 <= p < b.len() && is_ascii_ws_byte(b[p]) {
        ascii_ws_end(b, p + 1)
    } else {
        p
    }
}

/// End of the run of type-name bytes that starts at `p`.
pub open spec fn name_run_end(b: Seq<u8>, p: int) -> int
    decreases b.len() - p,
{
    if 0 <= p < b.len() && is_name_byte(b[p]) {
        name_run_end(b, p + 1)
    } else {
        p
    }
}

/// The number written by a run of decimal digits.
pub open spec fn digits_value(s: Seq<u8>) -> nat
    decreases s.len(),
{
    if s.len() == 0 {
        0
    } else {
        digits_value(s.drop_last()) * 10 + (s.last() - 0x30) as nat
    }
}

/// Position of the first `;` at or after `p` that lies outside a
/// single-quoted string; `in_string` says whether `p` is inside one.
/// A doubled quote closes the string and reopens it.
pub open spec fn terminator_from(b: Seq<u8>, p: int, in_string: bool) -> Option<int>
    decreases b.len() - p,
{
    if p < 0 || p >= b.len() {
        None
    } else if in_string {
        terminator_from(b, p + 1, b[p] != 0x27)
    } else if b[p] == 0x3b {
        Some(p)
    } else {
        terminator_from(b, p + 1, b[p] == 0x27)
    }
}

/// The number of `'` bytes in `b[p..i]`.
pub open spec fn quote_count(b: Seq<u8>, p: int, i: int) -> nat
    decreases i - p,
{
    if p >= i {
        0
    } else {
        (if b[p] == 0x27 {
            1nat
        } else {
            0nat
        }) + quote_count(b, p + 1, i)
    }
}

/// Byte `j` lies outside single-quoted strings when reading from `p`,
/// with `in_string` saying whether `p` is inside one: the quotes before it
/// (and the open string, if any) pair up.
pub open spec fn outside_quotes(b: Seq<u8>, p: int, in_string: bool, j: int) -> bool {
    (quote_count(b, p, j) + if in_string {
        1nat
    } else {
        0nat
    }) % 2 == 0
}

/// The terminator of an entity is the first `;` outside single-quoted
/// strings: a `;` inside quotes (doubled quotes included) never ends it,
/// and `"` is an ordinary byte.
pub proof fn lemma_terminator_outside_quotes(b: Seq<u8>, p: int, in_string: bool, i: int)
    requires
        0 <= p,
    ensures
        terminator_from(b, p, in_string) == Some(i) <==> {
            &&& p <= i < b.len()
            &&& b[i] == 0x3b
            &&& outside_quotes(b, p, in_string, i)
            &&& forall|j: int|
                p <= j < i ==> !(#[trigger] b[j] == 0x3b && outside_quotes(b, p, in_string, j))
        },
    decreases b.len() - p,
{
    if p < b.len() {
        let next = if in_string {
            b[p] != 0x27
        } else {
            b[p] == 0x27
        };
        lemma_terminator_outside_quotes(b, p + 1, next, i);
        assert forall|j: int| p < j implies #[trigger] outside_quotes(b, p, in_string, j)
            == outside_quotes(b, p + 1, next, j) by {
            assert(quote_count(b, p, j) == (if b[p] == 0x27 {
                1nat
            } else {
                0nat
            }) + quote_count(b, p + 1, j));
        }
        assert(outside_quotes(b, p, in_string, p) == !in_string);
    }
}

/// The entity that the `#` at `h` starts, and where scanning resumes after
/// it, if that `#` starts a well-formed entity.
///
/// The `#` must be followed by digits, optional ASCII whitespace, `=`,
/// optional ASCII whitespace and a non-empty type name (valid UTF-8, up to
/// `(` or whitespace); the entity ends after the first `;` that lies
/// outside a quoted string.
pub open spec fn entity_at(b: Seq<u8>, h: int) -> Option<(ScannedView, int)> {
    let id_end = digits_end(b, h + 1);
    let eq = ascii_ws_end(b, id_end);
    let ts = ascii_ws_end(b, eq + 1);
    let te = name_run_end(b, ts);
    let name = b.subrange(ts, te);
    if id_end == h + 1 || eq >= b.len() || b[eq] != 0x3d || te == ts || !valid_utf8(name) {
        None
    } else {
        match terminator_from(b, h, false) {
            None => None,
            Some(semi) => Some(
                (
                    ScannedView {
                        id: (digits_value(b.subrange(h + 1, id_end)) % 0x1_0000_0000) as u32,
                        ifc_type: view_of_name(decode_utf8(name)),
                        raw_name: decode_utf8(name),
                        start: h as usize,
                        end: (semi + 1) as usize,
                    },
                    semi + 1,
                ),
            ),
        }
    }
}

/// The next entity at or after `position`, and where scanning resumes:
/// the first `#` from `position` on that starts a well-formed entity
/// ([`entity_at`]).  A `#` that does not is passed over.  `None` when no
/// entity remains.
pub open spec fn scan_spec(b: Seq<u8>, position: int) -> Option<(ScannedView, int)>
    decreases b.len() - position,
{
    if position < 0 || position > b.len() {
        None
    } else {
        match first_byte_from(b, 0x23, position) {
            None => None,
            Some(h) => {
                proof {
                    lemma_first_byte_bound(b, 0x23, position);
                }
                match entity_at(b, h) {
                    Some(found) => Some(found),
                    None => scan_spec(b, h + 1),
                }
            },
        }
    }
}

// ═══════════════════════════════════════════════════════════════════
// Calls into memchr and std
// ═══════════════════════════════════════════════════════════════════

/// `std::str::from_utf8`: succeeds exactly on valid UTF-8, and then the
/// string holds the same bytes.
#[verifier::external_body]
fn str_from_utf8(v: &[u8]) -> (r: core::result::Result<&str, std::str::Utf8Error>)
    ensures
        r is Ok <==> valid_utf8(v@),
        r matches Ok(s) ==> s.spec_bytes() == v@,
{
    std::str::from_utf8(v)
}

// ═══════════════════════════════════════════════════════════════════
// Pure scanning helpers
// ═══════════════════════════════════════════════════════════════════

/// End of the run of digits that starts at `p`.
fn scan_digits(bytes: &[u8], p: usize) -> (e: usize)
    requires
        p <= bytes@.len(),
    ensures
        e == digits_end(bytes@, p as int),
        p <= e <= bytes@.len(),
{
    let mut i = p;
    while i < bytes.len() && 0x30 <= bytes[i] && bytes[i] <= 0x39
        invariant
            p <= i <= bytes@.len(),
            digits_end(bytes@, i as int) == digits_end(bytes@, p as int),
        decreases bytes@.len() - i,
    {
        i = i + 1;
    }
    i
}

/// End of the run of ASCII whitespace that starts at `p`.
fn scan_ascii_ws(bytes: &[u8], p: usize) -> (e: usize)
    requires
        p <= bytes@.len(),
    ensures
        e == ascii_ws_end(bytes@, p as int),
        p <= e <= bytes@.len(),
{
    let mut i = p;
    while i < bytes.len() && (bytes[i] == 0x20 || bytes[i] == 0x09 || bytes[i] == 0x0a || bytes[i]
        == 0x0c || bytes[i] == 0x0d)
        invariant
            p <= i <= bytes@.len(),
            ascii_ws_end(bytes@, i as int) == ascii_ws_end(bytes@, p as int),
        decreases bytes@.len() - i,
    {
        i = i + 1;
    }
    i
}

/// End of the run of type-name bytes that starts at `p`.
fn scan_name(bytes: &[u8], p: usize) -> (e: usize)
    requires
        p <= bytes@.len(),
    ensures
        e == name_run_end(bytes@, p as int),
        p <= e <= bytes@.len(),
{
    let mut i = p;
    while i < bytes.len() && bytes[i] != 0x28 && !(bytes[i] == 0x20 || bytes[i] == 0x09 || bytes[i]
        == 0x0a || bytes[i] == 0x0c || bytes[i] == 0x0d)
        invariant
            p <= i <= bytes@.len(),
            name_run_end(bytes@, i as int) == name_run_end(bytes@, p as int),
        decreases bytes@.len() - i,
    {
        i = i + 1;
    }
    i
}

/// Find the entity-terminating `;` at or after `from`, skipping over
/// single-quoted strings that may contain semicolons.
fn find_entity_end(content: &[u8], from: usize) -> (r: Option<usize>)
    requires
        from <= content@.len(),
    ensures
        r matches Some(i) ==> terminator_from(content@, from as int, false) == Some(i as int),
        r is None ==> terminator_from(content@, from as int, false) is None,
{
    let mut in_string = false;
    let mut i = from;
    while i < content.len()
        invariant
            from <= i <= content@.len(),
            terminator_from(content@, i as int, in_string) == terminator_from(
                content@,
                from as int,
                false,
            ),
        decreases content@.len() - i,
    {
        let b = content[i];
        if in_string {
            in_string = b != 0x27;
        } else if b == 0x3b {
            return Some(i);
        } else {
            in_string = b == 0x27;
        }
        i = i + 1;
    }
    None
}

/// The number written by the ASCII digits `bytes`, wrapped to 32 bits.
fn parse_u32_from_digits(bytes: &[u8]) -> (v: u32)
    requires
        forall|k: int| 0 <= k < bytes@.len() ==> is_digit_byte(#[trigger] bytes@[k]),
    ensures
        v == digits_value(bytes@) % 0x1_0000_0000,
{
    let mut acc: u32 = 0;
    let mut i: usize = 0;
    while i < bytes.len()
        invariant
            i <= bytes@.len(),
            forall|k: int| 0 <= k < bytes@.len() ==> is_digit_byte(#[trigger] bytes@[k]),
            acc == digits_value(bytes@.take(i as int)) % 0x1_0000_0000,
        decreases bytes@.len() - i,
    {
        let d = bytes[i] - 0x30;
        let ghost prev = digits_value(bytes@.take(i as int));
        assert(bytes@.take(i + 1).drop_last() =~= bytes@.take(i as int));
        assert(bytes@.take(i + 1).last() == bytes@[i as int]);
        proof {
            let m: int = 0x1_0000_0000;
            let pv: int = prev as int;
            let dv: int = d as int;
            vstd::arithmetic::div_mod::lemma_mul_mod_noop_left(pv, 10, m);
            vstd::arithmetic::div_mod::lemma_add_mod_noop(pv * 10, dv, m);
            vstd::arithmetic::div_mod::lemma_add_mod_noop((pv % m) * 10, dv, m);
            vstd::arithmetic::div_mod::lemma_mod_twice(pv * 10, m);
            assert(((pv % m) * 10 + dv) % m == (pv * 10 + dv) % m);
        }
        acc = acc.wrapping_mul(10).wrapping_add(d as u32);
        i = i + 1;
    }
    assert(bytes@.take(bytes@.len() as int) =~= bytes@);
    acc
}

proof fn lemma_digits_run(b: Seq<u8>, p: int)
    requires
        0 <= p <= b.len(),
    ensures
        p <= digits_end(b, p) <= b.len(),
        forall|k: int| p <= k < digits_end(b, p) ==> is_digit_byte(#[trigger] b[k]),
    decreases b.len() - p,
{
    if p < b.len() && is_digit_byte(b[p]) {
        lemma_digits_run(b, p + 1);
    }
}

proof fn lemma_terminator_bound(b: Seq<u8>, p: int, s: bool)
    ensures
        terminator_from(b, p, s) matches Some(i) ==> p <= i < b.len(),
    decreases b.len() - p,
{
    if 0 <= p < b.len() {
        lemma_terminator_bound(b, p + 1, b[p] != 0x27);
        lemma_terminator_bound(b, p + 1, b[p] == 0x27);
    }
}

/// The entity that the `#` at `line_start` starts, if it is well formed.
fn entity_at_hash(bytes: &[u8], line_start: usize) -> (r: Option<(ScannedEntity, usize)>)
    requires
        line_start < bytes@.len(),
    ensures
        r matches Some((e, n)) ==> entity_at(bytes@, line_start as int) == Some((e@, n as int)),
        r is None ==> entity_at(bytes@, line_start as int) is None,
{
    let ghost b = bytes@;
    let n = bytes.len();
    assert(n == b.len());
    let id_start = line_start + 1;
    let id_end = scan_digits(bytes, id_start);
    if id_end == id_start {
        return None;
    }
    proof {
        lemma_digits_run(b, id_start as int);
    }
    let digits = &bytes[id_start..id_end];
    assert(digits@ =~= b.subrange(id_start as int, id_end as int));
    let id = parse_u32_from_digits(digits);
    let eq_pos = scan_ascii_ws(bytes, id_end);
    if eq_pos >= bytes.len() || bytes[eq_pos] != 0x3d {
        return None;
    }
    let type_start = scan_ascii_ws(bytes, eq_pos + 1);
    let type_end = scan_name(bytes, type_start);
    if type_end == type_start {
        return None;
    }
    let name_bytes = &bytes[type_start..type_end];
    assert(name_bytes@ =~= b.subrange(type_start as int, type_end as int));
    let name = match str_from_utf8(name_bytes) {
        Ok(s) => s,
        Err(_) => {
            return None;
        },
    };
    proof {
        encode_utf8_decode_utf8(name@);
    }
    let semi = match find_entity_end(bytes, line_start) {
        Some(s) => s,
        None => {
            return None;
        },
    };
    proof {
        lemma_terminator_bound(b, line_start as int, false);
    }
    let line_end = semi + 1;
    let entity = ScannedEntity::new(
        EntityId::new(id),
        IfcType::from_name(name),
        name.to_owned(),
        line_start,
        line_end,
    );
    Some((entity, line_end))
}

/// Scan for the next entity at or after `position` in `bytes`.
///
/// Returns the entity and the position just past its terminating `;`,
/// or `None` when no entity remains.  A `#` that does not start a
/// well-formed entity is passed over.
pub fn scan_next(bytes: &[u8], position: usize) -> (r: Option<(ScannedEntity, usize)>)
    ensures
        r matches Some((e, n)) ==> scan_spec(bytes@, position as int) == Some((e@, n as int)),
        r is None ==> scan_spec(bytes@, position as int) is None,
{
    let ghost b = bytes@;
    if position > bytes.len() {
        return None;
    }
    let n = bytes.len();
    let mut pos = position;
    loop
        invariant
            b == bytes@,
            n == b.len(),
            pos <= b.len(),
            scan_spec(b, position as int) == scan_spec(b, pos as int),
        decreases b.len() - pos,
    {
        let (_, remaining) = bytes.split_at(pos);
        assert(remaining@ =~= b.subrange(pos as int, b.len() as int));
        proof {
            lemma_first_byte_shift(b, 0x23, pos as int, 0);
            lemma_first_byte_bound(remaining@, 0x23, 0);
        }
        let hash_offset = match find_byte(0x23, remaining) {
            Some(o) => o,
            None => {
                return None;
            },
        };
        let line_start = pos + hash_offset;
        match entity_at_hash(bytes, line_start) {
            Some(found) => {
                return Some(found);
            },
            None => {
                pos = line_start + 1;
            },
        }
    }
}

// ═══════════════════════════════════════════════════════════════════
// Scanning a whole text
// ═══════════════════════════════════════════════════════════════════

/// Every entity the scanner finds from `position` on, in order.
pub open spec fn scan_all(b: Seq<u8>, position: int) -> Seq<ScannedView>
    decreases b.len() - position,
{
    match scan_spec(b, position) {
        None => Seq::empty(),
        Some((e, next)) => if position < next <= b.len() {
            seq![e] + scan_all(b, next)
        } else {
            seq![e]
        },
    }
}

/// The index of a sequence of scanned entities: each id maps to the byte
/// range of the last entity that carries it.
pub open spec fn index_of(entities: Seq<ScannedView>) -> Map<u32, (usize, usize)>
    decreases entities.len(),
{
    if entities.len() == 0 {
        Map::empty()
    } else {
        let e = entities.last();
        index_of(entities.drop_last()).insert(e.id, (e.start, e.end))
    }
}

/// The index of a sequence of scanned entities holds exactly their ids.
pub proof fn lemma_index_keys(es: Seq<ScannedView>, id: u32)
    ensures
        index_of(es).contains_key(id) <==> exists|i: int| 0 <= i < es.len() && #[trigger] es[i].id == id,
    decreases es.len(),
{
    if es.len() > 0 {
        let rest = es.drop_last();
        lemma_index_keys(rest, id);
        if es.last().id != id {
            if exists|i: int| 0 <= i < es.len() && #[trigger] es[i].id == id {
                let i = choose|i: int| 0 <= i < es.len() && #[trigger] es[i].id == id;
                assert(rest[i].id == id);
            }
            if exists|i: int| 0 <= i < rest.len() && #[trigger] rest[i].id == id {
                let i = choose|i: int| 0 <= i < rest.len() && #[trigger] rest[i].id == id;
                assert(es[i].id == id);
            }
        } else {
            assert(es[es.len() - 1].id == id);
        }
    }
}

/// In the index of a sequence of scanned entities each id maps to the
/// range of the last entity that carries it: a later duplicate overwrites
/// an earlier one.
pub proof fn lemma_index_last_wins(es: Seq<ScannedView>, i: int)
    requires
        0 <= i < es.len(),
        forall|j: int| i < j < es.len() ==> #[trigger] es[j].id != es[i].id,
    ensures
        index_of(es).contains_key(es[i].id),
        index_of(es)[es[i].id] == (es[i].start, es[i].end),
    decreases es.len(),
{
    if i < es.len() - 1 {
        let rest = es.drop_last();
        assert(es[es.len() - 1].id != es[i].id);
        assert forall|j: int| i < j < rest.len() implies #[trigger] rest[j].id != rest[i].id by {
            assert(es[j].id != es[i].id);
        }
        lemma_index_last_wins(rest, i);
    }
}

/// Each range of `m` runs, within the valid UTF-8 text `b`, from a char
/// boundary to a later char boundary.
pub open spec fn ranges_fit(m: Map<u32, (usize, usize)>, b: Seq<u8>) -> bool {
    forall|k: u32|
        #![trigger m[k]]
        m.contains_key(k) ==> {
            &&& m[k].0 < m[k].1
            &&& is_char_boundary(b, m[k].0 as int)
            &&& is_char_boundary(b, m[k].1 as int)
        }
}

proof fn lemma_terminator_byte(b: Seq<u8>, p: int, s: bool)
    ensures
        terminator_from(b, p, s) matches Some(i) ==> b[i] == 0x3b,
    decreases b.len() - p,
{
    if 0 <= p < b.len() {
        lemma_terminator_byte(b, p + 1, b[p] != 0x27);
        lemma_terminator_byte(b, p + 1, b[p] == 0x27);
    }
}

/// A scanned entity spans `#` to `;`, and scanning moves forward.
pub proof fn lemma_scan_progress(b: Seq<u8>, position: int)
    requires
        scan_spec(b, position) is Some,
        b.len() <= usize::MAX,
    ensures
        ({
            let (e, next) = scan_spec(b, position).unwrap();
            &&& position <= e.start < e.end == next <= b.len()
            &&& b[e.start as int] == 0x23
            &&& b[e.end - 1] == 0x3b
        }),
    decreases b.len() - position,
{
    lemma_first_byte_bound(b, 0x23, position);
    let h = first_byte_from(b, 0x23, position).unwrap();
    if entity_at(b, h) is Some {
        lemma_terminator_bound(b, h, false);
        lemma_terminator_byte(b, h, false);
    } else {
        lemma_scan_progress(b, h + 1);
    }
}

/// ASCII whitespace, byte by byte: space, tab, line feed, form feed, return.
pub open spec fn ascii_space(x: u8) -> bool {
    x == 0x20 || x == 0x09 || x == 0x0a || x == 0x0c || x == 0x0d
}

/// A run of ASCII whitespace from `p` covers exactly the whitespace bytes.
pub proof fn lemma_ascii_ws_run(b: Seq<u8>, p: int)
    requires
        0 <= p <= b.len(),
    ensures
        p <= ascii_ws_end(b, p) <= b.len(),
        forall|k: int| p <= k < ascii_ws_end(b, p) ==> ascii_space(#[trigger] b[k]),
        ascii_ws_end(b, p) == b.len() || !ascii_space(b[ascii_ws_end(b, p)]),
    decreases b.len() - p,
{
    if p < b.len() && is_ascii_ws_byte(b[p]) {
        lemma_ascii_ws_run(b, p + 1);
    }
}

/// A type name runs from `p` over every byte that is neither `(` nor ASCII
/// whitespace (digits and all other bytes included), and stops only at a
/// `(`, at ASCII whitespace or at the end.
pub proof fn lemma_name_run(b: Seq<u8>, p: int)
    requires
        0 <= p <= b.len(),
    ensures
        p <= name_run_end(b, p) <= b.len(),
        forall|k: int|
            p <= k < name_run_end(b, p) ==> #[trigger] b[k] != 0x28 && !ascii_space(b[k]),
        name_run_end(b, p) == b.len() || b[name_run_end(b, p)] == 0x28 || ascii_space(
            b[name_run_end(b, p)],
        ),
    decreases b.len() - p,
{
    if p < b.len() && is_name_byte(b[p]) {
        lemma_name_run(b, p + 1);
    }
}

/// The raw name of a scanned entity is the whole type name written after
/// its `=`: past the `=` and any ASCII whitespace, every byte up to the
/// first `(` or ASCII whitespace (or the end).  Its type is the one that
/// name looks up.
pub proof fn lemma_scanned_name(b: Seq<u8>, position: int)
    requires
        scan_spec(b, position) is Some,
        b.len() <= usize::MAX,
    ensures
        ({
            let (e, next) = scan_spec(b, position).unwrap();
            &&& e.ifc_type == view_of_name(e.raw_name)
            &&& exists|eq: int, ts: int, te: int|
                {
                    &&& e.start < eq < ts < te <= b.len()
                    &&& #[trigger] b[eq] == 0x3d
                    &&& forall|k: int| eq < k < ts ==> ascii_space(#[trigger] b[k])
                    &&& encode_utf8(e.raw_name) == #[trigger] b.subrange(ts, te)
                    &&& forall|k: int| ts <= k < te ==> #[trigger] b[k] != 0x28 && !ascii_space(b[k])
                    &&& te == b.len() || b[te] == 0x28 || ascii_space(b[te])
                }
        }),
    decreases b.len() - position,
{
    lemma_first_byte_bound(b, 0x23, position);
    let h = first_byte_from(b, 0x23, position).unwrap();
    if entity_at(b, h) is Some {
        let id_end = digits_end(b, h + 1);
        lemma_digits_run(b, h + 1);
        let eq = ascii_ws_end(b, id_end);
        lemma_ascii_ws_run(b, id_end);
        let ts = ascii_ws_end(b, eq + 1);
        lemma_ascii_ws_run(b, eq + 1);
        let te = name_run_end(b, ts);
        lemma_name_run(b, ts);
        decode_utf8_encode_utf8(b.subrange(ts, te));
        assert(b[eq] == 0x3d);
    } else {
        lemma_scanned_name(b, h + 1);
    }
}

/// In valid UTF-8 text a scanned entity starts and ends at character starts.
pub proof fn lemma_scan_range_fits(b: Seq<u8>, position: int)
    requires
        scan_spec(b, position) is Some,
        vstd::utf8::valid_utf8(b),
        b.len() <= usize::MAX,
    ensures
        ({
            let (e, next) = scan_spec(b, position).unwrap();
            at_char(b, e.start as int) && at_char(b, e.end as int)
        }),
{
    lemma_scan_progress(b, position);
    let (e, next) = scan_spec(b, position).unwrap();
    lemma_char_start(b, e.start as int);
    let semi = e.end - 1;
    lemma_char_start(b, semi);
    lemma_ascii_at(b, semi);
    lemma_step(b, semi);
}

/// An index from entity ids to the byte ranges of their entities.
///
/// Built by [`build_entity_index`]; when an id occurs more than once,
/// the last occurrence wins.
pub struct EntityIndex {
    map: HashMap<u32, (usize, usize)>,
}

impl View for EntityIndex {
    type V = Map<u32, (usize, usize)>;

    closed spec fn view(&self) -> Map<u32, (usize, usize)> {
        self.map@
    }
}

impl EntityIndex {
    /// Number of distinct ids.
    pub fn len(&self) -> (n: usize)
        ensures
            n == self@.len(),
    {
        self.map.len()
    }

    /// Whether `id` has a range.
    pub fn contains_key(&self, id: &EntityId) -> (b: bool)
        ensures
            b == self@.contains_key(id.spec_value()),
    {
        self.map.contains_key(&id.value())
    }

    /// The byte range of `id`, if it has one.
    pub fn get(&self, id: &EntityId) -> (r: Option<(usize, usize)>)
        ensures
            r == (if self@.contains_key(id.spec_value()) {
                Some(self@[id.spec_value()])
            } else {
                None
            }),
    {
        match self.map.get(&id.value()) {
            Some(range) => Some(*range),
            None => None,
        }
    }
}

/// Build an index mapping each entity id to the `(start, end)` byte
/// offsets of its entity, in a single pass over `content`.
pub fn build_entity_index(content: &str) -> (index: EntityIndex)
    ensures
        index@ == index_of(scan_all(content.spec_bytes(), 0)),
        ranges_fit(index@, content.spec_bytes()),
{
    let bytes = content.as_bytes();
    let ghost b = bytes@;
    let n = bytes.len();
    proof {
        lemma_str_valid(content);
    }
    let mut map: HashMap<u32, (usize, usize)> = HashMap::new();
    let mut pos: usize = 0;
    let ghost done: Seq<ScannedView> = Seq::empty();
    assert(scan_all(b, 0) =~= done + scan_all(b, 0));
    loop
        invariant
            b == bytes@,
            b == content.spec_bytes(),
            vstd::utf8::valid_utf8(b),
            b.len() <= usize::MAX,
            pos <= b.len(),
            scan_all(b, 0) == done + scan_all(b, pos as int),
            map@ == index_of(done),
            ranges_fit(map@, b),
        ensures
            scan_all(b, 0) == done,
            map@ == index_of(done),
            ranges_fit(map@, b),
        decreases b.len() - pos,
    {
        match scan_next(bytes, pos) {
            None => {
                assert(scan_all(b, pos as int) =~= Seq::<ScannedView>::empty());
                assert(done + scan_all(b, pos as int) =~= done);
                break;
            },
            Some((e, next)) => {
                proof {
                    lemma_scan_progress(b, pos as int);
                    lemma_scan_range_fits(b, pos as int);
                    lemma_boundary(b, e@.start as int);
                    lemma_boundary(b, e@.end as int);
                }
                let ghost old_done = done;
                map.insert(e.id().value(), (e.start(), e.end()));
                proof {
                    done = done.push(e@);
                    assert(done.drop_last() =~= old_done);
                    assert(old_done + scan_all(b, pos as int) =~= done + scan_all(b, next as int));
                }
                pos = next;
            },
        }
    }
    EntityIndex { map }
}

// ═══════════════════════════════════════════════════════════════════
// comp-cat-rs Stream API
// ═══════════════════════════════════════════════════════════════════

/// One step of the entity stream: the next entity after `position` in
/// `content`, with the state to continue from.
fn scan_step(state: (String, usize)) -> (r: Option<(ScannedEntity, (String, usize))>)
    ensures
        match scan_spec(string_bytes(state.0), state.1 as int) {
            Some((e, next)) => r matches Some((x, (c, n))) && x@ == e && n == next && c == state.0,
            None => r is None,
        },
{
    let (content, pos) = state;
    let found = scan_next(content.as_str().as_bytes(), pos);
    match found {
        None => None,
        Some((entity, next_pos)) => Some((entity, (content, next_pos))),
    }
}

/// What collecting a stream of scanned entities yields, in order.
pub uninterp spec fn entity_stream_items(s: Stream<Error, ScannedEntity>) -> Seq<ScannedView>;

/// `Stream::unfold` from `(content, 0)`, each pull running [`scan_step`]
/// (lifted with `Io::pure`, so no pull fails): the stream yields the
/// entities `scan_step` yields, in order, until it yields `None`.  By
/// `scan_step`'s contract those are the entities of [`scan_all`].
#[verifier::external_body]
fn unfold_entities(content: String) -> (r: Stream<Error, ScannedEntity>)
    ensures
        entity_stream_items(r) == scan_all(string_bytes(content), 0),
{
    Stream::unfold((content, 0usize), Arc::new(|state: (String, usize)| Io::pure(scan_step(state))))
}

/// A lazy stream of the entities in `content`, in order.
///
/// The content is moved into the stream state; each pull advances the
/// scan position by one [`scan_next`] step.
pub fn scan_entities(content: String) -> (r: Stream<Error, ScannedEntity>)
    ensures
        entity_stream_items(r) == scan_all(string_bytes(content), 0),
{
    unfold_entities(content)
}

} // verus!
