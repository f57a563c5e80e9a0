//! Entity decoding.
//!
//! [`decode_line`] tokenizes one STEP entity line and converts the
//! tokens to owned [`AttributeValue`]s.  [`decode_entity`] and
//! [`decode_by_id`] wrap that work in a `comp_cat_rs` [`Io`] so that it
//! runs only when the caller runs the effect.
use comp_cat_rs::effect::io::Io;
use vstd::prelude::*;
use vstd::string::StringSliceAdditionalSpecFns;
use vstd::utf8::{decode_utf8, is_char_boundary};
use crate::attribute::{AttributeValue, DecodedEntity, DecodedView, values_of_tokens};
use crate::effect::{decoding_outcome, suspend_decoding};
use crate::entity_id::EntityId;
use crate::error::{Error, Result};
use crate::ifc_type::view_of_name;
use crate::parse::{entity_error_at, entity_error_message, entity_spec, parse_entity};
use crate::scan::EntityIndex;
use crate::text::{lemma_at_char_of_boundary, lemma_str_valid, string_bytes, substr};
use crate::token::Token;

verus! {

/// The entity that a line decodes to, if it parses.
pub open spec fn decode_spec(b: Seq<u8>) -> Option<DecodedView> {
    match entity_spec(b) {
        Some((id, name, args)) => Some(
            DecodedView {
                id,
                ifc_type: view_of_name(decode_utf8(name)),
                attributes: values_of_tokens(args),
            },
        ),
        None => None,
    }
}

/// The outcome of decoding one line.
pub type Decoding = Result<DecodedEntity>;

/// `r` is what decoding the line with bytes `b` gives: the entity of
/// [`decode_spec`] when the line parses, otherwise a parse error at the
/// offset where the grammar fails, with the message of
/// [`entity_error_message`].
pub open spec fn decoded_as(b: Seq<u8>, r: Result<DecodedEntity>) -> bool {
    &&& r is Ok <==> decode_spec(b) is Some
    &&& r matches Ok(e) ==> decode_spec(b) == Some(e@)
    &&& r matches Err(e) ==> e is Parse && e->Parse_position == entity_error_at(b)
        && e->Parse_message@ == entity_error_message(b)
}

/// Decode one entity line: tokenize it and convert the tokens to owned values.
pub fn decode_line(line: &str) -> (r: Result<DecodedEntity>)
    ensures
        decoded_as(line.spec_bytes(), r),
{
    match parse_entity(line) {
        Err(e) => Err(e),
        Ok((id, ifc_type, tokens)) => {
            let empty: Vec<AttributeValue> = Vec::new();
            assert(AttributeValue::models(empty@) =~= Seq::empty());
            let attributes = AttributeValue::from_tokens(&tokens, empty);
            assert(AttributeValue::models(attributes@) =~= values_of_tokens(
                Token::models(tokens@),
            ));
            let e = DecodedEntity::new(id, ifc_type, attributes);
            assert(decode_spec(line.spec_bytes()).unwrap() =~= e@);
            Ok(e)
        },
    }
}

/// Decode one entity from the byte range `start..end` of `content`.
///
/// The range is copied now; it is tokenized when the returned [`Io`]
/// runs, which yields the result of [`decode_line`] on it.
pub fn decode_entity(content: &str, start: usize, end: usize) -> (r: Io<Error, DecodedEntity>)
    requires
        start <= end,
        content.is_char_boundary(start),
        content.is_char_boundary(end),
    ensures
        decoded_as(
            content.spec_bytes().subrange(start as int, end as int),
            decoding_outcome(r),
        ),
{
    proof {
        lemma_str_valid(content);
        lemma_at_char_of_boundary(content.spec_bytes(), start as int);
        lemma_at_char_of_boundary(content.spec_bytes(), end as int);
    }
    let part = substr(content, start, end);
    let slice = part.to_owned();
    let ghost b = content.spec_bytes().subrange(start as int, end as int);
    assert(string_bytes(slice) == b);
    let run = move || -> (o: Decoding)
        requires
            string_bytes(slice) == b,
        ensures
            decoded_as(b, o),
        {
            decode_line(slice.as_str())
        };
    suspend_decoding(run)
}

/// The byte range `r` runs, within the text `b`, between two char
/// boundaries, so that it can be cut out of it.
pub open spec fn range_cuts(r: (usize, usize), b: Seq<u8>) -> bool {
    &&& r.0 <= r.1
    &&& is_char_boundary(b, r.0 as int)
    &&& is_char_boundary(b, r.1 as int)
}

/// Decode an entity by its [`EntityId`] using an index built from `content`.
///
/// When the id is not in the index the returned [`Io`] fails with
/// [`Error::InvalidEntityRef`] and the id.
pub fn decode_by_id(content: &str, index: &EntityIndex, entity_id: EntityId) -> (r: Io<
    Error,
    DecodedEntity,
>)
    requires
        index@.contains_key(entity_id.spec_value()) ==> range_cuts(
            index@[entity_id.spec_value()],
            content.spec_bytes(),
        ),
    ensures
        index@.contains_key(entity_id.spec_value()) ==> decoded_as(
            content.spec_bytes().subrange(
                index@[entity_id.spec_value()].0 as int,
                index@[entity_id.spec_value()].1 as int,
            ),
            decoding_outcome(r),
        ),
        !index@.contains_key(entity_id.spec_value()) ==> decoding_outcome(r) == Err::<
            DecodedEntity,
            Error,
        >(Error::InvalidEntityRef(entity_id.spec_value())),
{
    match index.get(&entity_id) {
        Some((start, end)) => decode_entity(content, start, end),
        None => {
            let id = entity_id.value();
            let fail = move || -> (o: Decoding)
                ensures
                    o matches Err(Error::InvalidEntityRef(k)) && k == id,
                {
                    Err(Error::InvalidEntityRef(id))
                };
            suspend_decoding(fail)
        },
    }
}

} // verus!
