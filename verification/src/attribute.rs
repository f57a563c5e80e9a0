//! Owned attribute values and decoded IFC entities.
//!
//! [`AttributeValue`] is the owned counterpart of [`Token`]: after
//! tokenization the tokens are converted so that they outlive the
//! source text.  A [`DecodedEntity`] bundles an entity's id, type, and
//! attributes.
use vstd::prelude::*;
use vstd::string::StringSliceAdditionalSpecFns;
use vstd::utf8::encode_utf8;
use crate::entity_id::EntityId;
use crate::ifc_type::IfcType;
use crate::token::{Token, TokenModel};

verus! {

/// An attribute value as plain values: texts are their UTF-8 bytes.
pub enum ValueModel {
    EntityRef(u32),
    String(Seq<u8>),
    Integer(i64),
    Float(Seq<u8>),
    Enum(Seq<u8>),
    List(Seq<ValueModel>),
    Null,
    Derived,
}

/// The value a token converts to.  A typed value becomes a list whose
/// first item is the type name as a string, followed by its arguments.
pub open spec fn value_of_token(t: TokenModel) -> ValueModel
    decreases t,
{
    match t {
        TokenModel::EntityRef(id) => ValueModel::EntityRef(id),
        TokenModel::Str(s) => ValueModel::String(s),
        TokenModel::Integer(i) => ValueModel::Integer(i),
        TokenModel::Float(s) => ValueModel::Float(s),
        TokenModel::Enum(s) => ValueModel::Enum(s),
        TokenModel::List(items) => ValueModel::List(values_of_tokens(items)),
        TokenModel::TypedValue(name, args) => ValueModel::List(
            seq![ValueModel::String(name)] + values_of_tokens(args),
        ),
        TokenModel::Null => ValueModel::Null,
        TokenModel::Derived => ValueModel::Derived,
    }
}

/// The values a sequence of tokens converts to, item by item.
pub open spec fn values_of_tokens(items: Seq<TokenModel>) -> Seq<ValueModel>
    decreases items,
{
    Seq::new(
        items.len(),
        |i: int|
            if 0 <= i < items.len() {
                value_of_token(items[i])
            } else {
                ValueModel::Null
            },
    )
}

/// Converting a token keeps its shape: a leaf keeps its reference, text or
/// number; a list keeps its items in order, each converted; a typed value
/// becomes its type name as a string followed by its converted arguments,
/// in order.
pub proof fn lemma_value_of_token_shape(t: TokenModel)
    ensures
        match t {
            TokenModel::EntityRef(id) => value_of_token(t) == ValueModel::EntityRef(id),
            TokenModel::Str(s) => value_of_token(t) == ValueModel::String(s),
            TokenModel::Integer(i) => value_of_token(t) == ValueModel::Integer(i),
            TokenModel::Float(s) => value_of_token(t) == ValueModel::Float(s),
            TokenModel::Enum(s) => value_of_token(t) == ValueModel::Enum(s),
            TokenModel::List(items) => value_of_token(t) matches ValueModel::List(vs) && vs.len()
                == items.len() && forall|k: int|
                0 <= k < items.len() ==> vs[k] == value_of_token(#[trigger] items[k]),
            TokenModel::TypedValue(name, args) => value_of_token(t) matches ValueModel::List(vs)
                && vs.len() == args.len() + 1 && vs[0] == ValueModel::String(name) && forall|k: int|
                0 <= k < args.len() ==> vs[k + 1] == value_of_token(#[trigger] args[k]),
            TokenModel::Null => value_of_token(t) == ValueModel::Null,
            TokenModel::Derived => value_of_token(t) == ValueModel::Derived,
        },
{
}

/// An owned IFC attribute value.
///
/// Created by converting a borrowed [`Token`] via [`AttributeValue::from_token`].
/// A floating-point value is kept as the text of its literal.
#[derive(Debug)]
pub enum AttributeValue {
    /// Entity reference.
    EntityRef(EntityId),
    /// Owned string.
    String(String),
    /// Integer value.
    Integer(i64),
    /// Floating-point value, as the literal was written.
    Float(String),
    /// Enumeration value (without the surrounding dots).
    Enum(String),
    /// List of attribute values.
    List(Vec<AttributeValue>),
    /// Null (`$`) or missing.
    Null,
    /// Derived (`*`).
    Derived,
}

impl AttributeValue {
    /// The value as plain values.
    pub open spec fn model(self) -> ValueModel
        decreases self,
    {
        match self {
            AttributeValue::EntityRef(id) => ValueModel::EntityRef(id.spec_value()),
            AttributeValue::String(s) => ValueModel::String(encode_utf8(s@)),
            AttributeValue::Integer(i) => ValueModel::Integer(i),
            AttributeValue::Float(s) => ValueModel::Float(encode_utf8(s@)),
            AttributeValue::Enum(s) => ValueModel::Enum(encode_utf8(s@)),
            AttributeValue::List(items) => ValueModel::List(Self::models(items@)),
            AttributeValue::Null => ValueModel::Null,
            AttributeValue::Derived => ValueModel::Derived,
        }
    }

    /// A sequence of values as plain values.
    pub open spec fn models(items: Seq<AttributeValue>) -> Seq<ValueModel>
        decreases items,
    {
        Seq::new(
            items.len(),
            |i: int|
                if 0 <= i < items.len() {
                    items[i].model()
                } else {
                    ValueModel::Null
                },
        )
    }
}

impl AttributeValue {
    /// A copy of this value, item by item.
    fn copy(&self) -> (r: Self)
        ensures
            r.model() == self.model(),
        decreases self,
    {
        match self {
            AttributeValue::EntityRef(id) => AttributeValue::EntityRef(*id),
            AttributeValue::String(s) => AttributeValue::String(s.clone()),
            AttributeValue::Integer(i) => AttributeValue::Integer(*i),
            AttributeValue::Float(s) => AttributeValue::Float(s.clone()),
            AttributeValue::Enum(s) => AttributeValue::Enum(s.clone()),
            AttributeValue::List(items) => AttributeValue::List(Self::copy_all(items)),
            AttributeValue::Null => AttributeValue::Null,
            AttributeValue::Derived => AttributeValue::Derived,
        }
    }

    fn copy_all(items: &Vec<AttributeValue>) -> (r: Vec<AttributeValue>)
        ensures
            Self::models(r@) == Self::models(items@),
        decreases items,
    {
        let mut out: Vec<AttributeValue> = Vec::new();
        let mut i: usize = 0;
        while i < items.len()
            invariant
                i <= items@.len(),
                out@.len() == i,
                forall|k: int| 0 <= k < i ==> (#[trigger] out@[k]).model() == items@[k].model(),
            decreases items@.len() - i,
        {
            proof {
                assert(decreases_to!(items => items@[i as int]));
            }
            out.push(items[i].copy());
            i = i + 1;
        }
        assert(Self::models(out@) =~= Self::models(items@));
        out
    }
}

impl Clone for AttributeValue {
    fn clone(&self) -> (r: Self)
        ensures
            r.model() == self.model(),
    {
        self.copy()
    }
}

/// Owned copy of a string slice.
fn owned(s: &str) -> (r: String)
    ensures
        encode_utf8(r@) == s.spec_bytes(),
{
    s.to_owned()
}

impl AttributeValue {
    /// Convert a borrowed [`Token`] into an owned [`AttributeValue`].
    pub fn from_token(token: &Token<'_>) -> (v: Self)
        ensures
            v.model() == value_of_token(token.model()),
        decreases token,
    {
        match token {
            Token::EntityRef(id) => AttributeValue::EntityRef(*id),
            Token::Str(s) => AttributeValue::String(owned(s)),
            Token::Integer(i) => AttributeValue::Integer(*i),
            Token::Float(s) => AttributeValue::Float(owned(s)),
            Token::Enum(s) => AttributeValue::Enum(owned(s)),
            Token::List(items) => {
                let empty: Vec<AttributeValue> = Vec::new();
                assert(Self::models(empty@) =~= Seq::<ValueModel>::empty());
                let out = Self::from_tokens(items, empty);
                assert(Self::models(out@) =~= values_of_tokens(Token::models(items@)));
                AttributeValue::List(out)
            },
            Token::TypedValue(name, args) => {
                let mut head: Vec<AttributeValue> = Vec::new();
                let first = AttributeValue::String(owned(name));
                head.push(first);
                assert(Self::models(head@) =~= seq![first.model()]);
                let out = Self::from_tokens(args, head);
                AttributeValue::List(out)
            },
            Token::Null => AttributeValue::Null,
            Token::Derived => AttributeValue::Derived,
        }
    }

    /// Append the values of `items` to `out`.
    pub(crate) fn from_tokens(items: &Vec<Token<'_>>, out: Vec<AttributeValue>) -> (r: Vec<AttributeValue>)
        ensures
            Self::models(r@) == Self::models(out@) + values_of_tokens(Token::models(items@)),
        decreases items,
    {
        let mut out = out;
        let ghost start = Self::models(out@);
        let mut i: usize = 0;
        while i < items.len()
            invariant
                i <= items@.len(),
                Self::models(out@) == start + values_of_tokens(Token::models(items@.take(i as int))),
            decreases items@.len() - i,
        {
            proof {
                assert(decreases_to!(items => items@[i as int]));
            }
            let v = Self::from_token(&items[i]);
            let ghost before = out@;
            out.push(v);
            proof {
                assert(Self::models(out@) =~= Self::models(before).push(v.model()));
                assert(Token::models(items@.take(i + 1)) =~= Token::models(items@.take(i as int)).push(
                    items@[i as int].model(),
                ));
                assert(values_of_tokens(Token::models(items@.take(i + 1))) =~= values_of_tokens(
                    Token::models(items@.take(i as int)),
                ).push(value_of_token(items@[i as int].model())));
            }
            i = i + 1;
        }
        assert(items@.take(items@.len() as int) =~= items@);
        out
    }
}

// ───────────────────────────────────────────────────────────────────
// Accessors
// ───────────────────────────────────────────────────────────────────

/// A number as written in the file: an integer, or the text of a
/// floating-point literal.
#[derive(Debug, Clone, Copy, PartialEq)]
pub enum Numeric<'a> {
    /// An integer value.
    Integer(i64),
    /// A floating-point literal, as written (e.g. `0.5`, `1.E-3`).
    Float(&'a str),
}

/// A number as plain values.
pub enum NumericModel {
    Integer(i64),
    Float(Seq<u8>),
}

impl<'a> Numeric<'a> {
    pub open spec fn model(self) -> NumericModel {
        match self {
            Numeric::Integer(i) => NumericModel::Integer(i),
            Numeric::Float(s) => NumericModel::Float(s.spec_bytes()),
        }
    }
}

/// The number a value holds: a float or an integer directly, or the
/// second item of a typed-value list `[String(name), number, ...]`.
pub open spec fn numeric_of(v: ValueModel) -> Option<NumericModel> {
    match v {
        ValueModel::Float(s) => Some(NumericModel::Float(s)),
        ValueModel::Integer(i) => Some(NumericModel::Integer(i)),
        ValueModel::List(items) => if items.len() >= 2 && items[0] is String {
            match items[1] {
                ValueModel::Float(s) => Some(NumericModel::Float(s)),
                ValueModel::Integer(i) => Some(NumericModel::Integer(i)),
                _ => None,
            }
        } else {
            None
        },
        _ => None,
    }
}

/// The number a single value holds, if it is a float or an integer.
pub open spec fn plain_numeric_of(v: ValueModel) -> Option<NumericModel> {
    match v {
        ValueModel::Float(s) => Some(NumericModel::Float(s)),
        ValueModel::Integer(i) => Some(NumericModel::Integer(i)),
        _ => None,
    }
}

impl AttributeValue {
    /// Try to extract an entity reference.
    pub fn as_entity_ref(&self) -> (r: Option<EntityId>)
        ensures
            match self.model() {
                ValueModel::EntityRef(v) => r matches Some(id) && id.spec_value() == v,
                _ => r is None,
            },
    {
        match self {
            AttributeValue::EntityRef(id) => Some(*id),
            _ => None,
        }
    }

    /// Try to extract a string slice.
    pub fn as_string(&self) -> (r: Option<&str>)
        ensures
            match self.model() {
                ValueModel::String(s) => r matches Some(x) && x.spec_bytes() == s,
                _ => r is None,
            },
    {
        match self {
            AttributeValue::String(s) => Some(s.as_str()),
            _ => None,
        }
    }

    /// Try to extract an enum name.
    pub fn as_enum(&self) -> (r: Option<&str>)
        ensures
            match self.model() {
                ValueModel::Enum(s) => r matches Some(x) && x.spec_bytes() == s,
                _ => r is None,
            },
    {
        match self {
            AttributeValue::Enum(s) => Some(s.as_str()),
            _ => None,
        }
    }

    /// Try to extract the number this value holds directly: an integer, or
    /// the text of a floating-point literal.  Typed-value wrappers are not
    /// unwrapped.
    pub fn as_int(&self) -> (r: Option<Numeric<'_>>)
        ensures
            match plain_numeric_of(self.model()) {
                Some(n) => r matches Some(x) && x.model() == n,
                None => r is None,
            },
    {
        match self {
            AttributeValue::Float(s) => Some(Numeric::Float(s.as_str())),
            AttributeValue::Integer(i) => Some(Numeric::Integer(*i)),
            _ => None,
        }
    }

    /// Try to extract a number.
    ///
    /// Integers and floats are returned as they are; typed-value wrappers
    /// like `IFCNORMALISEDRATIOMEASURE(0.5)` (stored as
    /// `List([String(name), Float(v)])`) are unwrapped.
    pub fn as_float(&self) -> (r: Option<Numeric<'_>>)
        ensures
            match numeric_of(self.model()) {
                Some(n) => r matches Some(x) && x.model() == n,
                None => r is None,
            },
    {
        match self {
            AttributeValue::List(items) => {
                if items.len() >= 2 {
                    if let AttributeValue::String(_) = &items[0] {
                        assert(Self::models(items@)[1] == items@[1].model());
                        return items[1].as_int();
                    }
                }
                assert(items@.len() >= 2 ==> Self::models(items@)[0] == items@[0].model());
                None
            },
            _ => self.as_int(),
        }
    }

    /// Try to extract a list slice.
    pub fn as_list(&self) -> (r: Option<&[AttributeValue]>)
        ensures
            match self.model() {
                ValueModel::List(ms) => r matches Some(items) && Self::models(items@) == ms,
                _ => r is None,
            },
    {
        match self {
            AttributeValue::List(items) => Some(items.as_slice()),
            _ => None,
        }
    }

    /// `true` when this value is null or derived.
    pub fn is_null(&self) -> (b: bool)
        ensures
            b == (self.model() is Null || self.model() is Derived),
    {
        match self {
            AttributeValue::Null | AttributeValue::Derived => true,
            _ => false,
        }
    }
}

// ───────────────────────────────────────────────────────────────────
// DecodedEntity
// ───────────────────────────────────────────────────────────────────

/// What a [`DecodedEntity`] holds, as plain values.
#[verifier::ext_equal]
pub struct DecodedView {
    pub id: u32,
    pub ifc_type: (int, Seq<char>),
    pub attributes: Seq<ValueModel>,
}

/// A fully-decoded IFC entity with its id, type, and attribute list.
#[derive(Debug, Clone)]
pub struct DecodedEntity {
    id: EntityId,
    ifc_type: IfcType,
    attributes: Vec<AttributeValue>,
}

impl View for DecodedEntity {
    type V = DecodedView;

    closed spec fn view(&self) -> DecodedView {
        DecodedView {
            id: self.id.spec_value(),
            ifc_type: self.ifc_type@,
            attributes: AttributeValue::models(self.attributes@),
        }
    }
}

impl DecodedEntity {
    /// Construct a new decoded entity.
    pub fn new(id: EntityId, ifc_type: IfcType, attributes: Vec<AttributeValue>) -> (e: Self)
        ensures
            e@ == (DecodedView {
                id: id.spec_value(),
                ifc_type: ifc_type@,
                attributes: AttributeValue::models(attributes@),
            }),
    {
        DecodedEntity { id, ifc_type, attributes }
    }

    /// Entity id.
    pub fn id(&self) -> (r: EntityId)
        ensures
            r.spec_value() == self@.id,
    {
        self.id
    }

    /// Entity type.
    pub fn ifc_type(&self) -> (r: &IfcType)
        ensures
            r@ == self@.ifc_type,
    {
        &self.ifc_type
    }

    /// Number of attributes.
    pub fn attribute_count(&self) -> (n: usize)
        ensures
            n == self@.attributes.len(),
    {
        self.attributes.len()
    }

    /// Attribute at `index`, if present.
    pub fn get(&self, index: usize) -> (r: Option<&AttributeValue>)
        ensures
            match attribute_at(self@, index as int) {
                Some(m) => r matches Some(v) && v.model() == m,
                None => r is None,
            },
    {
        if index < self.attributes.len() {
            Some(&self.attributes[index])
        } else {
            None
        }
    }

    /// Entity reference at `index`.
    pub fn get_ref(&self, index: usize) -> (r: Option<EntityId>)
        ensures
            match attribute_at(self@, index as int) {
                Some(ValueModel::EntityRef(v)) => r matches Some(id) && id.spec_value() == v,
                _ => r is None,
            },
    {
        match self.get(index) {
            Some(v) => v.as_entity_ref(),
            None => None,
        }
    }

    /// String at `index`.
    pub fn get_string(&self, index: usize) -> (r: Option<&str>)
        ensures
            match attribute_at(self@, index as int) {
                Some(ValueModel::String(s)) => r matches Some(x) && x.spec_bytes() == s,
                _ => r is None,
            },
    {
        match self.get(index) {
            Some(v) => v.as_string(),
            None => None,
        }
    }

    /// Number at `index` (see [`AttributeValue::as_float`]).
    pub fn get_float(&self, index: usize) -> (r: Option<Numeric<'_>>)
        ensures
            match attribute_at(self@, index as int) {
                Some(m) => match numeric_of(m) {
                    Some(n) => r matches Some(x) && x.model() == n,
                    None => r is None,
                },
                None => r is None,
            },
    {
        match self.get(index) {
            Some(v) => v.as_float(),
            None => None,
        }
    }

    /// List at `index`.
    pub fn get_list(&self, index: usize) -> (r: Option<&[AttributeValue]>)
        ensures
            match attribute_at(self@, index as int) {
                Some(ValueModel::List(ms)) => r matches Some(items) && AttributeValue::models(items@)
                    == ms,
                _ => r is None,
            },
    {
        match self.get(index) {
            Some(v) => v.as_list(),
            None => None,
        }
    }
}

/// The attribute at `index`, if there is one.
pub open spec fn attribute_at(e: DecodedView, index: int) -> Option<ValueModel> {
    if 0 <= index < e.attributes.len() {
        Some(e.attributes[index])
    } else {
        None
    }
}

} // verus!
