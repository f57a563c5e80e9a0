//! Zero-copy STEP tokens.
//!
//! A [`Token`] is the result of lexing a single attribute value inside a
//! STEP entity line.  Tokens borrow from the source string.
use vstd::prelude::*;
use vstd::string::StringSliceAdditionalSpecFns;
use crate::entity_id::EntityId;

verus! {

/// A token as plain values: texts are the UTF-8 bytes they cover.
pub enum TokenModel {
    EntityRef(u32),
    Str(Seq<u8>),
    Integer(i64),
    Float(Seq<u8>),
    Enum(Seq<u8>),
    List(Seq<TokenModel>),
    TypedValue(Seq<u8>, Seq<TokenModel>),
    Null,
    Derived,
}

/// A zero-copy token parsed from a STEP entity line.
///
/// ```text
/// #123          → EntityRef(EntityId(123))
/// 'hello'       → Str("hello")
/// 42 / -7       → Integer(42) / Integer(-7)
/// 3.14 / 0.     → Float("3.14") / Float("0.")
/// .TRUE.        → Enum("TRUE")
/// (1, 2, 3)     → List([Integer(1), Integer(2), Integer(3)])
/// IFCBOOLEAN(…) → TypedValue("IFCBOOLEAN", […])
/// $             → Null
/// *             → Derived
/// ```
///
/// A floating-point literal is kept as the text it was written with;
/// converting it to a machine float is left to the caller.
#[derive(Debug, PartialEq)]
pub enum Token<'a> {
    /// Entity reference: `#123`
    EntityRef(EntityId),
    /// String literal: `'text'` (doubled quotes are kept as written)
    Str(&'a str),
    /// Integer literal: `42`, `-7`
    Integer(i64),
    /// Floating-point literal, as written: `3.14`, `0.`, `1.5E-10`
    Float(&'a str),
    /// Enumeration: `.TRUE.`, `.ELEMENT.`
    Enum(&'a str),
    /// Parenthesised list of tokens.
    List(Vec<Token<'a>>),
    /// Typed value wrapper: `IFCPARAMETERVALUE(0.)`
    TypedValue(&'a str, Vec<Token<'a>>),
    /// The null marker `$`.
    Null,
    /// The derived marker `*`.
    Derived,
}

impl<'a> Token<'a> {
    /// The token as plain values.
    pub open spec fn model(self) -> TokenModel
        decreases self,
    {
        match self {
            Token::EntityRef(id) => TokenModel::EntityRef(id.spec_value()),
            Token::Str(s) => TokenModel::Str(s.spec_bytes()),
            Token::Integer(i) => TokenModel::Integer(i),
            Token::Float(s) => TokenModel::Float(s.spec_bytes()),
            Token::Enum(s) => TokenModel::Enum(s.spec_bytes()),
            Token::List(items) => TokenModel::List(Self::models(items@)),
            Token::TypedValue(n, items) => TokenModel::TypedValue(
                n.spec_bytes(),
                Self::models(items@),
            ),
            Token::Null => TokenModel::Null,
            Token::Derived => TokenModel::Derived,
        }
    }

    /// A sequence of tokens as plain values.
    pub open spec fn models(items: Seq<Token<'a>>) -> Seq<TokenModel>
        decreases items,
    {
        Seq::new(
            items.len(),
            |i: int|
                if 0 <= i < items.len() {
                    items[i].model()
                } else {
                    TokenModel::Null
                },
        )
    }
}

impl<'a> Token<'a> {
    /// A copy of this token, item by item.
    fn copy(&self) -> (r: Self)
        ensures
            r.model() == self.model(),
        decreases self,
    {
        match self {
            Token::EntityRef(id) => Token::EntityRef(*id),
            Token::Str(s) => Token::Str(*s),
            Token::Integer(i) => Token::Integer(*i),
            Token::Float(s) => Token::Float(*s),
            Token::Enum(s) => Token::Enum(*s),
            Token::List(items) => Token::List(Self::copy_all(items)),
            Token::TypedValue(n, items) => Token::TypedValue(*n, Self::copy_all(items)),
            Token::Null => Token::Null,
            Token::Derived => Token::Derived,
        }
    }

    fn copy_all(items: &Vec<Token<'a>>) -> (r: Vec<Token<'a>>)
        ensures
            Self::models(r@) == Self::models(items@),
        decreases items,
    {
        let mut out: Vec<Token<'a>> = Vec::new();
        let mut i: usize = 0;
        while i < items.len()
            invariant
                i <= items@.len(),
                out@.len() == i,
                forall|k: int| 0 <= k < i ==> (#[trigger] out@[k]).model() == items@[k].model(),
            decreases items@.len() - i,
        {
            proof {
                assert(decreases_to!(items => items@[i as int]));
            }
            out.push(items[i].copy());
            i = i + 1;
        }
        assert(Self::models(out@) =~= Self::models(items@));
        out
    }
}

impl<'a> Clone for Token<'a> {
    fn clone(&self) -> (r: Self)
        ensures
            r.model() == self.model(),
    {
        self.copy()
    }
}

} // verus!
