//! Newtype wrapper for IFC entity identifiers.
use vstd::prelude::*;
use vstd::string::StringExecFns;
use crate::text::{decimal, decimal_chars};

verus! {

/// A strongly-typed IFC entity identifier (`#123` in a STEP file).
#[derive(Debug, Clone, Copy, PartialEq, Eq, Structural, Hash, PartialOrd, Ord)]
pub struct EntityId(pub(crate) u32);

impl EntityId {
    /// The raw entity number.
    pub closed spec fn spec_value(self) -> u32 {
        self.0
    }

    /// Wrap a raw entity number.
    pub fn new(raw: u32) -> (id: Self)
        ensures
            id.spec_value() == raw,
    {
        EntityId(raw)
    }

    /// The STEP spelling of the id: `#` followed by its decimal digits.
    pub fn to_string(&self) -> (s: String)
        ensures
            s@ == seq!['#'] + decimal_chars(self.spec_value() as nat),
    {
        let mut s = String::from_str("#");
        let digits = decimal(self.0 as u64);
        s.append(digits.as_str());
        proof {
            reveal_strlit("#");
        }
        s
    }

    /// Unwrap to the underlying `u32`.
    pub fn value(self) -> (raw: u32)
        ensures
            raw == self.spec_value(),
    {
        self.0
    }
}

impl From<u32> for EntityId {
    fn from(raw: u32) -> (id: Self) {
        EntityId(raw)
    }
}

impl vstd::std_specs::convert::FromSpecImpl<u32> for EntityId {
    open spec fn obeys_from_spec() -> bool {
        true
    }

    closed spec fn from_spec(raw: u32) -> Self {
        EntityId(raw)
    }
}

impl From<EntityId> for u32 {
    fn from(id: EntityId) -> (raw: Self) {
        id.0
    }
}

impl vstd::std_specs::convert::FromSpecImpl<EntityId> for u32 {
    open spec fn obeys_from_spec() -> bool {
        true
    }

    closed spec fn from_spec(id: EntityId) -> Self {
        id.0
    }
}

/// Converting a number to an id and back gives the number, and the id holds it.
pub proof fn lemma_from_round_trip(raw: u32)
    ensures
        <EntityId as vstd::std_specs::convert::FromSpec<u32>>::from_spec(raw).spec_value() == raw,
        <u32 as vstd::std_specs::convert::FromSpec<EntityId>>::from_spec(
            <EntityId as vstd::std_specs::convert::FromSpec<u32>>::from_spec(raw),
        ) == raw,
{
}

} // verus!
