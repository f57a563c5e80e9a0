//! Verified STEP/IFC entity parsing.
//!
//! - [`scan`]: finds entities (`#id=TYPE(...);`) in STEP content, one
//!   [`scan::scan_next`] step at a time, and indexes them by id.
//! - [`parse`]: tokenizes one entity line; [`parse_entity`] returns the
//!   id, type and attribute [`Token`]s.
//! - [`decode`]: turns a line into an owned [`DecodedEntity`].
//! - [`streaming`]: an event stream over a whole file.
//!
//! Each function's contract states its result over the byte-level
//! grammar and scanner specifications in these modules.

pub mod attribute;
pub mod decode;
pub mod effect;
pub mod entity_id;
pub mod error;
pub mod ifc_type;
pub mod parse;
pub mod scan;
pub mod schema;
pub mod streaming;
pub mod text;
pub mod token;

pub use attribute::{AttributeValue, DecodedEntity};
pub use entity_id::EntityId;
pub use error::{Error, Result};
pub use ifc_type::IfcType;
pub use parse::parse_entity;
pub use token::Token;
