//! Code generation for deriving a push-style serializer and deserializer.
//!
//! The library takes the declaration of a struct with named fields, or of an
//! enum whose variants carry nothing, and writes the code that implements
//! `miniserde::Serialize` or `miniserde::Deserialize` for it. A field or a
//! variant goes on the wire under its identifier, unless it carries
//! `#[serde(rename = "...")]`.
//!
//! - [`decl`]: the declaration, as plain data.
//! - [`attr`]: the `rename` directive and the external name of one member.
//! - [`resolve`]: the external names of a whole declaration, or why it is
//!   refused.
//! - [`spell`]: the literal under which a name stands in the emitted code.
//! - [`generics`]: the generic header of the emitted impls.
//! - [`ser`], [`de`]: the code that is emitted.
//! - [`table`]: the names that the emitted code of a declaration answers to.
//! - [`protocol`]: what the emitted code does when it runs, over such a table.
//! - [`error`]: the errors, and where in the source they point.
//!
//! Nothing here touches tokens or spans: the caller parses the item and turns
//! the emitted text back into tokens.

pub mod attr;
pub mod de;
pub mod decl;
pub mod emit;
pub mod error;
pub mod generics;
pub mod protocol;
pub mod resolve;
pub mod ser;
pub mod spell;
pub mod table;
pub mod text;
