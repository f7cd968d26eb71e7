//! Why code generation refused a declaration, and where to point.
//!
//! An error names the rule that was broken and the place that broke it. The
//! place is a path of positions into the declaration, so that a caller that
//! kept the source can underline the right tokens.

use vstd::prelude::*;

verus! {

/// A place within one attribute list.
#[derive(Clone, Copy, Debug, PartialEq, Eq)]
pub enum Site {
    /// The whole attribute at this position.
    Attribute(usize),
    /// The value of the attribute at this position: what follows its path.
    Payload(usize),
    /// One token of the payload: the attribute's position, then the token's.
    Token(usize, usize),
}

/// What is wrong with the attributes of one field or variant.
#[derive(Clone, Copy, Debug, PartialEq, Eq)]
pub enum Defect {
    /// A second `serde` attribute.
    DuplicateRename,
    /// A `serde` attribute that is not `rename = <literal>`.
    UnsupportedAttribute,
}

/// A defect and the place it was found at.
#[derive(Clone, Copy, Debug, PartialEq, Eq)]
pub struct AttrError {
    pub defect: Defect,
    pub site: Site,
}

/// Why no code was generated.
#[derive(Clone, Copy, Debug, PartialEq, Eq)]
pub enum Error {
    /// The item is neither a struct nor an enum.
    UnsupportedDeclaration,
    /// The struct has no named fields.
    UnsupportedFields,
    /// The enum has generic parameters.
    GenericEnum,
    /// The variant at this position carries fields.
    VariantWithFields { variant: usize },
    /// The attributes of the field or variant at position `member` are at fault.
    Attribute { member: usize, error: AttrError },
}

/// Where in the source an error points: at the construct that breaks the
/// rule.
#[derive(Clone, Copy, Debug, PartialEq, Eq)]
pub enum Anchor {
    /// The item as a whole.
    Declaration,
    /// The fields of the struct: what follows its name and generic header.
    Fields,
    /// The generic parameters of the enum.
    Generics,
    /// The whole field or variant at this position.
    Member(usize),
    /// A place among the attributes of the field or variant at position
    /// `member`.
    Within { member: usize, site: Site },
}

impl Error {
    /// Where this error points.
    pub open spec fn anchor_spec(self) -> Anchor {
        match self {
            Error::UnsupportedDeclaration => Anchor::Declaration,
            Error::UnsupportedFields => Anchor::Fields,
            Error::GenericEnum => Anchor::Generics,
            Error::VariantWithFields { variant } => Anchor::Member(variant),
            Error::Attribute { member, error } => Anchor::Within { member, site: error.site },
        }
    }

    /// The text shown to the user.
    pub open spec fn message_spec(self) -> Seq<char> {
        match self {
            Error::UnsupportedDeclaration => {
                "currently only structs and enums are supported by this derive"@
            },
            Error::UnsupportedFields => "currently only structs with named fields are supported"@,
            Error::GenericEnum => "Enums with generics are not supported"@,
            Error::VariantWithFields { .. } => {
                "Invalid variant: only simple enum variants without fields are supported"@
            },
            Error::Attribute { error, .. } => error.defect.message_spec(),
        }
    }

    /// Where this error points.
    pub fn anchor(&self) -> (out: Anchor)
        ensures
            out == self.anchor_spec(),
    {
        match self {
            Error::UnsupportedDeclaration => Anchor::Declaration,
            Error::UnsupportedFields => Anchor::Fields,
            Error::GenericEnum => Anchor::Generics,
            Error::VariantWithFields { variant } => Anchor::Member(*variant),
            Error::Attribute { member, error } => {
                Anchor::Within { member: *member, site: error.site }
            },
        }
    }

    /// The text shown to the user.
    pub fn message(&self) -> (out: &'static str)
        ensures
            out@ == self.message_spec(),
    {
        match self {
            Error::UnsupportedDeclaration => {
                "currently only structs and enums are supported by this derive"
            },
            Error::UnsupportedFields => "currently only structs with named fields are supported",
            Error::GenericEnum => "Enums with generics are not supported",
            Error::VariantWithFields { .. } => {
                "Invalid variant: only simple enum variants without fields are supported"
            },
            Error::Attribute { error, .. } => error.defect.message(),
        }
    }
}

impl Defect {
    /// The text shown to the user.
    pub open spec fn message_spec(self) -> Seq<char> {
        match self {
            Defect::DuplicateRename => "duplicate rename attribute"@,
            Defect::UnsupportedAttribute => "unsupported attribute"@,
        }
    }

    /// The text shown to the user.
    pub fn message(&self) -> (out: &'static str)
        ensures
            out@ == self.message_spec(),
    {
        match self {
            Defect::DuplicateRename => "duplicate rename attribute",
            Defect::UnsupportedAttribute => "unsupported attribute",
        }
    }
}

} // verus!
