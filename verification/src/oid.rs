//! Column type identifiers and the types a JSON value can be read from.

use vstd::prelude::*;

verus! {

/// Identifier of the `json` column type.
pub const JSON_OID: u32 = 114;

/// Identifier of the `json[]` column type.
pub const JSON_ARRAY_OID: u32 = 199;

/// Identifier of the `jsonb` column type.
pub const JSONB_OID: u32 = 3802;

/// Identifier of the `jsonb[]` column type.
pub const JSONB_ARRAY_OID: u32 = 3807;

/// The declared type of a column, as far as this crate looks at it.
#[derive(Clone, Copy, Debug, PartialEq, Eq, Structural)]
pub enum ColumnType {
    /// A type whose identifier is known.
    Oid(u32),
    /// A type that is known by name only, so that its identifier is still to
    /// be looked up.
    Unresolved,
}

impl ColumnType {
    /// Whether this type passes for the type with identifier `oid`.
    ///
    /// Two identifiers are compared directly. A type without an identifier
    /// cannot be compared with one, and passes: type checking is opted out of
    /// until the name is resolved.
    pub open spec fn spec_matches(self, oid: u32) -> bool {
        match self {
            ColumnType::Oid(own) => own == oid,
            ColumnType::Unresolved => true,
        }
    }

    /// Whether a value of this type travels with the `jsonb` version byte.
    pub open spec fn spec_is_jsonb(self) -> bool {
        self.spec_matches(JSONB_OID)
    }

    /// Whether a JSON value can be read from a column of this type.
    pub open spec fn spec_is_json_compatible(self) -> bool {
        self.spec_matches(JSONB_OID) || self.spec_matches(JSON_OID)
    }

    /// Whether an array of JSON values can be read from a column of this type.
    pub open spec fn spec_is_json_array_compatible(self) -> bool {
        self.spec_matches(JSONB_ARRAY_OID) || self.spec_matches(JSON_ARRAY_OID)
    }

    /// Whether this type passes for the type with identifier `oid`.
    #[verifier::when_used_as_spec(spec_matches)]
    pub fn matches(self, oid: u32) -> (r: bool)
        ensures
            r == self.spec_matches(oid),
    {
        match self {
            ColumnType::Oid(own) => own == oid,
            ColumnType::Unresolved => true,
        }
    }

    /// Whether a value of this type travels with the `jsonb` version byte.
    #[verifier::when_used_as_spec(spec_is_jsonb)]
    pub fn is_jsonb(self) -> (r: bool)
        ensures
            r == self.spec_is_jsonb(),
    {
        self.matches(JSONB_OID)
    }

    /// Whether a JSON value can be read from a column of this type: the type
    /// is `jsonb` or `json`.
    #[verifier::when_used_as_spec(spec_is_json_compatible)]
    pub fn is_json_compatible(self) -> (r: bool)
        ensures
            r == self.spec_is_json_compatible(),
            self matches ColumnType::Oid(oid) ==> (r <==> oid == JSONB_OID || oid == JSON_OID),
    {
        self.matches(JSONB_OID) || self.matches(JSON_OID)
    }

    /// Whether an array of JSON values can be read from a column of this
    /// type: the type is `jsonb[]` or `json[]`.
    #[verifier::when_used_as_spec(spec_is_json_array_compatible)]
    pub fn is_json_array_compatible(self) -> (r: bool)
        ensures
            r == self.spec_is_json_array_compatible(),
            self matches ColumnType::Oid(oid) ==> (r <==> oid == JSONB_ARRAY_OID || oid
                == JSON_ARRAY_OID),
    {
        self.matches(JSONB_ARRAY_OID) || self.matches(JSON_ARRAY_OID)
    }
}

} // verus!
