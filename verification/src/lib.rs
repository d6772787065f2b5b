//! Decoding of PostgreSQL `json` and `jsonb` column values without a wrapper
//! type around the target.
//!
//! A `jsonb` value travels as one version byte followed by JSON text, a `json`
//! value as the text alone. This crate tells the two apart by the column's
//! type identifier, takes the version byte off, and hands the text on: as
//! bytes for a JSON deserializer, or as a [`BoxedRawValue`] that keeps the
//! text unparsed.

pub mod oid;
pub mod payload;
pub mod raw;
pub mod text;

pub use crate::oid::{ColumnType, JSONB_ARRAY_OID, JSONB_OID, JSON_ARRAY_OID, JSON_OID};
pub use crate::raw::{BoxedRawValue, DecodeError};
pub use crate::payload::{decode_json, try_decode_json, FrameError, JSONB_VERSION};
