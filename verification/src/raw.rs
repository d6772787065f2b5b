//! A JSON value kept as text.

use crate::oid::{ColumnType, JSONB_ARRAY_OID, JSONB_OID};
use crate::payload::{decode_json, framed, payload_of, well_framed};
use crate::text::{read_text, text_of};
use vstd::prelude::*;
use vstd::std_specs::cmp::PartialEqSpec;
use vstd::utf8::{encode_utf8, encode_utf8_decode_utf8, encode_utf8_valid_utf8};

verus! {

/// Why the bytes of a column value are no text.
#[derive(Clone, Copy, Debug, PartialEq, Eq)]
pub enum DecodeError {
    /// The bytes are not well-formed UTF-8.
    InvalidUtf8(core::str::Utf8Error),
}

/// A JSON document that is kept as the text it arrived in.
///
/// The text is not parsed: whether it is well-formed JSON shows only when
/// something reads it as JSON. Two values are equal when their texts are.
#[derive(Debug)]
pub struct BoxedRawValue {
    text: String,
}

impl View for BoxedRawValue {
    type V = Seq<char>;

    /// The text.
    closed spec fn view(&self) -> Seq<char> {
        self.text@
    }
}

impl Clone for BoxedRawValue {
    fn clone(&self) -> (r: Self)
        ensures
            r@ == self@,
    {
        BoxedRawValue { text: self.text.clone() }
    }
}

impl PartialEq for BoxedRawValue {
    fn eq(&self, other: &Self) -> (r: bool) {
        self.text == other.text
    }
}

impl vstd::std_specs::cmp::PartialEqSpecImpl for BoxedRawValue {
    open spec fn obeys_eq_spec() -> bool {
        true
    }

    open spec fn eq_spec(&self, other: &Self) -> bool {
        self@ == other@
    }
}

impl Eq for BoxedRawValue {

}

impl BoxedRawValue {
    /// The bytes of the text, which are what a column carries of it.
    pub open spec fn bytes(&self) -> Seq<u8> {
        encode_utf8(self@)
    }

    /// What reading `bytes`, a value of a column of type `ty`, as text gives.
    pub open spec fn decoded(ty: ColumnType, bytes: Seq<u8>) -> Option<Seq<char>> {
        text_of(payload_of(ty, bytes))
    }

    /// Wraps `text` as it is.
    pub fn new(text: String) -> (r: Self)
        ensures
            r@ == text@,
    {
        BoxedRawValue { text }
    }

    /// Reads the JSON text `payload` without parsing it.
    ///
    /// Fails exactly where `payload` is not well-formed UTF-8.
    pub fn from_payload(payload: &[u8]) -> (r: Result<Self, DecodeError>)
        ensures
            match r {
                Ok(value) => text_of(payload@) == Some(value@) && value.bytes() == payload@,
                Err(_) => text_of(payload@) is None,
            },
    {
        match read_text(payload) {
            Ok(text) => Ok(BoxedRawValue { text: text.to_owned() }),
            Err(e) => Err(DecodeError::InvalidUtf8(e)),
        }
    }

    /// Reads the bytes of a column value without parsing the JSON in them.
    ///
    /// Fails exactly where the JSON text is not well-formed UTF-8.
    pub fn decode(ty: ColumnType, buf: &[u8]) -> (r: Result<Self, DecodeError>)
        requires
            well_framed(ty, buf@),
        ensures
            match r {
                Ok(value) => Self::decoded(ty, buf@) == Some(value@) && framed(ty, value.bytes())
                    == buf@,
                Err(_) => Self::decoded(ty, buf@) is None,
            },
    {
        Self::from_payload(decode_json(ty, buf))
    }

    /// The text.
    pub fn get(&self) -> (r: &str)
        ensures
            r@ == self@,
    {
        self.text.as_str()
    }

    /// The text, out of its wrapper.
    pub fn into_string(self) -> (r: String)
        ensures
            r@ == self@,
    {
        self.text
    }

    /// The column type that a value is written as: `jsonb`.
    pub fn type_info() -> (r: ColumnType)
        ensures
            r == ColumnType::Oid(JSONB_OID),
    {
        ColumnType::Oid(JSONB_OID)
    }

    /// Whether a value can be read from a column of type `ty`.
    pub fn compatible(ty: ColumnType) -> (r: bool)
        ensures
            r == ty.spec_is_json_compatible(),
    {
        ty.is_json_compatible()
    }

    /// The column type that an array of values is written as: `jsonb[]`.
    pub fn array_type_info() -> (r: ColumnType)
        ensures
            r == ColumnType::Oid(JSONB_ARRAY_OID),
    {
        ColumnType::Oid(JSONB_ARRAY_OID)
    }

    /// Whether an array of values can be read from a column of type `ty`.
    pub fn array_compatible(ty: ColumnType) -> (r: bool)
        ensures
            r == ty.spec_is_json_array_compatible(),
    {
        ty.is_json_array_compatible()
    }
}

/// Any text comes back unchanged from the bytes that carry it, whichever
/// type the column has: the bytes are well framed, and reading them gives the
/// text.
pub proof fn lemma_round_trip(ty: ColumnType, text: Seq<char>)
    ensures
        well_framed(ty, framed(ty, encode_utf8(text))),
        BoxedRawValue::decoded(ty, framed(ty, encode_utf8(text))) == Some(text),
{
    crate::payload::lemma_payload_of_framed(ty, encode_utf8(text));
    encode_utf8_valid_utf8(text);
    encode_utf8_decode_utf8(text);
}

/// Two values are equal exactly when their texts are the same, byte for
/// byte.
pub proof fn lemma_eq_iff_same_bytes(a: BoxedRawValue, b: BoxedRawValue)
    ensures
        a.eq_spec(&b) <==> a.bytes() == b.bytes(),
        a.eq_spec(&b) <==> a@ == b@,
{
    encode_utf8_decode_utf8(a@);
    encode_utf8_decode_utf8(b@);
}

} // verus!
