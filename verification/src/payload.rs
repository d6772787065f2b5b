//! Taking the JSON text out of a column value.
//!
//! A value of a `jsonb` column is one version byte followed by the text; a
//! value of any other column is the text alone.

use crate::oid::ColumnType;
use vstd::prelude::*;
use vstd::slice::slice_subrange;

verus! {

/// The one version of the `jsonb` format that is defined.
pub const JSONB_VERSION: u8 = 1;

/// Why the bytes of a `jsonb` value cannot be read.
#[derive(Clone, Copy, Debug, PartialEq, Eq, Structural)]
pub enum FrameError {
    /// The value is empty, so it has no version byte.
    MissingVersion,
    /// The value starts with this byte, which is no known version.
    UnsupportedVersion(u8),
}

/// What is wrong with `bytes` as a value of a column of type `ty`, if
/// anything.
pub open spec fn frame_error(ty: ColumnType, bytes: Seq<u8>) -> Option<FrameError> {
    if !ty.spec_is_jsonb() {
        None
    } else if bytes.len() == 0 {
        Some(FrameError::MissingVersion)
    } else if bytes[0] != JSONB_VERSION {
        Some(FrameError::UnsupportedVersion(bytes[0]))
    } else {
        None
    }
}

/// `bytes` can be read as a value of a column of type `ty`: for `jsonb` they
/// start with the version byte.
pub open spec fn well_framed(ty: ColumnType, bytes: Seq<u8>) -> bool {
    ty.spec_is_jsonb() ==> bytes.len() > 0 && bytes[0] == JSONB_VERSION
}

/// The JSON text inside `bytes`, a value of a column of type `ty`: all but
/// the first byte for `jsonb`, all of it otherwise.
pub open spec fn payload_of(ty: ColumnType, bytes: Seq<u8>) -> Seq<u8>
    recommends
        well_framed(ty, bytes),
{
    if ty.spec_is_jsonb() {
        bytes.subrange(1, bytes.len() as int)
    } else {
        bytes
    }
}

/// The bytes that carry the JSON text `payload` in a column of type `ty`.
pub open spec fn framed(ty: ColumnType, payload: Seq<u8>) -> Seq<u8> {
    if ty.spec_is_jsonb() {
        seq![JSONB_VERSION] + payload
    } else {
        payload
    }
}

/// Extracts the JSON text from the bytes of a column value, or says what is
/// wrong with them.
///
/// Fails only for a `jsonb` value, and only where it is empty or starts with
/// a byte other than the version byte; the error then names that byte. The
/// text borrows from `buf`.
pub fn try_decode_json<'a>(ty: ColumnType, buf: &'a [u8]) -> (r: Result<&'a [u8], FrameError>)
    ensures
        match r {
            Ok(payload) => frame_error(ty, buf@) is None && payload@ == payload_of(ty, buf@),
            Err(e) => frame_error(ty, buf@) == Some(e),
        },
        r is Ok <==> well_framed(ty, buf@),
{
    if !ty.is_jsonb() {
        return Ok(buf);
    }
    if buf.len() == 0 {
        return Err(FrameError::MissingVersion);
    }
    let version: u8 = buf[0];
    if version != JSONB_VERSION {
        return Err(FrameError::UnsupportedVersion(version));
    }
    Ok(slice_subrange(buf, 1, buf.len()))
}

/// Extracts the JSON text from the bytes of a column value.
///
/// The text borrows from `buf`, and never holds the version byte.
pub fn decode_json<'a>(ty: ColumnType, buf: &'a [u8]) -> (payload: &'a [u8])
    requires
        well_framed(ty, buf@),
    ensures
        payload@ == payload_of(ty, buf@),
        framed(ty, payload@) == buf@,
{
    if ty.is_jsonb() {
        let payload = slice_subrange(buf, 1, buf.len());
        assert(seq![JSONB_VERSION] + payload@ =~= buf@);
        payload
    } else {
        buf
    }
}

/// Taking the text out of the bytes that carry it gives the text back: with
/// the version byte in front for `jsonb`, and as it is for `json`.
pub proof fn lemma_payload_of_framed(ty: ColumnType, text: Seq<u8>)
    ensures
        well_framed(ty, framed(ty, text)),
        frame_error(ty, framed(ty, text)) is None,
        payload_of(ty, framed(ty, text)) == text,
{
    if ty.spec_is_jsonb() {
        let bytes = seq![JSONB_VERSION] + text;
        assert(bytes.subrange(1, bytes.len() as int) =~= text);
    }
}

/// Putting the version byte in front of the text of a well-formed value
/// gives the value back.
pub proof fn lemma_framed_payload_of(ty: ColumnType, bytes: Seq<u8>)
    requires
        well_framed(ty, bytes),
    ensures
        framed(ty, payload_of(ty, bytes)) == bytes,
{
    if ty.spec_is_jsonb() {
        assert(seq![JSONB_VERSION] + bytes.subrange(1, bytes.len() as int) =~= bytes);
    }
}

/// A value is read without error exactly when it is well framed.
pub proof fn lemma_frame_error_none(ty: ColumnType, bytes: Seq<u8>)
    ensures
        frame_error(ty, bytes) is None <==> well_framed(ty, bytes),
{
}

} // verus!
