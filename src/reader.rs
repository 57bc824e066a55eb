//! The property reader: turns the outcome of one characteristic read into a
//! decoded field value.
use vstd::prelude::*;
use crate::catalog::{DecodePolicy, FieldDescriptor, FieldName};

verus! {

/// A decoded field, or the marker that it is not available.
#[derive(Clone, Debug, PartialEq, Eq)]
pub enum FieldValue {
    Text(String),
    Unsigned(u8),
    Signed(i8),
    Raw(Vec<u8>),
    NotAvailable,
}

/// The mathematical value of a [`FieldValue`].
pub enum FieldModel {
    Text(Seq<char>),
    Unsigned(u8),
    Signed(int),
    Raw(Seq<u8>),
    NotAvailable,
}

/// The two's-complement value of a byte.
pub open spec fn signed_of(b: u8) -> int {
    if b < 128 {
        b as int
    } else {
        b as int - 256
    }
}

impl View for FieldValue {
    type V = FieldModel;

    open spec fn view(&self) -> FieldModel {
        match self {
            FieldValue::Text(s) => FieldModel::Text(s@),
            FieldValue::Unsigned(n) => FieldModel::Unsigned(*n),
            FieldValue::Signed(n) => FieldModel::Signed(*n as int),
            FieldValue::Raw(b) => FieldModel::Raw(b@),
            FieldValue::NotAvailable => FieldModel::NotAvailable,
        }
    }
}

/// Why a characteristic read failed at the transport level.
#[derive(Clone, Copy, Debug, PartialEq, Eq, Structural)]
pub enum ReadError {
    TimedOut,
    NotConnected,
    AttributeNotFound,
    PermissionDenied,
    Transport,
}

/// A failed read of one field, with its cause.
#[derive(Clone, Copy, Debug, PartialEq, Eq, Structural)]
pub struct FieldReadError {
    pub field: FieldName,
    pub cause: ReadError,
}

/// The text that a byte sequence decodes to as UTF-8, or `None` where it is
/// not valid UTF-8.
pub uninterp spec fn utf8_text(bytes: Seq<u8>) -> Option<Seq<char>>;

/// Relies on `String::from_utf8`: it succeeds exactly on valid UTF-8, the
/// text depends on the bytes alone, and no bytes decode to no text.
#[verifier::external_body]
fn text_from_utf8(bytes: &Vec<u8>) -> (r: Option<String>)
    ensures
        match r {
            Some(s) => utf8_text(bytes@) == Some(s@),
            None => utf8_text(bytes@).is_none(),
        },
        bytes@.len() == 0 ==> r.is_some() && r.unwrap()@.len() == 0,
{
    String::from_utf8(bytes.clone()).ok()
}

/// The model of a text field after UTF-8 decoding.
pub open spec fn text_model(decoded: Option<Seq<char>>) -> FieldModel {
    match decoded {
        Some(s) => FieldModel::Text(s),
        None => FieldModel::NotAvailable,
    }
}

/// What a byte sequence decodes to under a policy.
pub open spec fn decode_model(policy: DecodePolicy, bytes: Seq<u8>) -> FieldModel {
    match policy {
        DecodePolicy::Text => text_model(utf8_text(bytes)),
        DecodePolicy::Unsigned8 => if bytes.len() == 1 {
            FieldModel::Unsigned(bytes[0])
        } else {
            FieldModel::NotAvailable
        },
        DecodePolicy::Signed8 => if bytes.len() == 1 {
            FieldModel::Signed(signed_of(bytes[0]))
        } else {
            FieldModel::NotAvailable
        },
        DecodePolicy::Opaque => FieldModel::Raw(bytes),
    }
}

/// Turns the result of UTF-8 decoding into a text field: text that did not
/// decode becomes the "not available" marker.
pub fn text_or_unavailable(decoded: Option<String>) -> (v: FieldValue)
    ensures
        v@ == text_model(
            match decoded {
                Some(s) => Some(s@),
                None => None,
            },
        ),
{
    match decoded {
        Some(s) => FieldValue::Text(s),
        None => FieldValue::NotAvailable,
    }
}

/// Decodes raw characteristic bytes under a policy. A value that does not
/// decode yields the "not available" marker, never an error.
pub fn decode(policy: DecodePolicy, bytes: &Vec<u8>) -> (v: FieldValue)
    ensures
        v@ == decode_model(policy, bytes@),
{
    match policy {
        DecodePolicy::Text => text_or_unavailable(text_from_utf8(bytes)),
        DecodePolicy::Unsigned8 => if bytes.len() == 1 {
            FieldValue::Unsigned(bytes[0])
        } else {
            FieldValue::NotAvailable
        },
        DecodePolicy::Signed8 => if bytes.len() == 1 {
            let b: u8 = bytes[0];
            let n: i8 = if b < 128 {
                b as i8
            } else {
                (b as i16 - 256) as i8
            };
            FieldValue::Signed(n)
        } else {
            FieldValue::NotAvailable
        },
        DecodePolicy::Opaque => {
            let mut raw: Vec<u8> = Vec::new();
            let mut i: usize = 0;
            while i < bytes.len()
                invariant
                    i <= bytes@.len(),
                    raw@ == bytes@.subrange(0, i as int),
                decreases bytes@.len() - i,
            {
                raw.push(bytes[i]);
                i = i + 1;
            }
            assert(raw@ == bytes@);
            FieldValue::Raw(raw)
        },
    }
}

/// Decodes the outcome of one read of the field that `d` describes. A
/// transport failure is handed back with the field it concerns.
pub fn read_field(d: &FieldDescriptor, raw: &Result<Vec<u8>, ReadError>) -> (r: Result<
    FieldValue,
    FieldReadError,
>)
    ensures
        match (raw, r) {
            (Ok(bytes), Ok(v)) => v@ == decode_model(d.policy, bytes@),
            (Err(cause), Err(e)) => e == FieldReadError { field: d.field, cause: *cause },
            _ => false,
        },
{
    match raw {
        Ok(bytes) => Ok(decode(d.policy, bytes)),
        Err(cause) => Err(FieldReadError { field: d.field, cause: *cause }),
    }
}

/// A text field whose bytes are not valid UTF-8 decodes to the "not
/// available" marker rather than failing.
pub proof fn lemma_invalid_text_is_unavailable(bytes: Seq<u8>)
    requires
        utf8_text(bytes).is_none(),
    ensures
        decode_model(DecodePolicy::Text, bytes) == FieldModel::NotAvailable,
{
}

} // verus!
