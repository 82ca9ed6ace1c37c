//! The byte buffer of the `bytes` crate that frames travel through, the conversion
//! from received bytes to a `String`, and the quoted text of a string. Everything here is taken on trust: each item's
//! contract restates what the outside crate's source or std's documentation says.
use bytes::BytesMut;
use vstd::prelude::*;
use vstd::utf8::{encode_utf8, valid_utf8};

verus! {

/// `bytes::BytesMut`, a growable and splittable byte buffer, carried opaquely.
#[verifier::external_type_specification]
#[verifier::external_body]
pub struct ExBytesMut(BytesMut);

/// The bytes that a `BytesMut` holds, in order (what `&buffer[..]` shows).
pub uninterp spec fn bytes_mut_contents(buffer: BytesMut) -> Seq<u8>;

/// Calls `<BytesMut as Deref>::deref`; claims that the slice holds exactly the buffer's
/// bytes.
#[verifier::external_body]
pub(crate) fn bytes_mut_as_slice(buffer: &BytesMut) -> (bytes: &[u8])
    ensures
        bytes@ == bytes_mut_contents(*buffer),
{
    &buffer[..]
}

/// Calls `BytesMut::split_to`; claims that the first `at` bytes move to the returned
/// buffer and the rest stay, in order. The call panics when `at` exceeds the length,
/// which `requires` rules out.
#[verifier::external_body]
pub(crate) fn bytes_mut_split_to(buffer: &mut BytesMut, at: usize) -> (front: BytesMut)
    requires
        at <= bytes_mut_contents(*old(buffer)).len(),
    ensures
        bytes_mut_contents(front) == bytes_mut_contents(*old(buffer)).take(at as int),
        bytes_mut_contents(*final(buffer)) == bytes_mut_contents(*old(buffer)).skip(at as int),
{
    buffer.split_to(at)
}

/// Calls `BytesMut::reserve`; claims that the held bytes do not change. The call panics
/// when the new capacity overflows; `requires` keeps the length plus the request within
/// `isize::MAX`, and says nothing of the capacity that was allocated.
#[verifier::external_body]
pub(crate) fn bytes_mut_reserve(buffer: &mut BytesMut, additional: usize)
    requires
        bytes_mut_contents(*old(buffer)).len() + additional <= isize::MAX,
    ensures
        bytes_mut_contents(*final(buffer)) == bytes_mut_contents(*old(buffer)),
{
    buffer.reserve(additional)
}

/// Calls `BytesMut::extend_from_slice`; claims that the slice's bytes are appended after
/// the held ones (the buffer grows first where it must). `requires` keeps the resulting
/// length within `isize::MAX`.
#[verifier::external_body]
pub(crate) fn bytes_mut_extend(buffer: &mut BytesMut, extend: &[u8])
    requires
        bytes_mut_contents(*old(buffer)).len() + extend@.len() <= isize::MAX,
    ensures
        bytes_mut_contents(*final(buffer)) == bytes_mut_contents(*old(buffer)) + extend@,
{
    buffer.extend_from_slice(extend)
}

/// Calls `String::from_utf8`; claims that it succeeds exactly on valid UTF-8, and that the
/// resulting string's UTF-8 encoding is the given bytes. The error is dropped.
#[verifier::external_body]
pub(crate) fn string_from_utf8(bytes: Vec<u8>) -> (s: Option<String>)
    ensures
        s is Some <==> valid_utf8(bytes@),
        s matches Some(s) ==> encode_utf8(s@) == bytes@,
{
    String::from_utf8(bytes).ok()
}

/// The text that `<str as Debug>::fmt` writes for a string with the given characters: the
/// string in double quotes, with its special characters escaped.
pub uninterp spec fn str_debug_text(s: Seq<char>) -> Seq<char>;

/// Calls `<str as Debug>::fmt` through `format!("{:?}", ..)`; claims that the text depends
/// on the string's characters alone. Which characters are escaped, and how, is left unsaid.
#[verifier::external_body]
pub(crate) fn str_debug(s: &str) -> (text: String)
    ensures
        text@ == str_debug_text(s@),
{
    format!("{:?}", s)
}

} // verus!
