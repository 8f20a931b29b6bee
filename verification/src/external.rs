//! Types and functions from outside this crate, with what is assumed of them.
//!
//! Everything in this module is believed by the verifier without proof.

use crate::oer::be_uint;
use crate::packet::Timestamp;
use bytes::Bytes;
use vstd::prelude::*;
use vstd::utf8::{decode_utf8, valid_utf8};

verus! {

/// `uuid::Uuid`, carried through unread.
#[verifier::external_type_specification]
#[verifier::external_body]
pub struct ExUuid(uuid::Uuid);

/// `bytes::Bytes`, an immutable buffer. What it holds is [`octets`].
#[verifier::external_type_specification]
#[verifier::external_body]
pub struct ExBytes(bytes::Bytes);

/// `std::io::Error`, the error of a reader that has run out of bytes.
#[verifier::external_type_specification]
#[verifier::external_body]
pub struct ExIoError(std::io::Error);

/// `std::string::FromUtf8Error`, the error of [`String::from_utf8`].
#[verifier::external_type_specification]
#[verifier::external_body]
pub struct ExFromUtf8Error(std::string::FromUtf8Error);

/// The bytes that a `bytes::Bytes` holds, first to last.
pub uninterp spec fn octets(bytes: Bytes) -> Seq<u8>;

/// `bytes::Bytes::new` makes a buffer that holds nothing.
pub assume_specification[ Bytes::new ]() -> (buffer: Bytes)
    ensures
        octets(buffer) == Seq::<u8>::empty(),
;

/// `bytes::Bytes::copy_from_slice` makes a buffer that holds a copy of the slice.
pub assume_specification[ Bytes::copy_from_slice ](data: &[u8]) -> (buffer: Bytes)
    ensures
        octets(buffer) == data@,
;

/// The `Clone` of `bytes::Bytes` makes a buffer that holds the same bytes.
pub assume_specification[ <Bytes as Clone>::clone ](buffer: &Bytes) -> (copy: Bytes)
    ensures
        octets(copy) == octets(*buffer),
;

/// The `Deref` of `bytes::Bytes` lends out the bytes that the buffer holds.
#[verifier::external_body]
pub(crate) fn as_slice(buffer: &Bytes) -> (slice: &[u8])
    ensures
        slice@ == octets(*buffer),
{
    &buffer[..]
}

/// `String::from_utf8` succeeds exactly on valid UTF-8, and then returns the
/// characters that the bytes encode.
pub assume_specification[ String::from_utf8 ](vec: Vec<u8>) -> (result: Result<
    String,
    std::string::FromUtf8Error,
>)
    ensures
        result is Ok <==> valid_utf8(vec@),
        result matches Ok(text) ==> text@ == decode_utf8(vec@),
;

/// `byteorder::ReadBytesExt::read_u8` on a slice takes its first byte, and
/// fails exactly if there is none.
#[verifier::external_body]
pub(crate) fn read_u8(reader: &mut &[u8]) -> (result: Result<u8, std::io::Error>)
    ensures
        result is Ok <==> (*old(reader))@.len() > 0,
        result matches Ok(byte) ==> byte == (*old(reader))@[0] && (*final(reader))@ == (*old(
            reader,
        ))@.skip(1),
{
    byteorder::ReadBytesExt::read_u8(reader)
}

/// `byteorder::ReadBytesExt::read_uint` for big-endian numbers, on a slice,
/// takes `nbytes` bytes as one number, and fails exactly if there are fewer. It
/// panics unless `nbytes` is between one and eight. How much has been taken
/// when it fails is left open.
#[verifier::external_body]
pub(crate) fn read_uint(reader: &mut &[u8], nbytes: usize) -> (result: Result<
    u64,
    std::io::Error,
>)
    requires
        1 <= nbytes <= 8,
    ensures
        result is Ok <==> (*old(reader))@.len() >= nbytes,
        result matches Ok(value) ==> value == be_uint((*old(reader))@.take(nbytes as int)) && (
        *final(reader))@ == (*old(reader))@.skip(nbytes as int),
{
    byteorder::ReadBytesExt::read_uint::<byteorder::BigEndian>(reader, nbytes)
}

/// `chrono::Utc::now` reads the system clock. Nothing is said of the reading
/// but that it is an instant that `chrono` can hold, outside of a leap second.
#[verifier::external_body]
pub(crate) fn utc_now() -> (now: Timestamp)
    ensures
        now.is_clock_reading(),
{
    let now = chrono::Utc::now();
    Timestamp { secs: now.timestamp(), nanos: now.timestamp_subsec_nanos() }
}

} // verus!
