//! Strings of bytes in the Octet Encoding Rules.
//!
//! A string of variable length is its length, then its bytes. A length below
//! 128 is one byte. Any length can be a byte that says how many bytes follow,
//! with its highest bit set, then that many bytes, the most significant first.

use crate::errors::ParseError;
use crate::external::{read_u8, read_uint};
use vstd::arithmetic::power::pow;
use vstd::prelude::*;
use vstd::slice::{slice_subrange, slice_to_vec};

verus! {

/// The lowest byte that says how many bytes of length follow, less that number.
pub const LONG_FORM: u8 = 0x80;

/// The most bytes that a length can have.
pub const MAX_LENGTH_BYTES: u8 = 8;

/// The number that the bytes spell, the most significant byte first.
pub open spec fn be_uint(bytes: Seq<u8>) -> nat
    decreases bytes.len(),
{
    if bytes.len() == 0 {
        0
    } else {
        be_uint(bytes.drop_last()) * 256 + bytes.last() as nat
    }
}

/// The fewest bytes that spell the number, the most significant byte first.
pub open spec fn be_bytes(number: nat) -> Seq<u8>
    decreases number,
{
    if number == 0 {
        Seq::empty()
    } else {
        be_bytes(number / 256).push((number % 256) as u8)
    }
}

/// Whether the bytes are a way to write the length.
pub open spec fn is_length_prefix(prefix: Seq<u8>, length: nat) -> bool {
    ||| prefix.len() == 1 && prefix[0] < LONG_FORM && prefix[0] == length
    ||| {
        &&& 2 <= prefix.len() <= 1 + MAX_LENGTH_BYTES
        &&& prefix[0] == LONG_FORM + (prefix.len() - 1)
        &&& be_uint(prefix.skip(1)) == length
    }
}

/// The shortest way to write the length.
pub open spec fn shortest_length_prefix(length: nat) -> Seq<u8> {
    if length < LONG_FORM {
        seq![length as u8]
    } else {
        seq![(LONG_FORM + be_bytes(length).len()) as u8] + be_bytes(length)
    }
}

/// The length that the bytes begin with, and the number of bytes it takes up.
pub open spec fn leading_length(bytes: Seq<u8>) -> Result<(nat, nat), ParseError> {
    if bytes.len() == 0 {
        Err(ParseError::UnexpectedEnd)
    } else if bytes[0] < LONG_FORM {
        Ok((bytes[0] as nat, 1))
    } else if bytes[0] == LONG_FORM || bytes[0] > LONG_FORM + MAX_LENGTH_BYTES {
        Err(ParseError::InvalidLength)
    } else {
        let size = 1 + (bytes[0] - LONG_FORM) as nat;
        if bytes.len() < size {
            Err(ParseError::UnexpectedEnd)
        } else {
            Ok((be_uint(bytes.subrange(1, size as int)), size))
        }
    }
}

/// The string that the bytes begin with, and the bytes that follow it.
pub open spec fn leading_var_octet_string(bytes: Seq<u8>) -> Result<
    (Seq<u8>, Seq<u8>),
    ParseError,
> {
    match leading_length(bytes) {
        Err(error) => Err(error),
        Ok((length, size)) => if bytes.len() < size + length {
            Err(ParseError::UnexpectedEnd)
        } else {
            Ok(
                (
                    bytes.subrange(size as int, (size + length) as int),
                    bytes.skip((size + length) as int),
                ),
            )
        },
    }
}

/// Takes one byte off the front of `reader`. On failure `reader` is as before.
pub fn read_octet(reader: &mut &[u8]) -> (result: Result<u8, ParseError>)
    ensures
        (*old(reader))@.len() == 0 ==> {
            &&& result == Err::<u8, ParseError>(ParseError::UnexpectedEnd)
            &&& (*final(reader))@ == (*old(reader))@
        },
        (*old(reader))@.len() > 0 ==> {
            &&& result == Ok::<u8, ParseError>((*old(reader))@[0])
            &&& (*final(reader))@ == (*old(reader))@.skip(1)
        },
{
    let mut rest: &[u8] = *reader;
    match read_u8(&mut rest) {
        Ok(byte) => {
            *reader = rest;
            Ok(byte)
        },
        Err(_) => Err(ParseError::UnexpectedEnd),
    }
}

/// Takes a length off the front of `reader`. On failure `reader` is as before.
fn read_length(reader: &mut &[u8]) -> (result: Result<u64, ParseError>)
    ensures
        match leading_length((*old(reader))@) {
            Ok((length, size)) => {
                &&& result matches Ok(value) && value == length
                &&& (*final(reader))@ == (*old(reader))@.skip(size as int)
            },
            Err(error) => {
                &&& result == Err::<u64, ParseError>(error)
                &&& (*final(reader))@ == (*old(reader))@
            },
        },
{
    let ghost before = (*reader)@;
    let mut rest: &[u8] = *reader;
    let first: u8 = match read_octet(&mut rest) {
        Ok(byte) => byte,
        Err(error) => return Err(error),
    };
    if first < LONG_FORM {
        *reader = rest;
        return Ok(first as u64);
    }
    let count: u8 = first - LONG_FORM;
    if count == 0 || count > MAX_LENGTH_BYTES {
        return Err(ParseError::InvalidLength);
    }
    match read_uint(&mut rest, count as usize) {
        Ok(length) => {
            proof {
                assert(before.skip(1).take(count as int) == before.subrange(1, 1 + count));
                assert(before.skip(1).skip(count as int) == before.skip(1 + count));
            }
            *reader = rest;
            Ok(length)
        },
        Err(_) => Err(ParseError::UnexpectedEnd),
    }
}

/// Takes a string off the front of `reader`. On failure `reader` is as before.
pub fn read_var_octet_string(reader: &mut &[u8]) -> (result: Result<Vec<u8>, ParseError>)
    ensures
        match leading_var_octet_string((*old(reader))@) {
            Ok((content, following)) => {
                &&& result matches Ok(value) && value@ == content
                &&& (*final(reader))@ == following
            },
            Err(error) => {
                &&& result == Err::<Vec<u8>, ParseError>(error)
                &&& (*final(reader))@ == (*old(reader))@
            },
        },
{
    let ghost before = (*reader)@;
    let mut rest: &[u8] = *reader;
    let length: u64 = match read_length(&mut rest) {
        Ok(length) => length,
        Err(error) => return Err(error),
    };
    if length > rest.len() as u64 {
        return Err(ParseError::UnexpectedEnd);
    }
    let content = slice_to_vec(slice_subrange(rest, 0, length as usize));
    proof {
        let size = leading_length(before)->Ok_0.1 as int;
        assert(before.skip(size).subrange(0, length as int) == before.subrange(
            size,
            size + length,
        ));
        assert(before.skip(size).subrange(length as int, before.len() - size) == before.skip(
            size + length,
        ));
    }
    *reader = slice_subrange(rest, length as usize, rest.len());
    Ok(content)
}

/// The bytes of a number spell the number.
proof fn lemma_be_bytes_spell(number: nat)
    ensures
        be_uint(be_bytes(number)) == number,
    decreases number,
{
    if number > 0 {
        lemma_be_bytes_spell(number / 256);
        assert(be_bytes(number).drop_last() == be_bytes(number / 256));
    }
}

/// A number takes at least one byte if it is not zero, and at most `count`
/// bytes if it is below the power of 256 with that exponent.
proof fn lemma_be_bytes_count(number: nat, count: nat)
    requires
        number < pow(256, count),
    ensures
        be_bytes(number).len() <= count,
        number > 0 ==> be_bytes(number).len() > 0,
    decreases count,
{
    reveal(pow);
    if number > 0 {
        assert(count > 0);
        assert(number / 256 < pow(256, (count - 1) as nat));
        lemma_be_bytes_count(number / 256, (count - 1) as nat);
    }
}

/// A string is read back whichever way its length is written, and what follows
/// it is left.
pub proof fn law_written_string_is_read_back(
    prefix: Seq<u8>,
    content: Seq<u8>,
    following: Seq<u8>,
)
    requires
        is_length_prefix(prefix, content.len()),
    ensures
        leading_var_octet_string(prefix + content + following) == Ok::<_, ParseError>(
            (content, following),
        ),
{
    let bytes = prefix + content + following;
    let size = prefix.len() as int;
    assert(bytes[0] == prefix[0]);
    assert(bytes.subrange(1, size) == prefix.skip(1));
    assert(bytes.subrange(size, size + content.len()) == content);
    assert(bytes.skip(size + content.len()) == following);
}

/// Only a length, the string and what is left make up bytes that a string is
/// read from.
pub proof fn law_read_string_was_written(bytes: Seq<u8>)
    requires
        leading_var_octet_string(bytes) is Ok,
    ensures
        ({
            let (content, following) = leading_var_octet_string(bytes)->Ok_0;
            exists|prefix: Seq<u8>| #[trigger]
                is_length_prefix(prefix, content.len()) && bytes == prefix + content + following
        }),
{
    let (content, following) = leading_var_octet_string(bytes)->Ok_0;
    let (length, size) = leading_length(bytes)->Ok_0;
    let prefix = bytes.take(size as int);
    if size > 1 {
        assert(prefix.skip(1) == bytes.subrange(1, size as int));
    }
    assert(is_length_prefix(prefix, content.len()));
    assert(bytes == prefix + content + following);
}

/// The shortest way to write a length is a way to write it, for every length
/// that eight bytes can spell.
pub proof fn law_every_length_can_be_written(length: nat)
    requires
        length <= u64::MAX,
    ensures
        is_length_prefix(shortest_length_prefix(length), length),
{
    if length >= LONG_FORM {
        assert(pow(256, 8) == 0x1_0000_0000_0000_0000) by {
            reveal(pow);
            reveal_with_fuel(pow, 9);
        }
        lemma_be_bytes_count(length, 8);
        lemma_be_bytes_spell(length);
        assert(shortest_length_prefix(length).skip(1) == be_bytes(length));
    }
}

/// No bytes spell zero, and a further byte makes the number 256 times as large
/// and adds itself.
pub proof fn law_number_grows_byte_by_byte(bytes: Seq<u8>, byte: u8)
    ensures
        be_uint(Seq::empty()) == 0,
        be_uint(bytes.push(byte)) == be_uint(bytes) * 256 + byte,
{
    assert(bytes.push(byte).drop_last() == bytes);
}

/// As many bytes spell only numbers below the power of 256 with that exponent.
proof fn lemma_be_uint_bound(bytes: Seq<u8>)
    ensures
        be_uint(bytes) < pow(256, bytes.len()),
    decreases bytes.len(),
{
    reveal(pow);
    if bytes.len() > 0 {
        lemma_be_uint_bound(bytes.drop_last());
    }
}

/// A length is either one byte below 128, or a byte that says how many bytes
/// follow, from one to eight, and these, the most significant first.
pub proof fn law_length_has_two_forms(prefix: Seq<u8>, length: nat)
    ensures
        is_length_prefix(prefix, length) <==> {
            ||| length < 128 && prefix == seq![length as u8]
            ||| {
                &&& 2 <= prefix.len() <= 9
                &&& prefix[0] == 128 + prefix.len() - 1
                &&& length == be_uint(prefix.drop_first())
            }
        },
{
    if prefix.len() >= 1 {
        assert(prefix.skip(1) == prefix.drop_first());
    }
    if prefix.len() == 1 && prefix[0] == length {
        assert(prefix == seq![length as u8]);
    }
}

/// No way to write a length is shorter than the shortest one.
pub proof fn law_shortest_length_is_shortest(prefix: Seq<u8>, length: nat)
    requires
        is_length_prefix(prefix, length),
    ensures
        shortest_length_prefix(length).len() <= prefix.len(),
{
    if length >= LONG_FORM {
        lemma_be_uint_bound(prefix.skip(1));
        lemma_be_bytes_count(length, (prefix.len() - 1) as nat);
    }
}

/// A string of fewer than 128 bytes is read from one byte that gives its length,
/// and its bytes.
pub proof fn law_short_string_is_read(content: Seq<u8>, following: Seq<u8>)
    requires
        content.len() < 128,
    ensures
        leading_var_octet_string(seq![content.len() as u8] + content + following) == Ok::<
            _,
            ParseError,
        >((content, following)),
{
    law_length_has_two_forms(seq![content.len() as u8], content.len());
    law_written_string_is_read_back(seq![content.len() as u8], content, following);
}

/// A string is read from a byte that says how many bytes its length has, these
/// bytes, and its own bytes.
pub proof fn law_long_string_is_read(digits: Seq<u8>, content: Seq<u8>, following: Seq<u8>)
    requires
        1 <= digits.len() <= 8,
        be_uint(digits) == content.len(),
    ensures
        leading_var_octet_string(
            seq![(128 + digits.len()) as u8] + digits + content + following,
        ) == Ok::<_, ParseError>((content, following)),
{
    let prefix = seq![(128 + digits.len()) as u8] + digits;
    assert(prefix.drop_first() == digits);
    law_length_has_two_forms(prefix, content.len());
    law_written_string_is_read_back(prefix, content, following);
}

/// A string that is cut short, in its length or in its bytes, ends unexpectedly.
pub proof fn law_cut_string_ends_unexpectedly(prefix: Seq<u8>, content: Seq<u8>, cut: int)
    requires
        is_length_prefix(prefix, content.len()),
        0 <= cut < prefix.len() + content.len(),
    ensures
        leading_var_octet_string((prefix + content).take(cut)) == Err::<
            (Seq<u8>, Seq<u8>),
            ParseError,
        >(ParseError::UnexpectedEnd),
{
    let bytes = (prefix + content).take(cut);
    if cut > 0 {
        assert(bytes[0] == prefix[0]);
        if prefix.len() > 1 && cut >= prefix.len() {
            assert(bytes.subrange(1, prefix.len() as int) == prefix.skip(1));
        }
    }
}

/// The length of a string is invalid exactly if its first byte says that the
/// length has no bytes, or more than eight.
pub proof fn law_invalid_length_shows_in_first_byte(bytes: Seq<u8>)
    ensures
        leading_var_octet_string(bytes) == Err::<(Seq<u8>, Seq<u8>), ParseError>(
            ParseError::InvalidLength,
        ) <==> bytes.len() > 0 && (bytes[0] == 128 || bytes[0] > 136),
        leading_var_octet_string(bytes) != Err::<(Seq<u8>, Seq<u8>), ParseError>(
            ParseError::InvalidUtf8,
        ),
{
}

} // verus!
