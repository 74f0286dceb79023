//! The binary encoding of the values that rows are made of, by `postcard`.
//!
//! A row is the encodings of its fields one after the other. Reading a field
//! from the front of some bytes gives the value and the bytes behind it, or the
//! text of postcard's error; for strings and byte vectors that has a name.
//! Whatever stands behind an encoded field, reading gives the field back.

use vstd::prelude::*;

verus! {

/// A value read from the front of some bytes, and the bytes behind it.
pub open spec fn read_ok<T>(v: T, rest: Seq<u8>) -> Result<(T, Seq<u8>), Seq<char>> {
    Ok((v, rest))
}

/// A read that failed with the given error text.
pub open spec fn read_err<T>(e: Seq<char>) -> Result<(T, Seq<u8>), Seq<char>> {
    Err(e)
}

/// The text of postcard's error on bytes that end too soon.
pub const UNEXPECTED_END: &'static str = "Hit the end of buffer, expected more data";

/// The text of postcard's error on a number that is too long.
pub const BAD_NUMBER: &'static str = "Found a varint that didn't terminate. Is the usize too big for this platform?";

/// The text of postcard's error on an optional value that is neither there nor
/// not.
pub const BAD_OPTION: &'static str = "Found an Option discriminant that wasn't 0 or 1";

/// The text of postcard's error on a variant number that an enum does not have.
pub const UNKNOWN_VARIANT: &'static str = "Serde Deserialization Error";

/// `a` and `b` one after the other.
pub(crate) fn join(a: Vec<u8>, b: Vec<u8>) -> (r: Vec<u8>)
    ensures
        r@ == a@ + b@,
{
    let mut r = a;
    let mut tail = b;
    r.append(&mut tail);
    r
}

/// The characters of an optional string.
pub open spec fn opt_text(v: Option<String>) -> Option<Seq<char>> {
    match v {
        Some(s) => Some(s@),
        None => None,
    }
}

/// A number in base 128, the lowest digit first, with 128 added to every digit
/// but the last.
pub open spec fn varint(n: nat) -> Seq<u8>
    decreases n,
{
    if n < 128 {
        seq![n as u8]
    } else {
        seq![(n % 128 + 128) as u8] + varint(n / 128)
    }
}

/// The encoding of a `u32`.
pub open spec fn u32_bytes(v: u32) -> Seq<u8> {
    varint(v as nat)
}

/// What reading a number in base 128 from the front of `bytes` gives, where it
/// has `max` digits at most, and no last digit greater than `last` if it has as
/// many.
pub open spec fn varint_read(bytes: Seq<u8>, max: nat, last: u8) -> Result<
    (nat, Seq<u8>),
    Seq<char>,
>
    decreases max,
{
    if max == 0 {
        Err(BAD_NUMBER@)
    } else if bytes.len() == 0 {
        Err(UNEXPECTED_END@)
    } else if bytes[0] >= 128 {
        match varint_read(bytes.skip(1), (max - 1) as nat, last) {
            Ok((n, rest)) => Ok(((n * 128 + bytes[0] - 128) as nat, rest)),
            Err(e) => Err(e),
        }
    } else if max == 1 && bytes[0] > last {
        Err(BAD_NUMBER@)
    } else {
        Ok((bytes[0] as nat, bytes.skip(1)))
    }
}

/// What reading a `u32` from the front of `bytes` gives: 5 digits in base 128
/// hold one, the last of which is 15 at most.
pub open spec fn u32_read(bytes: Seq<u8>) -> Result<(u32, Seq<u8>), Seq<char>> {
    match varint_read(bytes, 5, 15) {
        Ok((n, rest)) => Ok((n as u32, rest)),
        Err(e) => Err(e),
    }
}

/// The encoding of an optional `u64`: 0, or 1 and the number.
pub open spec fn opt_u64_bytes(v: Option<u64>) -> Seq<u8> {
    match v {
        None => seq![0u8],
        Some(n) => seq![1u8] + varint(n as nat),
    }
}

/// What reading an optional `u64` from the front of `bytes` gives: 10 digits in
/// base 128 hold the number, the last of which is 1 at most.
pub open spec fn opt_u64_read(bytes: Seq<u8>) -> Result<(Option<u64>, Seq<u8>), Seq<char>> {
    if bytes.len() == 0 {
        Err(UNEXPECTED_END@)
    } else if bytes[0] == 0 {
        Ok((None, bytes.skip(1)))
    } else if bytes[0] == 1 {
        match varint_read(bytes.skip(1), 10, 1) {
            Ok((n, rest)) => Ok((Some(n as u64), rest)),
            Err(e) => Err(e),
        }
    } else {
        Err(BAD_OPTION@)
    }
}

/// The encoding of a string: that of its bytes in UTF-8.
pub open spec fn text_bytes(v: Seq<char>) -> Seq<u8> {
    blob_bytes(vstd::utf8::encode_utf8(v))
}

/// What reading a string from the front of `bytes` gives where a pointer has
/// `width` bits: the length in front of the contents is read as a `usize`.
pub uninterp spec fn text_read_on(width: nat, bytes: Seq<u8>) -> Result<(Seq<char>, Seq<u8>), Seq<char>>;

/// What reading a string from the front of `bytes` gives.
pub open spec fn text_read(bytes: Seq<u8>) -> Result<(Seq<char>, Seq<u8>), Seq<char>> {
    text_read_on(usize::BITS as nat, bytes)
}

/// The encoding of an optional string: 0, or 1 and the string.
pub open spec fn opt_text_bytes(v: Option<Seq<char>>) -> Seq<u8> {
    match v {
        None => seq![0u8],
        Some(text) => seq![1u8] + text_bytes(text),
    }
}

/// What reading an optional string from the front of `bytes` gives where a pointer has
/// `width` bits: the length in front of the contents is read as a `usize`.
pub uninterp spec fn opt_text_read_on(width: nat, bytes: Seq<u8>) -> Result<(Option<Seq<char>>, Seq<u8>), Seq<char>>;

/// What reading an optional string from the front of `bytes` gives.
pub open spec fn opt_text_read(bytes: Seq<u8>) -> Result<(Option<Seq<char>>, Seq<u8>), Seq<char>> {
    opt_text_read_on(usize::BITS as nat, bytes)
}

/// The encoding of a byte vector: its length and the bytes.
pub open spec fn blob_bytes(v: Seq<u8>) -> Seq<u8> {
    varint(v.len()) + v
}

/// What reading a byte vector from the front of `bytes` gives where a pointer has
/// `width` bits: the length in front of the contents is read as a `usize`.
pub uninterp spec fn blob_read_on(width: nat, bytes: Seq<u8>) -> Result<(Seq<u8>, Seq<u8>), Seq<char>>;

/// What reading a byte vector from the front of `bytes` gives.
pub open spec fn blob_read(bytes: Seq<u8>) -> Result<(Seq<u8>, Seq<u8>), Seq<char>> {
    blob_read_on(usize::BITS as nat, bytes)
}

/// The numbers that `max` digits in base 128 hold, where the last one is `last`
/// at most.
spec fn varint_bound(max: nat, last: u8) -> nat
    decreases max,
{
    if max <= 1 {
        last as nat + 1
    } else {
        128 * varint_bound((max - 1) as nat, last)
    }
}

/// Reading the digits of a number gives the number, whatever stands behind
/// them.
proof fn varint_reads_back(n: nat, max: nat, last: u8, rest: Seq<u8>)
    requires
        0 < max,
        last < 128,
        n < varint_bound(max, last),
    ensures
        varint_read(varint(n) + rest, max, last) == Ok::<(nat, Seq<u8>), Seq<char>>((n, rest)),
    decreases max,
{
    let bytes = varint(n) + rest;
    if n < 128 {
        assert(bytes[0] == n as u8);
        assert(bytes.skip(1) =~= rest);
    } else {
        assert(max > 1);
        assert(bytes[0] == (n % 128 + 128) as u8);
        assert(bytes.skip(1) =~= varint(n / 128) + rest);
        varint_reads_back(n / 128, (max - 1) as nat, last, rest);
    }
}

/// Encodes a `u32` with `postcard::to_allocvec`, which does not fail on one.
/// The bytes are the number in base 128.
#[verifier::external_body]
fn encode_u32(v: u32) -> (r: Result<Vec<u8>, String>)
    ensures
        r is Ok,
        r->Ok_0@ == u32_bytes(v),
{
    match postcard::to_allocvec(&v) {
        Ok(bytes) => Ok(bytes),
        Err(e) => Err(e.to_string()),
    }
}

/// Encodes a `u32`. Reading the encoding, whatever stands behind it, gives the
/// value back.
pub(crate) fn put_u32(v: u32) -> (r: Result<Vec<u8>, String>)
    ensures
        r is Ok,
        r->Ok_0@ == u32_bytes(v),
        forall|rest: Seq<u8>| #[trigger] u32_read(r->Ok_0@ + rest) == read_ok(v, rest),
{
    let r = encode_u32(v);
    proof {
        assert forall|rest: Seq<u8>| #[trigger] u32_read(r->Ok_0@ + rest) == read_ok(v, rest) by {
            reveal_with_fuel(varint_bound, 6);
            varint_reads_back(v as nat, 5, 15, rest);
        }
    }
    r
}

/// Reads a `u32` from the front of `bytes` with
/// `postcard::take_from_bytes`: the value and what follows it, or the text of
/// the error.
#[verifier::external_body]
pub(crate) fn take_u32<'a>(bytes: &'a [u8]) -> (r: Result<(u32, &'a [u8]), String>)
    ensures
        match r {
            Ok((v, rest)) => u32_read(bytes@) == read_ok(v, rest@),
            Err(e) => u32_read(bytes@) == read_err::<u32>(e@),
        },
{
    match postcard::take_from_bytes::<u32>(bytes) {
        Ok((v, rest)) => Ok((v, rest)),
        Err(e) => Err(e.to_string()),
    }
}

/// Encodes an optional `u64` with `postcard::to_allocvec`, which does not fail
/// on one. The bytes are 0, or 1 and the number in base 128.
#[verifier::external_body]
fn encode_opt_u64(v: Option<u64>) -> (r: Result<Vec<u8>, String>)
    ensures
        r is Ok,
        r->Ok_0@ == opt_u64_bytes(v),
{
    match postcard::to_allocvec(&v) {
        Ok(bytes) => Ok(bytes),
        Err(e) => Err(e.to_string()),
    }
}

/// Encodes an optional `u64`. Reading the encoding, whatever stands behind it,
/// gives the value back.
pub(crate) fn put_opt_u64(v: Option<u64>) -> (r: Result<Vec<u8>, String>)
    ensures
        r is Ok,
        r->Ok_0@ == opt_u64_bytes(v),
        forall|rest: Seq<u8>| #[trigger] opt_u64_read(r->Ok_0@ + rest) == read_ok(v, rest),
{
    let r = encode_opt_u64(v);
    proof {
        assert forall|rest: Seq<u8>| #[trigger]
            opt_u64_read(r->Ok_0@ + rest) == read_ok(v, rest) by {
            let bytes = r->Ok_0@ + rest;
            match v {
                None => {
                    assert(bytes.skip(1) =~= rest);
                },
                Some(n) => {
                    assert(bytes.skip(1) =~= varint(n as nat) + rest);
                    reveal_with_fuel(varint_bound, 11);
                    varint_reads_back(n as nat, 10, 1, rest);
                },
            }
        }
    }
    r
}

/// Reads an optional `u64` from the front of `bytes` with
/// `postcard::take_from_bytes`: the value and what follows it, or the text of
/// the error.
#[verifier::external_body]
pub(crate) fn take_opt_u64<'a>(bytes: &'a [u8]) -> (r: Result<(Option<u64>, &'a [u8]), String>)
    ensures
        match r {
            Ok((v, rest)) => opt_u64_read(bytes@) == read_ok(v, rest@),
            Err(e) => opt_u64_read(bytes@) == read_err::<Option<u64>>(e@),
        },
{
    match postcard::take_from_bytes::<Option<u64>>(bytes) {
        Ok((v, rest)) => Ok((v, rest)),
        Err(e) => Err(e.to_string()),
    }
}

/// Encodes a string with `postcard::to_allocvec`, which does not fail on one.
/// The bytes are the length of the string in UTF-8, in base 128, and the string.
/// Reading the encoding, whatever stands behind it, gives the value back.
#[verifier::external_body]
pub(crate) fn put_text(v: &str) -> (r: Result<Vec<u8>, String>)
    ensures
        r is Ok,
        r->Ok_0@ == text_bytes(v@),
        forall|rest: Seq<u8>| #[trigger]
            text_read_on(usize::BITS as nat, r->Ok_0@ + rest) == read_ok(v@, rest),
{
    match postcard::to_allocvec(v) {
        Ok(bytes) => Ok(bytes),
        Err(e) => Err(e.to_string()),
    }
}

/// Reads a string from the front of `bytes` with
/// `postcard::take_from_bytes`: the value and what follows it, or the text of
/// the error.
#[verifier::external_body]
pub(crate) fn take_text<'a>(bytes: &'a [u8]) -> (r: Result<(String, &'a [u8]), String>)
    ensures
        match r {
            Ok((v, rest)) => text_read_on(usize::BITS as nat, bytes@) == read_ok(v@, rest@),
            Err(e) => text_read_on(usize::BITS as nat, bytes@) == read_err::<Seq<char>>(e@),
        },
{
    match postcard::take_from_bytes::<String>(bytes) {
        Ok((v, rest)) => Ok((v, rest)),
        Err(e) => Err(e.to_string()),
    }
}

/// Encodes an optional string with `postcard::to_allocvec`, which does not fail on one.
/// The bytes are 0, or 1 and the encoding of the string.
/// Reading the encoding, whatever stands behind it, gives the value back.
#[verifier::external_body]
pub(crate) fn put_opt_text(v: &Option<String>) -> (r: Result<Vec<u8>, String>)
    ensures
        r is Ok,
        r->Ok_0@ == opt_text_bytes(opt_text(*v)),
        forall|rest: Seq<u8>| #[trigger]
            opt_text_read_on(usize::BITS as nat, r->Ok_0@ + rest) == read_ok(opt_text(*v), rest),
{
    match postcard::to_allocvec(v) {
        Ok(bytes) => Ok(bytes),
        Err(e) => Err(e.to_string()),
    }
}

/// Reads an optional string from the front of `bytes` with
/// `postcard::take_from_bytes`: the value and what follows it, or the text of
/// the error.
#[verifier::external_body]
pub(crate) fn take_opt_text<'a>(bytes: &'a [u8]) -> (r: Result<(Option<String>, &'a [u8]), String>)
    ensures
        match r {
            Ok((v, rest)) => opt_text_read_on(usize::BITS as nat, bytes@) == read_ok(opt_text(v), rest@),
            Err(e) => opt_text_read_on(usize::BITS as nat, bytes@) == read_err::<Option<Seq<char>>>(e@),
        },
{
    match postcard::take_from_bytes::<Option<String>>(bytes) {
        Ok((v, rest)) => Ok((v, rest)),
        Err(e) => Err(e.to_string()),
    }
}

/// Encodes a byte vector with `postcard::to_allocvec`, which does not fail on one.
/// The bytes are the vector's length, in base 128, and the vector.
/// Reading the encoding, whatever stands behind it, gives the value back.
#[verifier::external_body]
pub(crate) fn put_blob(v: &[u8]) -> (r: Result<Vec<u8>, String>)
    ensures
        r is Ok,
        r->Ok_0@ == blob_bytes(v@),
        forall|rest: Seq<u8>| #[trigger]
            blob_read_on(usize::BITS as nat, r->Ok_0@ + rest) == read_ok(v@, rest),
{
    match postcard::to_allocvec(v) {
        Ok(bytes) => Ok(bytes),
        Err(e) => Err(e.to_string()),
    }
}

/// Reads a byte vector from the front of `bytes` with
/// `postcard::take_from_bytes`: the value and what follows it, or the text of
/// the error.
#[verifier::external_body]
pub(crate) fn take_blob<'a>(bytes: &'a [u8]) -> (r: Result<(Vec<u8>, &'a [u8]), String>)
    ensures
        match r {
            Ok((v, rest)) => blob_read_on(usize::BITS as nat, bytes@) == read_ok(v@, rest@),
            Err(e) => blob_read_on(usize::BITS as nat, bytes@) == read_err::<Seq<u8>>(e@),
        },
{
    match postcard::take_from_bytes::<Vec<u8>>(bytes) {
        Ok((v, rest)) => Ok((v, rest)),
        Err(e) => Err(e.to_string()),
    }
}

/// An optional text is read as it is.
pub proof fn optional_texts_are_faithful(s: String)
    ensures
        opt_text(Some(s)) == Some(s@),
        opt_text(None) is None,
{
}

} // verus!
