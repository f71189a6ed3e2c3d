//! The identifier under which the store keeps a quote.
//!
//! The store addresses a document by twelve bytes, written in a request path
//! as twenty-four hexadecimal digits.

use vstd::prelude::*;

verus! {

#[verifier::external_type_specification]
#[verifier::external_body]
pub struct ExOidError(bson::oid::Error);

/// Whether `c` is one of `0`-`9`, `a`-`f`, `A`-`F`.
pub open spec fn is_hex_digit(c: char) -> bool {
    ('0' <= c && c <= '9') || ('a' <= c && c <= 'f') || ('A' <= c && c <= 'F')
}

/// The number that the hexadecimal digit `c` stands for.
pub open spec fn hex_value(c: char) -> int
    recommends
        is_hex_digit(c),
{
    if '0' <= c && c <= '9' {
        c as int - '0' as int
    } else if 'a' <= c && c <= 'f' {
        c as int - 'a' as int + 10
    } else {
        c as int - 'A' as int + 10
    }
}

/// Whether `text` is the written form of an identifier: exactly twenty-four
/// hexadecimal digits.
pub open spec fn is_object_id_text(text: Seq<char>) -> bool {
    &&& text.len() == 24
    &&& forall|i: int| 0 <= i < 24 ==> is_hex_digit(#[trigger] text[i])
}

/// The twelve bytes that `text` spells, two digits to the byte, the high
/// digit first.
pub open spec fn object_id_bytes(text: Seq<char>) -> Seq<u8>
    recommends
        is_object_id_text(text),
{
    Seq::new(12, |i: int| (16 * hex_value(text[2 * i]) + hex_value(text[2 * i + 1])) as u8)
}

/// The reason a path segment names no document: it is not the written form
/// of an identifier. This is a different answer from "no such document".
#[derive(Clone, Copy, Debug, PartialEq, Eq)]
pub struct InvalidObjectId {}

/// The identifier of a stored quote.
#[derive(Clone, Copy, Debug, PartialEq, Eq, Hash)]
pub struct ObjectId {
    bytes: [u8; 12],
}

impl View for ObjectId {
    type V = Seq<u8>;

    closed spec fn view(&self) -> Seq<u8> {
        self.bytes@
    }
}

/// Calls `bson::oid::ObjectId::parse_str` and hands out the bytes of the
/// identifier it read.
///
/// Trusted: the call decodes the text's bytes as hexadecimal, two digits to
/// the byte, and accepts it exactly when that gives twelve bytes. A text is
/// therefore accepted exactly when it is twenty-four hexadecimal digits of
/// either case, and the bytes are the digits' values pair by pair.
#[verifier::external_body]
fn parse_hex(text: &str) -> (r: Result<[u8; 12], bson::oid::Error>)
    ensures
        r is Ok <==> is_object_id_text(text@),
        r matches Ok(bytes) ==> bytes@ == object_id_bytes(text@),
{
    match bson::oid::ObjectId::parse_str(text) {
        Ok(id) => Ok(id.bytes()),
        Err(e) => Err(e),
    }
}

impl ObjectId {
    /// The identifier made of the given bytes.
    pub fn from_bytes(bytes: [u8; 12]) -> (id: ObjectId)
        ensures
            id@ == bytes@,
    {
        ObjectId { bytes }
    }

    /// The bytes of the identifier.
    pub fn bytes(&self) -> (bytes: [u8; 12])
        ensures
            bytes@ == self@,
    {
        self.bytes
    }

    /// Reads an identifier from its written form.
    ///
    /// Succeeds exactly on twenty-four hexadecimal digits, and then gives the
    /// identifier whose bytes the digits spell.
    pub fn parse_str(text: &str) -> (r: Result<ObjectId, InvalidObjectId>)
        ensures
            r is Ok <==> is_object_id_text(text@),
            r matches Ok(id) ==> id@ == object_id_bytes(text@),
    {
        match parse_hex(text) {
            Ok(bytes) => Ok(ObjectId { bytes }),
            Err(_) => Err(InvalidObjectId {  }),
        }
    }
}

/// An identifier always has twelve bytes.
pub proof fn lemma_object_id_len(id: ObjectId)
    ensures
        id@.len() == 12,
{
}

} // verus!
