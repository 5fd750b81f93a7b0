//! Record identifiers, which are the store's `ObjectId` values.

use vstd::prelude::*;
use mongodb::bson::oid::ObjectId;

verus! {

/// `mongodb::bson::oid::ObjectId`, carried through unopened.
#[verifier::external_type_specification]
#[verifier::external_body]
pub struct ExObjectId(mongodb::bson::oid::ObjectId);

/// The raw bytes that an identifier holds, in order.
pub uninterp spec fn object_id_bytes(id: ObjectId) -> Seq<u8>;

/// The character that stands for a value below sixteen in lower-case hexadecimal.
pub open spec fn hex_digit(nibble: int) -> char {
    seq![
        '0', '1', '2', '3', '4', '5', '6', '7', '8', '9', 'a', 'b', 'c', 'd', 'e', 'f',
    ][nibble]
}

/// Lower-case hexadecimal text of a byte string: two characters per byte,
/// the high half of each byte first.
pub open spec fn hex_text(bytes: Seq<u8>) -> Seq<char> {
    Seq::new(
        2 * bytes.len(),
        |i: int|
            if i % 2 == 0 {
                hex_digit(bytes[i / 2] as int / 16)
            } else {
                hex_digit(bytes[i / 2] as int % 16)
            },
    )
}

/// Calls `ObjectId::new`.
///
/// Trusted, and nothing is claimed of the identifier: it depends on the
/// clock, the process and a counter. The call fails only on a machine whose
/// clock reads a time before 1970, or one so late that its seconds since
/// then no longer fit 32 bits (from the year 2106 on).
#[verifier::external_body]
pub(crate) fn fresh_id() -> ObjectId {
    ObjectId::new()
}

/// Calls `ObjectId::to_hex`.
///
/// Trusted: the text is the lower-case hexadecimal form of the identifier's
/// bytes, two characters for each.
#[verifier::external_body]
pub(crate) fn id_hex(id: &ObjectId) -> (hex: String)
    ensures
        hex@ == hex_text(object_id_bytes(*id)),
{
    id.to_hex()
}

} // verus!
