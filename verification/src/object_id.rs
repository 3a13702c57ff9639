//! Record identifiers of the document store, as text of 24 hexadecimal
//! digits.

use vstd::prelude::*;

verus! {

/// Whether a character is a hexadecimal digit, in either case.
pub open spec fn is_hex_digit(c: char) -> bool {
    ('0' <= c <= '9') || ('a' <= c <= 'f') || ('A' <= c <= 'F')
}

/// Whether a text is a record identifier: 24 hexadecimal digits.
pub open spec fn is_object_id(text: Seq<char>) -> bool {
    text.len() == 24 && forall|i: int| 0 <= i < text.len() ==> is_hex_digit(#[trigger] text[i])
}

/// Calls `mongodb::bson::oid::ObjectId::new` and writes the identifier with
/// `to_hex`. Trusted: the text has 24 characters, two for each of the
/// twelve bytes. Which identifier comes back is left open. The call fails
/// where the system clock stands before 1970 or after 2106.
#[verifier::external_body]
pub(crate) fn fresh_object_id() -> (id: String)
    ensures
        id@.len() == 24,
{
    mongodb::bson::oid::ObjectId::new().to_hex()
}

/// Calls `mongodb::bson::oid::ObjectId::parse_str` and says whether it
/// succeeded. Trusted: a text is parsed exactly when it consists of 24
/// hexadecimal digits, upper or lower case.
#[verifier::external_body]
pub(crate) fn parses_as_object_id(text: &str) -> (ok: bool)
    ensures
        ok == is_object_id(text@),
{
    mongodb::bson::oid::ObjectId::parse_str(text).is_ok()
}

} // verus!
