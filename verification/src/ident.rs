//! Execution identifiers.

use vstd::prelude::*;

verus! {

pub open spec fn is_lower_hex(c: char) -> bool {
    ('0' <= c <= '9') || ('a' <= c <= 'f')
}

/// Whether the position holds one of the four hyphens of an identifier.
pub open spec fn is_hyphen_position(i: int) -> bool {
    i == 8 || i == 13 || i == 18 || i == 23
}

/// The form of an execution identifier: a random (version 4) UUID, written
/// as 32 lower-case hexadecimal digits in five groups parted by hyphens.
pub open spec fn is_execution_id(id: Seq<char>) -> bool {
    &&& id.len() == 36
    &&& forall|i: int|
        0 <= i < 36 ==> if is_hyphen_position(i) {
            #[trigger] id[i] == '-'
        } else {
            is_lower_hex(id[i])
        }
    &&& id[14] == '4'
    &&& id[19] == '8' || id[19] == '9' || id[19] == 'a' || id[19] == 'b'
}

/// `uuid::Uuid::new_v4` and the UUID's `to_string`: 122 random bits under
/// the marks of version 4 and of the RFC variant, in hyphenated lower-case
/// form.
#[verifier::external_body]
pub(crate) fn random_uuid() -> (id: String)
    ensures
        is_execution_id(id@),
{
    uuid::Uuid::new_v4().to_string()
}

} // verus!
