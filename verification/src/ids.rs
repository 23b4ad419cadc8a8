//! Fresh identifiers for jobs and for their work files.

use vstd::prelude::*;

verus! {

/// Whether a character is a digit of lower-case hexadecimal.
pub open spec fn is_lower_hex(c: char) -> bool {
    ('0' <= c <= '9') || ('a' <= c <= 'f')
}

/// Whether `s` has the hyphenated form of a UUID: 36 characters, hyphens at
/// four fixed places and lower-case hexadecimal digits elsewhere.
pub open spec fn is_hyphenated_uuid(s: Seq<char>) -> bool {
    &&& s.len() == 36
    &&& forall|i: int|
        0 <= i < 36 ==> if i == 8 || i == 13 || i == 18 || i == 23 {
            #[trigger] s[i] == '-'
        } else {
            is_lower_hex(s[i])
        }
}

/// A fresh identifier: `uuid::Uuid::new_v4`, written out by its `Display`.
/// The identifier is random, so the contract states only its form, which is
/// the hyphenated lower-case one whatever the random bits are. The call
/// panics where the system hands out no random bytes.
#[verifier::external_body]
pub(crate) fn random_id() -> (id: String)
    ensures
        is_hyphenated_uuid(id@),
{
    uuid::Uuid::new_v4().to_string()
}

} // verus!
