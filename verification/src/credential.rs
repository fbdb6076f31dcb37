//! The credential that protects a locally spawned server.
//!
//! It is generated afresh for every spawn, handed to the child through its
//! environment and to the consumers through the readiness result, and
//! never stored.

use vstd::prelude::*;

verus! {

/// How long a generated credential is.
pub const CREDENTIAL_LEN: usize = 36;

/// Whether `c` is a lower-case hexadecimal digit.
pub open spec fn is_lower_hex(c: char) -> bool {
    ('0' <= c && c <= '9') || ('a' <= c && c <= 'f')
}

/// Whether `text` has the shape of a hyphenated identifier: 36 characters,
/// hyphens at the four usual places and lower-case hexadecimal digits
/// everywhere else.
pub open spec fn is_credential(text: Seq<char>) -> bool {
    &&& text.len() == CREDENTIAL_LEN
    &&& forall|i: int|
        0 <= i < text.len() ==> if i == 8 || i == 13 || i == 18 || i == 23 {
            #[trigger] text[i] == '-'
        } else {
            is_lower_hex(text[i])
        }
}

/// Calls `uuid::Uuid::new_v4` and writes the identifier out with its
/// `Display`, which is the hyphenated lower-case form. The identifier is
/// random: the contract states the shape that every outcome has. The call
/// panics where the operating system hands out no random bytes.
#[verifier::external_body]
fn random_uuid_text() -> (text: String)
    ensures
        is_credential(text@),
{
    uuid::Uuid::new_v4().to_string()
}

/// A fresh random credential.
pub fn generate_credential() -> (credential: String)
    ensures
        is_credential(credential@),
{
    random_uuid_text()
}

} // verus!
