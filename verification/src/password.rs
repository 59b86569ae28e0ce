use vstd::prelude::*;

use crate::ids::UniversalIdType;
use vstd::utf8::encode_utf8;

verus! {

/// The encoded hash that `argon2::hash_encoded` writes for the UTF-8 bytes of
/// `password` with salt `salt` under `argon2::Config::default()`, or `None`
/// where it refuses them.
pub uninterp spec fn argon2_encoded_hash(password: Seq<char>, salt: Seq<u8>) -> Option<Seq<char>>;

/// What `argon2::verify_encoded` answers for the encoded hash `encoded` and
/// the UTF-8 bytes of `password`, or `None` where it reports an error.
pub uninterp spec fn argon2_verdict(encoded: Seq<char>, password: Seq<char>) -> Option<bool>;

/// The outside error of the argon2 calls.
#[verifier::external_type_specification]
#[verifier::external_body]
pub struct ExArgon2Error(argon2::Error);

/// Calls `argon2::hash_encoded` on the bytes of `password` and the 32 bytes of
/// `salt`, under `argon2::Config::default()`.
/// Claimed: the outcome is `argon2_encoded_hash` of the two; under the default
/// configuration and a 32-byte salt the crate refuses only a password of more
/// than `u32::MAX` bytes; and `argon2::verify_encoded` accepts the same
/// password against the hash it wrote (the round trip that the crate's own
/// integration tests check).
#[verifier::external_body]
pub(crate) fn hash_password(password: &str, salt: &UniversalIdType) -> (r: Result<String, argon2::Error>)
    ensures
        r is Ok <==> argon2_encoded_hash(password@, salt@) is Some,
        r matches Ok(hash) ==> Some(hash@) == argon2_encoded_hash(password@, salt@),
        encode_utf8(password@).len() <= 0xFFFF_FFFF ==> r is Ok,
        r matches Ok(hash) ==> argon2_verdict(hash@, password@) == Some(true),
{
    argon2::hash_encoded(password.as_bytes(), salt, &argon2::Config::default())
}

/// Calls `argon2::verify_encoded` on `encoded` and the bytes of `password`.
/// Claimed: the outcome is `argon2_verdict` of the two.
#[verifier::external_body]
pub(crate) fn verify_password(encoded: &str, password: &str) -> (r: Result<bool, argon2::Error>)
    ensures
        r is Err <==> argon2_verdict(encoded@, password@) is None,
        r matches Ok(b) ==> argon2_verdict(encoded@, password@) == Some(b),
{
    argon2::verify_encoded(encoded, password.as_bytes())
}

} // verus!
