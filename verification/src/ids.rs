use vstd::prelude::*;
use rand::Rng;

verus! {

/// A socket id: the 32 random bytes behind a session id.
pub type UniversalIdType = [u8; 32];

/// The base64 text (standard alphabet, padded) of `bytes`, as `base64::encode` writes it.
pub uninterp spec fn base64_encoding(bytes: Seq<u8>) -> Seq<char>;

/// The bytes that `base64::decode` reads from `text`, or `None` where it refuses the text.
pub uninterp spec fn base64_decoding(text: Seq<char>) -> Option<Seq<u8>>;

/// Draws 32 bytes from `rand::thread_rng()`. Nothing is claimed of the bytes.
#[verifier::external_body]
pub(crate) fn random_id() -> (r: UniversalIdType) {
    rand::thread_rng().gen::<UniversalIdType>()
}

/// The outside error of `base64::decode`.
#[verifier::external_type_specification]
#[verifier::external_body]
pub struct ExDecodeError(base64::DecodeError);

/// Calls `base64::encode` on the 32 bytes of `id`.
/// Claimed: the text is `base64_encoding` of the bytes, and `base64::decode`
/// reads the same bytes back from it (the crate's round-trip property, which
/// its own tests check).
#[verifier::external_body]
pub(crate) fn encode_id(id: &UniversalIdType) -> (r: String)
    ensures
        r@ == base64_encoding(id@),
        base64_decoding(r@) == Some(id@),
{
    base64::encode(id)
}

/// Calls `base64::decode` on the text of `text`.
/// Claimed: it succeeds exactly where `base64_decoding` gives bytes, and then
/// returns those bytes.
#[verifier::external_body]
pub(crate) fn decode_id(text: &str) -> (r: Result<Vec<u8>, base64::DecodeError>)
    ensures
        r is Ok <==> base64_decoding(text@) is Some,
        r matches Ok(bytes) ==> bytes@ == base64_decoding(text@)->0,
{
    base64::decode(text)
}

/// A session id (base64 text) that decodes to a full socket id.
pub open spec fn is_session_key(key: Seq<char>) -> bool {
    base64_decoding(key) matches Some(bytes) && bytes.len() == 32
}

/// Reads the socket id behind a session id: `None` where the text is no base64
/// of exactly 32 bytes.
pub fn socket_id_of(session_id: &str) -> (r: Option<UniversalIdType>)
    ensures
        r is Some <==> is_session_key(session_id@),
        r matches Some(id) ==> Some(id@) == base64_decoding(session_id@),
{
    match decode_id(session_id) {
        Ok(bytes) => {
            if bytes.len() == 32 {
                let mut id: UniversalIdType = [0u8; 32];
                let mut i: usize = 0;
                while i < 32
                    invariant
                        bytes@.len() == 32,
                        0 <= i <= 32,
                        forall|j: int| 0 <= j < i ==> id@[j] == bytes@[j],
                    decreases 32 - i,
                {
                    id[i] = bytes[i];
                    i = i + 1;
                }
                assert(id@ =~= bytes@);
                Some(id)
            } else {
                None
            }
        },
        Err(_) => None,
    }
}

} // verus!
