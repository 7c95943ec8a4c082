//! Session ids: sixteen bytes from the thread's random generator, written in
//! base64.

use vstd::prelude::*;

verus! {

/// Number of random bytes behind a session id.
pub const SESSION_ID_BYTES: usize = 16;

/// The text that `rustc_serialize` writes for `bytes` under its `STANDARD`
/// base64 configuration: the RFC 4648 alphabet with `+` and `/`, padded with
/// `=`, without line breaks.
pub uninterp spec fn base64_standard(bytes: Seq<u8>) -> Seq<char>;

/// Length of the padded base64 text of `n` bytes: four characters for every
/// three bytes begun.
pub open spec fn base64_len(n: nat) -> nat {
    (n + 2) / 3 * 4
}

/// Whether `id` is the base64 text of sixteen bytes.
pub open spec fn is_session_id(id: Seq<char>) -> bool {
    exists|bytes: Seq<u8>|
        bytes.len() == SESSION_ID_BYTES && id == #[trigger] base64_standard(bytes)
}

/// Calls `ToBase64::to_base64` of `rustc_serialize` on the bytes with the
/// `STANDARD` configuration. The text depends on the bytes alone and is
/// named, not spelled out; of its size the contract claims what the encoder
/// allocates and never shrinks when padding is on, `(len + 2) / 3 * 4`
/// characters.
#[verifier::external_body]
fn to_base64(bytes: &Vec<u8>) -> (text: String)
    requires
        base64_len(bytes@.len()) <= usize::MAX,
    ensures
        text@ == base64_standard(bytes@),
        text@.len() == base64_len(bytes@.len()),
{
    rustc_serialize::base64::ToBase64::to_base64(
        bytes.as_slice(),
        rustc_serialize::base64::STANDARD,
    )
}

/// Calls `Rng::fill_bytes` of `rand` on the generator that `thread_rng`
/// returns. Every byte of the buffer is overwritten; nothing is known of the
/// new bytes, and two calls need not agree. The generator is seeded from the
/// operating system when the thread first asks for it and from time to time
/// after that, and panics if the system has no entropy to give.
#[verifier::external_body]
fn fill_random(buffer: &mut Vec<u8>)
    ensures
        final(buffer)@.len() == old(buffer)@.len(),
{
    rand::Rng::fill_bytes(&mut rand::thread_rng(), buffer.as_mut_slice())
}

/// The session id that stands for `bytes`.
pub fn session_id_of(bytes: &Vec<u8>) -> (id: String)
    requires
        bytes@.len() == SESSION_ID_BYTES,
    ensures
        id@ == base64_standard(bytes@),
        is_session_id(id@),
        id@.len() == 24,
{
    to_base64(bytes)
}

/// A fresh session id. Which one is up to the random generator; whatever it
/// draws, the id is the base64 text of sixteen bytes and so twenty-four
/// characters long.
pub fn new_session_id() -> (id: String)
    ensures
        is_session_id(id@),
        id@.len() == 24,
{
    let mut id: Vec<u8> = vec![0u8; SESSION_ID_BYTES];
    fill_random(&mut id);
    session_id_of(&id)
}

} // verus!
