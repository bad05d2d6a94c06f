//! Random bytes from the operating system.
use vstd::prelude::*;

verus! {

/// Fill a buffer of `n` bytes from the operating system's random source.
///
/// Calls `rand::RngCore::try_fill_bytes` on `rand::rngs::OsRng`. The contract
/// claims only that a successful call yields `n` bytes; their values come
/// from the operating system and are left unsaid, as is when the call fails.
#[verifier::external_body]
pub(crate) fn os_random_bytes(n: usize) -> (r: Option<Vec<u8>>)
    ensures
        r matches Some(v) ==> v@.len() == n,
{
    let mut buf = vec![0u8; n];
    match rand::RngCore::try_fill_bytes(&mut rand::rngs::OsRng, &mut buf) {
        Ok(()) => Some(buf),
        Err(_) => None,
    }
}

} // verus!
