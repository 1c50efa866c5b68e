use vstd::prelude::*;
use rand::RngCore;

verus! {

/// Relies on rand's `OsRng::fill_bytes`: `n` bytes from the operating
/// system's cryptographically secure generator (it panics only if the
/// operating system cannot supply them). Nothing is known of their values.
#[verifier::external_body]
pub(crate) fn random_bytes(n: usize) -> (r: Vec<u8>)
    ensures
        r@.len() == n,
{
    let mut buf = vec![0u8; n];
    rand::rngs::OsRng.fill_bytes(&mut buf);
    buf
}

/// Relies on `std::time::SystemTime::now`: whole seconds since the Unix epoch,
/// or zero where the clock reads earlier than the epoch.
#[verifier::external_body]
pub(crate) fn unix_seconds() -> (r: u64) {
    match std::time::SystemTime::now().duration_since(std::time::UNIX_EPOCH) {
        Ok(elapsed) => elapsed.as_secs(),
        Err(_) => 0,
    }
}

} // verus!
