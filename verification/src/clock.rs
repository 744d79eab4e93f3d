//! The epoch clock: a monotonic instant captured once at logger construction,
//! against which every record's elapsed-time prefix is computed.
//!
//! The instant itself comes from the `web_time` crate (a drop-in for
//! `std::time` that also works on the web), so reading it is trusted: the
//! value depends on the moment of the call, and nothing is assumed of it.
//! Everything downstream takes the whole-second count as an argument and is
//! verified for every value of it.

use vstd::prelude::*;

verus! {

/// `web_time::Instant`: an opaque monotonic instant.
#[verifier::external_type_specification]
#[verifier::external_body]
pub struct ExInstant(web_time::Instant);

/// Relies on `web_time::Instant::now`: a reading of the monotonic clock. The
/// value depends on the moment of the call, so nothing is assumed of it.
#[verifier::external_body]
pub(crate) fn instant_now() -> web_time::Instant {
    web_time::Instant::now()
}

/// Relies on `web_time::Instant::elapsed` and `Duration::as_secs`: the whole
/// seconds since `epoch`. The value depends on the moment of the call, so
/// nothing is assumed of it.
#[verifier::external_body]
pub(crate) fn elapsed_whole_secs(epoch: &web_time::Instant) -> u64 {
    epoch.elapsed().as_secs()
}

} // verus!
