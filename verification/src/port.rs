//! The host port on which a container is published.
//!
//! There is one policy for every container: its port is drawn at random from
//! a fixed range. The port is part of the creation request and of the address
//! returned to the caller, so the two always agree. Two live containers
//! cannot hold one host port: the runtime refuses to start the second, and
//! the caller sees that as a failed provision.

use blueprint_std::Rng;
use vstd::prelude::*;

verus! {

/// Lowest host port that is handed out.
pub const PUBLISHED_PORT_MIN: u16 = 10000;

/// One past the highest host port that is handed out.
pub const PUBLISHED_PORT_END: u16 = 20000;

/// Whether `port` lies in the range from which host ports are drawn.
pub open spec fn is_published_port(port: u16) -> bool {
    PUBLISHED_PORT_MIN <= port < PUBLISHED_PORT_END
}

/// Calls `Rng::gen_range` of the rand crate, as `blueprint_std` hands it on,
/// on the operating system's generator `OsRng` with the half-open range
/// `low..high`. Trusted: the value lies in that range. The range must not be
/// empty, or the call panics. The generator itself panics in the rare case
/// that the operating system's source of randomness fails; no argument
/// decides that.
#[verifier::external_body]
fn sample_in_range(low: u16, high: u16) -> (value: u16)
    requires
        low < high,
    ensures
        low <= value < high,
{
    let mut rng = blueprint_std::rand::rngs::OsRng;
    rng.gen_range(low..high)
}

/// A host port for a new container, drawn at random. Two calls may differ.
///
/// # Panics
///
/// Panics in the rare case that the operating system's source of randomness
/// fails. No argument decides that.
pub fn sample_port() -> (port: u16)
    ensures
        is_published_port(port),
{
    sample_in_range(PUBLISHED_PORT_MIN, PUBLISHED_PORT_END)
}

} // verus!
