//! A nanosecond-resolution timestamp used to diversify the entropy seed
//! across rapid successive key generations on the same host.

use vstd::prelude::*;

verus! {

/// Reads the wall clock as whole seconds and a nanosecond remainder since
/// the Unix epoch. Relies on `std::time::SystemTime::now` together with
/// `duration_since(UNIX_EPOCH)`: the remainder returned by
/// `Duration::subsec_nanos` is documented to be below one billion. Returns
/// `None` when the clock reads earlier than the epoch.
#[verifier::external_body]
fn unix_clock_reading() -> (r: Option<(u64, u32)>)
    ensures
        match r {
            Some(p) => p.1 < 1_000_000_000,
            None => true,
        },
{
    match std::time::SystemTime::now().duration_since(std::time::UNIX_EPOCH) {
        Ok(d) => Some((d.as_secs(), d.subsec_nanos())),
        Err(_) => None,
    }
}

/// Packs a clock reading into one 64-bit word: the seconds shifted left by
/// 30 bits, or-ed with the nanosecond remainder. The remainder fits in the
/// low 30 bits, so two readings taken within the same second still differ.
pub fn mix_timestamp(secs: u64, nanos: u32) -> (r: u64)
    requires
        nanos < 1_000_000_000,
    ensures
        r == (secs << 30u64) | (nanos as u64),
        r & 0x3FFF_FFFF == nanos,
{
    let wide_nanos: u64 = nanos as u64;
    proof {
        assert(((secs << 30u64) | wide_nanos) & 0x3FFF_FFFF == wide_nanos)
            by (bit_vector)
            requires
                wide_nanos < 0x4000_0000,
        ;
    }
    (secs << 30u64) | wide_nanos
}

/// A 64-bit timestamp with nanosecond resolution, or zero if the host clock
/// reads earlier than the Unix epoch. Used as a seed perturbation, so no
/// particular value is promised: only that the packing is `mix_timestamp`'s.
pub fn get_nstime() -> (r: u64) {
    match unix_clock_reading() {
        Some((secs, nanos)) => mix_timestamp(secs, nanos),
        None => 0,
    }
}

} // verus!
