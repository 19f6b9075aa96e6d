//! Keepalive policy: the liveness beacon and when a client sends it.
use vstd::prelude::*;

verus! {

/// Time between two beacons, in milliseconds.
pub const KEEPALIVE_INTERVAL_MS: u64 = 60_000;

/// The beacon: four fixed bytes, sent without a frame tag.
pub open spec fn beacon_bytes() -> Seq<u8> {
    seq![0xF0u8, 0x73u8, 0x02u8, 0xF7u8]
}

/// The beacon, as bytes to send.
pub fn keepalive_beacon() -> (r: Vec<u8>)
    ensures
        r@ == beacon_bytes(),
{
    let r: Vec<u8> = vec![0xF0u8, 0x73u8, 0x02u8, 0xF7u8];
    assert(r@ =~= beacon_bytes());
    r
}

/// The deadline after a beacon sent at `now` for the deadline `due`: the
/// first point of the grid `due + k * interval` that lies after `now`. The
/// schedule keeps to its grid, and a late timer sends one beacon only.
pub open spec fn next_deadline(due: int, now: int, interval: int) -> int {
    if now < due {
        due
    } else {
        due + ((now - due) / interval + 1) * interval
    }
}

/// Computes `next_deadline`.
pub fn advance_deadline(due: u64, now: u64, interval: u64) -> (r: u64)
    requires
        interval > 0,
        now <= u64::MAX - interval,
    ensures
        r == next_deadline(due as int, now as int, interval as int),
{
    if now < due {
        return due;
    }
    let k: u64 = (now - due) / interval;
    proof {
        lemma_grid_step(due as int, now as int, interval as int);
    }
    due + k * interval + interval
}

/// The grid point after `now` lies within one interval after it.
pub proof fn lemma_grid_step(due: int, now: int, interval: int)
    requires
        interval > 0,
        0 <= due <= now,
    ensures
        now < next_deadline(due, now, interval) <= now + interval,
        (next_deadline(due, now, interval) - due) % interval == 0,
        next_deadline(due, now, interval) - due == ((now - due) / interval) * interval + interval,
{
    let x = now - due;
    let k = x / interval;
    assert(k * interval <= x && x < k * interval + interval) by (nonlinear_arith)
        requires
            k == x / interval,
            interval > 0,
            x >= 0,
    ;
    assert((k + 1) * interval == k * interval + interval) by (nonlinear_arith);
    vstd::arithmetic::div_mod::lemma_mod_multiples_basic(k + 1, interval);
}

} // verus!
