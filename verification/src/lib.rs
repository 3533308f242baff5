//! Core logic of a BLE GATT peripheral for a sensor-and-display device.
//!
//! The crate models the pieces of the peripheral that carry real protocol
//! logic: deriving the device address from a configured string, encoding
//! advertising and scan-response payloads, the service/characteristic table
//! with its fixed schema, the per-connection event dispatch state machine,
//! the latest-value sensor signal, and the connection supervisor that bounds
//! how many centrals may be connected at once. Radio I/O, task spawning and
//! hardware bring-up live outside this crate and drive these functions.

pub mod addr;
pub mod adv;
pub mod display;
pub mod events;
pub mod gatt;
pub mod signal;
pub mod supervisor;

use vstd::prelude::*;

verus! {

/// A fresh copy of a byte vector.
pub fn copy_bytes(v: &Vec<u8>) -> (r: Vec<u8>)
    ensures
        r@ == v@,
{
    let mut r: Vec<u8> = Vec::new();
    let mut i: usize = 0;
    while i < v.len()
        invariant
            i <= v@.len(),
            r@ == v@.take(i as int),
        decreases v@.len() - i,
    {
        r.push(v[i]);
        i = i + 1;
    }
    proof {
        assert(v@.take(v@.len() as int) =~= v@);
    }
    r
}

} // verus!
