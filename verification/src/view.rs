//! The camera's bloom switch.
//!
//! The pause menu's "Bloom" button asks for bloom to be switched. A frame in
//! which such a request is read flips the cameras' HDR, and with it bloom.
use vstd::prelude::*;

verus! {

/// Whether HDR is on after a frame that began with `hdr`, given whether a
/// bloom request was read in it.
pub open spec fn hdr_after(hdr: bool, requested: bool) -> bool {
    if requested { !hdr } else { hdr }
}

/// A camera's HDR flag after a frame, given whether a bloom request was read.
pub fn next_hdr(hdr: bool, requested: bool) -> (now_on: bool)
    ensures
        now_on == hdr_after(hdr, requested),
        now_on == (hdr != requested),
{
    if requested {
        !hdr
    } else {
        hdr
    }
}

/// Two frames that each read a bloom request leave HDR as it was.
pub proof fn bloom_round_trip(hdr: bool)
    ensures
        hdr_after(hdr_after(hdr, true), true) == hdr,
        hdr_after(hdr, false) == hdr,
{
}

} // verus!
