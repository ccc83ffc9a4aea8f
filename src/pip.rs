use vstd::prelude::*;

verus! {

/// The overlay's width is a multiple of this many pixels.
pub const PIP_ALIGN: u64 = 16;

/// Smallest overlay size; like every overlay size it keeps a 16:9 ratio.
pub const PIP_MIN_WIDTH: u64 = 320;
pub const PIP_MIN_HEIGHT: u64 = 180;

/// The requested width rounded to the nearest multiple of the alignment
/// (halves round up).
pub open spec fn snapped_width(requested: nat) -> nat {
    ((requested + PIP_ALIGN / 2) / (PIP_ALIGN as int) * PIP_ALIGN) as nat
}

pub open spec fn max_nat(a: nat, b: nat) -> nat {
    if a >= b { a } else { b }
}

/// The overlay size that a resize to `requested` pixels of width settles on:
/// the width is snapped, the height follows from 16:9, and each side is raised
/// to its minimum.
pub open spec fn pip_size_for(requested: nat) -> (nat, nat) {
    let w = snapped_width(requested);
    let h = (w * 9 / 16) as nat;
    (max_nat(w, PIP_MIN_WIDTH as nat), max_nat(h, PIP_MIN_HEIGHT as nat))
}

/// Snaps a requested overlay width to the size the overlay is reconfigured to.
pub fn snap_pip_size(requested_width: u32) -> (r: (u64, u64))
    ensures
        (r.0 as nat, r.1 as nat) == pip_size_for(requested_width as nat),
{
    let w: u64 = (requested_width as u64 + PIP_ALIGN / 2) / PIP_ALIGN * PIP_ALIGN;
    let h: u64 = w * 9 / 16;
    let width: u64 = if w >= PIP_MIN_WIDTH { w } else { PIP_MIN_WIDTH };
    let height: u64 = if h >= PIP_MIN_HEIGHT { h } else { PIP_MIN_HEIGHT };
    (width, height)
}

} // verus!
