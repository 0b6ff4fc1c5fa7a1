//! The relay board that powers the drive: four coils switched together by
//! fixed Modbus "write single coil" frames, checksum included.

use vstd::prelude::*;

verus! {

/// The frame that switches coil `coil` on or off.
pub open spec fn coil_frame(coil: u8, on: bool) -> Seq<u8> {
    let (lo, hi): (u8, u8) = if on {
        if coil == 0 {
            (0x8c, 0x3a)
        } else if coil == 1 {
            (0xdd, 0xfa)
        } else if coil == 2 {
            (0x2d, 0xfa)
        } else {
            (0x7c, 0x3a)
        }
    } else {
        if coil == 0 {
            (0xcd, 0xca)
        } else if coil == 1 {
            (0x9c, 0x0a)
        } else if coil == 2 {
            (0x6c, 0x0a)
        } else {
            (0x3d, 0xca)
        }
    };
    seq![0x01u8, 0x05u8, 0x00u8, coil, if on { 0xffu8 } else { 0x00u8 }, 0x00u8, lo, hi]
}

fn coil_frame_exec(coil: u8, on: bool) -> (r: Vec<u8>)
    requires
        coil < 4,
    ensures
        r@ == coil_frame(coil, on),
{
    let (lo, hi): (u8, u8) = if on {
        if coil == 0 {
            (0x8c, 0x3a)
        } else if coil == 1 {
            (0xdd, 0xfa)
        } else if coil == 2 {
            (0x2d, 0xfa)
        } else {
            (0x7c, 0x3a)
        }
    } else {
        if coil == 0 {
            (0xcd, 0xca)
        } else if coil == 1 {
            (0x9c, 0x0a)
        } else if coil == 2 {
            (0x6c, 0x0a)
        } else {
            (0x3d, 0xca)
        }
    };
    let mut r: Vec<u8> = Vec::new();
    r.push(0x01u8);
    r.push(0x05u8);
    r.push(0x00u8);
    r.push(coil);
    r.push(if on { 0xffu8 } else { 0x00u8 });
    r.push(0x00u8);
    r.push(lo);
    r.push(hi);
    assert(r@ =~= coil_frame(coil, on));
    r
}

/// The frames, coil 0 to coil 3, that switch the drive's power on or off.
pub fn relay_commands(on: bool) -> (r: Vec<Vec<u8>>)
    ensures
        r@.len() == 4,
        forall|i: int| 0 <= i < 4 ==> #[trigger] r@[i]@ == coil_frame(i as u8, on),
{
    let mut r: Vec<Vec<u8>> = Vec::new();
    let mut coil: u8 = 0;
    while coil < 4
        invariant
            coil <= 4,
            r@.len() == coil,
            forall|i: int| 0 <= i < coil ==> #[trigger] r@[i]@ == coil_frame(i as u8, on),
        decreases 4 - coil,
    {
        r.push(coil_frame_exec(coil, on));
        coil += 1;
    }
    r
}

} // verus!
