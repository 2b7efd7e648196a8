//! The library's cross-cutting laws, stated and proved over the spec
//! functions that the individual contracts use: the forward/backward jump
//! displacement equivalence, the RIP-relative data-segment round trip, and
//! the partition of the register pool into used and free halves.

use crate::function::{allocatable_fprs, allocatable_gprs, fpr_of_slot, gpr_of_slot, Function};
use crate::registers::{Register, XMMRegister};
use crate::sink::label_disp_bytes;
use crate::util::{le32_of, u32_of_i32};
use vstd::prelude::*;

verus! {

/// The signed reading of a 32-bit displacement word.
pub open spec fn signed_of_u32(u: u32) -> int {
    if u < 0x8000_0000 {
        u as int
    } else {
        u - 0x1_0000_0000
    }
}

/// Forward/backward jump equivalence, first half: a jump emitted toward an
/// already-bound label writes exactly the bytes that `fix_forward_jumps`
/// writes into a recorded slot at the same position for the same target.
pub proof fn lemma_forward_backward_equal(labels: Seq<Option<usize>>, lbl: int, at: int)
    requires
        0 <= lbl < labels.len(),
        labels[lbl] is Some,
    ensures
        label_disp_bytes(labels, at, lbl) == le32_of(
            u32_of_i32(labels[lbl].unwrap() - (at + 4)),
        ),
{
}

/// Forward/backward jump equivalence, second half: the displacement word
/// written for a jump whose slot begins at `at` reaches the target exactly:
/// reading the word back as a signed number and adding it to the address
/// after the displacement gives the target.
pub proof fn lemma_jump_displacement(target: int, at: int)
    requires
        -0x8000_0000 <= target - (at + 4) < 0x8000_0000,
    ensures
        target == at + 4 + signed_of_u32(u32_of_i32(target - (at + 4))),
{
}

/// The RIP-relative data-segment round trip: a load placed at code offset
/// `pos` in a function whose data segment has `size` bytes and whose block
/// starts at `base` has its displacement field followed by the address
/// `base + size + pos + 8`; with the displacement `-(disp + pos + 8)` that
/// the builder chooses for a constant pooled at displacement `disp`, the
/// load reads `base + (size - disp)` — exactly where the finished image
/// holds the constant's bytes.
pub proof fn lemma_rip_relative_round_trip(base: int, size: int, disp: int, pos: int)
    ensures
        (base + size + pos + 8) + (0 - (disp + pos + 8)) == base + (size - disp),
{
}

/// Register disjointness: at every point, the used and free halves of the
/// allocatable register pool are disjoint, and together they are exactly
/// the allocatable set — for the general-purpose pool and the
/// floating-point pool alike.
pub proof fn lemma_register_partition(f: Function)
    requires
        f.wf(),
    ensures
        f.used_gprs().intersect(f.free_gprs()) =~= Set::<Register>::empty(),
        f.used_gprs().union(f.free_gprs()) =~= allocatable_gprs(),
        f.used_fprs().intersect(f.free_fprs()) =~= Set::<XMMRegister>::empty(),
        f.used_fprs().union(f.free_fprs()) =~= allocatable_fprs(),
{
    assert forall|r: Register| !(f.used_gprs().intersect(f.free_gprs()).contains(r)) by {
        if f.used_gprs().contains(r) && f.free_gprs().contains(r) {
            let i = choose|i: int|
                0 <= i < 4 && gpr_of_slot(i) == r && f.gpr_slots@[i];
            let j = choose|j: int|
                0 <= j < 4 && gpr_of_slot(j) == r && !f.gpr_slots@[j];
            assert(i == j);
        }
    }
    assert forall|r: Register|
        f.used_gprs().union(f.free_gprs()).contains(r) == allocatable_gprs().contains(r) by {
        if allocatable_gprs().contains(r) {
            let i = choose|i: int| 0 <= i < 4 && gpr_of_slot(i) == r;
            if f.gpr_slots@[i] {
                assert(f.used_gprs().contains(r));
            } else {
                assert(f.free_gprs().contains(r));
            }
        }
    }
    assert forall|x: XMMRegister| !(f.used_fprs().intersect(f.free_fprs()).contains(x)) by {
        if f.used_fprs().contains(x) && f.free_fprs().contains(x) {
            let i = choose|i: int|
                0 <= i < 4 && fpr_of_slot(i) == x && f.fpr_slots@[i];
            let j = choose|j: int|
                0 <= j < 4 && fpr_of_slot(j) == x && !f.fpr_slots@[j];
            assert(i == j);
        }
    }
    assert forall|x: XMMRegister|
        f.used_fprs().union(f.free_fprs()).contains(x) == allocatable_fprs().contains(x) by {
        if allocatable_fprs().contains(x) {
            let i = choose|i: int| 0 <= i < 4 && fpr_of_slot(i) == x;
            if f.fpr_slots@[i] {
                assert(f.used_fprs().contains(x));
            } else {
                assert(f.free_fprs().contains(x));
            }
        }
    }
}

} // verus!
