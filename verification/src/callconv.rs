//! The System V argument-passing convention: the first six integer or
//! pointer arguments travel in RDI, RSI, RDX, RCX, R8, R9, the first eight
//! floating-point arguments in XMM0 through XMM7, and everything beyond
//! those limits goes to the stack, at sequentially increasing offsets from
//! RSP, with the total stack-argument area padded to a multiple of sixteen
//! bytes so that RSP stays 16-byte aligned at the call instruction.

use crate::registers::{Register, XMMRegister};
use crate::types::Kind;
use vstd::prelude::*;

verus! {

/// Where one argument travels.
#[derive(Clone, Copy, Debug, PartialEq, Eq, Structural)]
pub enum CallConvResult {
    /// In the given general-purpose register.
    GPR(Register),
    /// In the given floating-point register.
    FPR(XMMRegister),
    /// On the stack.
    Stack,
}

/// The `i`-th integer argument register.
pub open spec fn arg_gpr(i: int) -> Register {
    if i == 0 {
        Register::RDI
    } else if i == 1 {
        Register::RSI
    } else if i == 2 {
        Register::RDX
    } else if i == 3 {
        Register::RCX
    } else if i == 4 {
        Register::R8
    } else {
        Register::R9
    }
}

/// The `i`-th floating-point argument register.
pub open spec fn arg_fpr(i: int) -> XMMRegister {
    if i == 0 {
        XMMRegister::XMM0
    } else if i == 1 {
        XMMRegister::XMM1
    } else if i == 2 {
        XMMRegister::XMM2
    } else if i == 3 {
        XMMRegister::XMM3
    } else if i == 4 {
        XMMRegister::XMM4
    } else if i == 5 {
        XMMRegister::XMM5
    } else if i == 6 {
        XMMRegister::XMM6
    } else {
        XMMRegister::XMM7
    }
}

/// The `i`-th integer argument register, as executable code.
pub fn nth_arg_gpr(i: usize) -> (r: Register)
    requires
        i < 6,
    ensures
        r == arg_gpr(i as int),
{
    if i == 0 {
        Register::RDI
    } else if i == 1 {
        Register::RSI
    } else if i == 2 {
        Register::RDX
    } else if i == 3 {
        Register::RCX
    } else if i == 4 {
        Register::R8
    } else {
        Register::R9
    }
}

/// The `i`-th floating-point argument register, as executable code.
pub fn nth_arg_fpr(i: usize) -> (r: XMMRegister)
    requires
        i < 8,
    ensures
        r == arg_fpr(i as int),
{
    if i == 0 {
        XMMRegister::XMM0
    } else if i == 1 {
        XMMRegister::XMM1
    } else if i == 2 {
        XMMRegister::XMM2
    } else if i == 3 {
        XMMRegister::XMM3
    } else if i == 4 {
        XMMRegister::XMM4
    } else if i == 5 {
        XMMRegister::XMM5
    } else if i == 6 {
        XMMRegister::XMM6
    } else {
        XMMRegister::XMM7
    }
}

/// The assignment of a run of arguments, with `pc` integer and `fpc`
/// floating-point registers already consumed.
pub open spec fn spec_assign(kinds: Seq<Kind>, pc: int, fpc: int) -> Seq<CallConvResult>
    decreases kinds.len(),
{
    if kinds.len() == 0 {
        Seq::<CallConvResult>::empty()
    } else {
        let k = kinds[0];
        if k.spec_is_int() {
            if pc < 6 {
                seq![CallConvResult::GPR(arg_gpr(pc))] + spec_assign(
                    kinds.drop_first(),
                    pc + 1,
                    fpc,
                )
            } else {
                seq![CallConvResult::Stack] + spec_assign(kinds.drop_first(), pc, fpc)
            }
        } else {
            if fpc < 8 {
                seq![CallConvResult::FPR(arg_fpr(fpc))] + spec_assign(
                    kinds.drop_first(),
                    pc,
                    fpc + 1,
                )
            } else {
                seq![CallConvResult::Stack] + spec_assign(kinds.drop_first(), pc, fpc)
            }
        }
    }
}

/// The number of integer arguments among the first `i`.
pub open spec fn int_count_before(kinds: Seq<Kind>, i: int) -> int
    decreases i,
{
    if i <= 0 {
        0
    } else {
        int_count_before(kinds, i - 1) + if kinds[i - 1].spec_is_int() {
            1int
        } else {
            0int
        }
    }
}

/// The number of floating-point arguments among the first `i`.
pub open spec fn float_count_before(kinds: Seq<Kind>, i: int) -> int
    decreases i,
{
    if i <= 0 {
        0
    } else {
        float_count_before(kinds, i - 1) + if kinds[i - 1].spec_is_int() {
            0int
        } else {
            1int
        }
    }
}

/// Where the law expects argument `i` to travel: an integer argument in the
/// next integer argument register as counted over the integer arguments
/// alone (six at most), a floating-point argument in the next floating-point
/// argument register likewise (eight at most), anything beyond those limits
/// on the stack.
pub open spec fn expected_placement(kinds: Seq<Kind>, i: int, pc: int, fpc: int)
    -> CallConvResult {
    if kinds[i].spec_is_int() {
        if int_count_before(kinds, i) + pc < 6 {
            CallConvResult::GPR(arg_gpr(int_count_before(kinds, i) + pc))
        } else {
            CallConvResult::Stack
        }
    } else {
        if float_count_before(kinds, i) + fpc < 8 {
            CallConvResult::FPR(arg_fpr(float_count_before(kinds, i) + fpc))
        } else {
            CallConvResult::Stack
        }
    }
}

/// The register placement law: in the computed assignment, the `j`-th
/// integer argument (counting integer arguments only) travels in the `j`-th
/// integer argument register for `j < 6` and on the stack beyond that, and
/// the `j`-th floating-point argument travels in the `j`-th floating-point
/// argument register for `j < 8` and on the stack beyond that.
pub proof fn lemma_abi_arg_placement(kinds: Seq<Kind>, pc: int, fpc: int, i: int)
    requires
        0 <= i < kinds.len(),
        0 <= pc,
        0 <= fpc,
    ensures
        spec_assign(kinds, pc, fpc).len() == kinds.len(),
        spec_assign(kinds, pc, fpc)[i] == expected_placement(kinds, i, pc, fpc),
    decreases i,
{
    lemma_assign_len(kinds, pc, fpc);
    if i == 0 {
        assert(int_count_before(kinds, 0) == 0);
        assert(float_count_before(kinds, 0) == 0);
        assert(spec_assign(kinds, pc, fpc)[0] == expected_placement(kinds, 0, pc, fpc));
    } else {
        let rest = kinds.drop_first();
        let k = kinds[0];
        assert(rest[i - 1] == kinds[i]);
        proof_count_shift(kinds, i);
        lemma_count_lower(kinds, i);
        if k.spec_is_int() {
            if pc < 6 {
                lemma_abi_arg_placement(rest, pc + 1, fpc, i - 1);
                assert(spec_assign(kinds, pc, fpc)[i] == spec_assign(rest, pc + 1, fpc)[i - 1]);
                assert(expected_placement(rest, i - 1, pc + 1, fpc) == expected_placement(
                    kinds,
                    i,
                    pc,
                    fpc,
                ));
                assert(spec_assign(kinds, pc, fpc)[i] == expected_placement(kinds, i, pc, fpc));
            } else {
                lemma_abi_arg_placement(rest, pc, fpc, i - 1);
                assert(spec_assign(kinds, pc, fpc)[i] == spec_assign(rest, pc, fpc)[i - 1]);
                assert(expected_placement(rest, i - 1, pc, fpc) == expected_placement(
                    kinds,
                    i,
                    pc,
                    fpc,
                ));
                assert(spec_assign(kinds, pc, fpc)[i] == expected_placement(kinds, i, pc, fpc));
            }
        } else {
            if fpc < 8 {
                lemma_abi_arg_placement(rest, pc, fpc + 1, i - 1);
                assert(spec_assign(kinds, pc, fpc)[i] == spec_assign(rest, pc, fpc + 1)[i - 1]);
                assert(expected_placement(rest, i - 1, pc, fpc + 1) == expected_placement(
                    kinds,
                    i,
                    pc,
                    fpc,
                ));
                assert(spec_assign(kinds, pc, fpc)[i] == expected_placement(kinds, i, pc, fpc));
            } else {
                lemma_abi_arg_placement(rest, pc, fpc, i - 1);
                assert(spec_assign(kinds, pc, fpc)[i] == spec_assign(rest, pc, fpc)[i - 1]);
                assert(expected_placement(rest, i - 1, pc, fpc) == expected_placement(
                    kinds,
                    i,
                    pc,
                    fpc,
                ));
                assert(spec_assign(kinds, pc, fpc)[i] == expected_placement(kinds, i, pc, fpc));
            }
        }
    }
}

/// An assignment covers exactly the arguments it was given.
pub proof fn lemma_assign_len(kinds: Seq<Kind>, pc: int, fpc: int)
    ensures
        spec_assign(kinds, pc, fpc).len() == kinds.len(),
    decreases kinds.len(),
{
    if kinds.len() > 0 {
        lemma_assign_len(kinds.drop_first(), pc + 1, fpc);
        lemma_assign_len(kinds.drop_first(), pc, fpc + 1);
        lemma_assign_len(kinds.drop_first(), pc, fpc);
    }
}

/// Prefix counts never decrease and include the head's contribution.
proof fn lemma_count_lower(kinds: Seq<Kind>, i: int)
    requires
        1 <= i,
    ensures
        int_count_before(kinds, i) >= if kinds[0].spec_is_int() {
            1int
        } else {
            0int
        },
        float_count_before(kinds, i) >= if kinds[0].spec_is_int() {
            0int
        } else {
            1int
        },
    decreases i,
{
    if i == 1 {
        assert(int_count_before(kinds, 0) == 0);
        assert(float_count_before(kinds, 0) == 0);
        assert(int_count_before(kinds, 1) == if kinds[0].spec_is_int() {
            1int
        } else {
            0int
        });
        assert(float_count_before(kinds, 1) == if kinds[0].spec_is_int() {
            0int
        } else {
            1int
        });
    } else {
        lemma_count_lower(kinds, i - 1);
        assert(int_count_before(kinds, i) >= int_count_before(kinds, i - 1));
        assert(float_count_before(kinds, i) >= float_count_before(kinds, i - 1));
    }
}

/// Counting prefix arguments of a dropped-head sequence.
proof fn proof_count_shift(kinds: Seq<Kind>, i: int)
    requires
        0 < i < kinds.len(),
    ensures
        int_count_before(kinds.drop_first(), i - 1) == int_count_before(kinds, i) - if kinds[0].spec_is_int() {
            1int
        } else {
            0int
        },
        float_count_before(kinds.drop_first(), i - 1) == float_count_before(kinds, i)
            - if kinds[0].spec_is_int() {
            0int
        } else {
            1int
        },
    decreases i,
{
    let rest = kinds.drop_first();
    if i == 1 {
        assert(int_count_before(rest, 0) == 0);
        assert(int_count_before(kinds, 1) == int_count_before(kinds, 0) + if kinds[0].spec_is_int() {
            1int
        } else {
            0int
        });
        assert(float_count_before(kinds, 1) == float_count_before(kinds, 0)
            + if kinds[0].spec_is_int() {
            0int
        } else {
            1int
        });
    } else {
        proof_count_shift(kinds, i - 1);
        assert(rest[i - 2] == kinds[i - 1]);
        assert(int_count_before(rest, i - 1) == int_count_before(rest, i - 2)
            + if rest[i - 2].spec_is_int() {
            1int
        } else {
            0int
        });
        assert(int_count_before(kinds, i) == int_count_before(kinds, i - 1)
            + if kinds[i - 1].spec_is_int() {
            1int
        } else {
            0int
        });
        assert(float_count_before(rest, i - 1) == float_count_before(rest, i - 2)
            + if rest[i - 2].spec_is_int() {
            0int
        } else {
            1int
        });
        assert(float_count_before(kinds, i) == float_count_before(kinds, i - 1)
            + if kinds[i - 1].spec_is_int() {
            0int
        } else {
            1int
        });
    }
}

/// Computes the placement of each argument in source order.
pub fn compute_arguments(kinds: &Vec<Kind>) -> (r: Vec<CallConvResult>)
    ensures
        r@ == spec_assign(kinds@, 0, 0),
        r@.len() == kinds@.len(),
{
    let mut r: Vec<CallConvResult> = Vec::new();
    let mut pc: usize = 0;
    let mut fpc: usize = 0;
    let mut i: usize = 0;
    proof {
        lemma_assign_len(kinds@, 0, 0);
        assert(kinds@.skip(0) =~= kinds@);
    }
    while i < kinds.len()
        invariant
            i <= kinds@.len(),
            r@.len() == i,
            pc <= 6,
            fpc <= 8,
            spec_assign(kinds@, 0, 0) == r@ + spec_assign(kinds@.skip(i as int), pc as int,
            fpc as int),
        decreases kinds@.len() - i,
    {
        let k = kinds[i];
        proof {
            assert(kinds@.skip(i as int)[0] == kinds@[i as int]);
            assert(kinds@.skip(i as int).drop_first() =~= kinds@.skip(i + 1));
        }
        let c = if k.is_int() {
            if pc < 6 {
                let reg = nth_arg_gpr(pc);
                pc = pc + 1;
                CallConvResult::GPR(reg)
            } else {
                CallConvResult::Stack
            }
        } else {
            if fpc < 8 {
                let reg = nth_arg_fpr(fpc);
                fpc = fpc + 1;
                CallConvResult::FPR(reg)
            } else {
                CallConvResult::Stack
            }
        };
        r.push(c);
        i = i + 1;
        proof {
            assert(spec_assign(kinds@, 0, 0) == r@ + spec_assign(
                kinds@.skip(i as int),
                pc as int,
                fpc as int,
            )) by {
                assert(r@ =~= r@.subrange(0, r@.len() - 1).push(c));
                assert(old_concat_step(
                    r@.subrange(0, r@.len() - 1),
                    c,
                    spec_assign(kinds@.skip(i as int), pc as int, fpc as int),
                ));
            }
        }
    }
    proof {
        assert(kinds@.skip(kinds@.len() as int) =~= Seq::<Kind>::empty());
        assert(r@ + Seq::<CallConvResult>::empty() =~= r@);
    }
    r
}

/// Splicing one assigned element from the pending run onto the done run.
pub open spec fn old_concat_step(
    done: Seq<CallConvResult>,
    c: CallConvResult,
    rest: Seq<CallConvResult>,
) -> bool {
    done.push(c) + rest =~= done + (seq![c] + rest)
}

/// The padded size of the stack-argument area and the offset of each stack
/// argument from RSP: arguments are laid out in order at their natural
/// alignment, and the total is padded to a multiple of sixteen so that RSP
/// is 16-byte aligned immediately before the call.
pub fn compute_stack_locations(sizes: &Vec<u32>) -> (r: (u32, Vec<u32>))
    requires
        sizes@.len() <= 1000,
        forall|i: int| 0 <= i < sizes@.len() ==> (#[trigger] sizes@[i]) == 4 || sizes@[i] == 8,
    ensures
        r.0 % 16 == 0,
        r.1@.len() == sizes@.len(),
        forall|i: int|
            0 <= i < r.1@.len() ==> #[trigger] r.1@[i] + sizes@[i] <= r.0,
        forall|i: int, j: int|
            0 <= i < j < r.1@.len() ==> #[trigger] r.1@[i] + sizes@[i] <= #[trigger] r.1@[j],
{
    let mut offsets: Vec<u32> = Vec::new();
    let mut cur: u32 = 0;
    let mut i: usize = 0;
    while i < sizes.len()
        invariant
            i <= sizes@.len(),
            sizes@.len() <= 1000,
            offsets@.len() == i,
            cur <= 8000,
            i <= 1000,
            forall|k: int| 0 <= k < sizes@.len() ==> (#[trigger] sizes@[k]) == 4 || sizes@[k]
                == 8,
            cur % 4 == 0,
            forall|k: int| 0 <= k < i ==> #[trigger] offsets@[k] + sizes@[k] <= cur,
            forall|k: int, j: int|
                0 <= k < j < i ==> #[trigger] offsets@[k] + sizes@[k] <= #[trigger] offsets@[j],
            cur <= 8 * i,
        decreases sizes@.len() - i,
    {
        let sz = sizes[i];
        // Natural alignment within the area.
        let aligned = if cur % sz == 0 {
            cur
        } else {
            cur + (sz - cur % sz)
        };
        offsets.push(aligned);
        cur = aligned + sz;
        i = i + 1;
    }
    let padded = if cur % 16 == 0 {
        cur
    } else {
        cur + (16 - cur % 16)
    };
    (padded, offsets)
}

} // verus!
