//! The builder's value-producing operations: a small typed IR lowered
//! immediately to machine code. An operation that produces a value
//! allocates a location through the register pool; an operand it consumes
//! is killed, returning its register to the pool. Every operation's
//! contract names the exact bytes it appends, as a function of the
//! operands' recorded locations.

use crate::emit::{
    enc_sse_ff, load_mem_bytes, low32_of_i64, modrm_byte, rex_byte, rex_opt, store_mem_bytes,
    Membase,
};
use crate::function::{fresh_value, Function, ValueData, FRAME_LIMIT};
use crate::lower::setb_bytes;
use crate::registers::{Reg, Register};
use crate::sink::CODE_LIMIT;
use crate::types::{CondCode, Kind, MachineMode};
use crate::util::{
    le32_of, le64_of, lemma_concat2, lemma_concat3, lemma_concat4, u64_of_i64,
};
use crate::Value;
use vstd::prelude::*;

verus! {

/// The bytes that load a value from its recorded location into the given
/// register: a register-to-register move, a scalar SSE move, or a frame
/// load; nothing for a location/register class mismatch, which no live
/// value produced by this builder has.
pub open spec fn load_value_bytes(loc: ValueData, kind: Kind, reg: Reg) -> Seq<u8> {
    match (loc, reg) {
        (ValueData::Gpr(g), Reg::Gpr(t)) => if g != Register::RIP && kind.spec_is_int() {
            rex_opt(
                kind.spec_x64() != 0 || g.spec_msb() != 0 || t.spec_msb() != 0,
                kind.spec_x64(),
                g.spec_msb(),
                0,
                t.spec_msb(),
            ) + seq![0x89u8, modrm_byte(3, g.spec_and7(), t.spec_and7())]
        } else {
            Seq::<u8>::empty()
        },
        (ValueData::Fpr(f), Reg::Float(t)) => enc_sse_ff(
            kind.spec_to_machine() != MachineMode::Float32,
            0x10,
            t,
            f,
        ),
        (ValueData::Stack(off), _) => load_mem_bytes(
            kind.spec_to_machine(),
            reg,
            Membase::Local(off),
        ),
        _ => Seq::<u8>::empty(),
    }
}

/// The bytes that move a result out of a scratch register into its
/// allocated location: a register move, or a store into the frame slot.
pub open spec fn move_gpr_bytes(src: Register, loc: ValueData, kind: Kind) -> Seq<u8> {
    match loc {
        ValueData::Gpr(g) => rex_opt(
            kind.spec_x64() != 0 || src.spec_msb() != 0 || g.spec_msb() != 0,
            kind.spec_x64(),
            src.spec_msb(),
            0,
            g.spec_msb(),
        ) + seq![0x89u8, modrm_byte(3, src.spec_and7(), g.spec_and7())],
        ValueData::Stack(off) => store_mem_bytes(
            kind.spec_to_machine(),
            Membase::Local(off),
            Reg::Gpr(src),
        ),
        ValueData::Fpr(_) => Seq::<u8>::empty(),
    }
}

/// The bytes of `load_int`: `mov r32, imm32` for the narrow widths (the
/// immediate truncated to 32 bits), `movabs` for the 64-bit widths.
pub open spec fn load_int_bytes(mode: MachineMode, dest: Register, imm: i64) -> Seq<u8> {
    if mode == MachineMode::Int8 || mode == MachineMode::Int32 {
        rex_opt(dest.spec_msb() != 0, 0, 0, 0, 1) + seq![(0xb8 + dest.spec_and7()) as u8]
            + le32_of(low32_of_i64(imm))
    } else {
        seq![rex_byte(1, 0, 0, dest.spec_msb()), (0xb8 + dest.spec_and7()) as u8] + le64_of(
            u64_of_i64(imm as int),
        )
    }
}

/// The bytes that materialize an integer constant into a location: the
/// `xor r, r` form for a zero that lands in a register, a width-matched
/// move otherwise; a frame slot is filled through the scratch register.
pub open spec fn set_int_loc_bytes(loc: ValueData, ty: Kind, imm: i64) -> Seq<u8> {
    match loc {
        ValueData::Gpr(g) => if imm == 0 {
            rex_opt(
                true,
                1,
                g.spec_msb(),
                0,
                g.spec_msb(),
            ) + seq![0x31u8, modrm_byte(3, g.spec_and7(), g.spec_and7())]
        } else {
            load_int_bytes(ty.spec_to_machine(), g, imm)
        },
        ValueData::Stack(off) => load_int_bytes(ty.spec_to_machine(), Register::R10, imm)
            + store_mem_bytes(
            ty.spec_to_machine(),
            Membase::Local(off),
            Reg::Gpr(Register::R10),
        ),
        ValueData::Fpr(_) => Seq::<u8>::empty(),
    }
}

/// The bytes of `add R11, R10` at the given width.
pub open spec fn iadd_op_bytes(x64: u8) -> Seq<u8> {
    rex_opt(
        x64 != 0 || Register::R10.spec_msb() != 0 || Register::R11.spec_msb() != 0,
        x64,
        Register::R10.spec_msb(),
        0,
        Register::R11.spec_msb(),
    ) + seq![0x01u8, modrm_byte(3, Register::R10.spec_and7(), Register::R11.spec_and7())]
}

/// The bytes of `sub R10, R11` at the given width: the first operand,
/// held in R10, minus the second.
pub open spec fn isub_op_bytes(x64: u8) -> Seq<u8> {
    rex_opt(
        x64 != 0 || Register::R11.spec_msb() != 0 || Register::R10.spec_msb() != 0,
        x64,
        Register::R11.spec_msb(),
        0,
        Register::R10.spec_msb(),
    ) + seq![0x29u8, modrm_byte(3, Register::R11.spec_and7(), Register::R10.spec_and7())]
}

/// The bytes of `imul R11, R10` at the given width.
pub open spec fn imul_op_bytes(x64: u8) -> Seq<u8> {
    rex_opt(
        Register::R10.spec_msb() != 0 || Register::R11.spec_msb() != 0 || x64 != 0,
        x64,
        Register::R11.spec_msb(),
        0,
        Register::R10.spec_msb(),
    ) + seq![
        0x0fu8,
        0xafu8,
        modrm_byte(3, Register::R11.spec_and7(), Register::R10.spec_and7()),
    ]
}

/// The bytes of the division sequence: the dividend moved from R10 into
/// RAX, sign extension into RDX via `cdq` / `cqo`, then `idiv R11`.
pub open spec fn div_seq_bytes(x64: u8) -> Seq<u8> {
    rex_opt(
        x64 != 0 || Register::R10.spec_msb() != 0 || Register::RAX.spec_msb() != 0,
        x64,
        Register::R10.spec_msb(),
        0,
        Register::RAX.spec_msb(),
    ) + seq![0x89u8, modrm_byte(3, Register::R10.spec_and7(), Register::RAX.spec_and7())] + (
    if x64 != 0 {
        seq![0x48u8, 0x99u8]
    } else {
        seq![0x99u8]
    }) + (rex_opt(
        Register::R11.spec_msb() != 0 || x64 != 0,
        x64,
        0,
        0,
        Register::R11.spec_msb(),
    ) + seq![0xf7u8, modrm_byte(3, 7, Register::R11.spec_and7())])
}

/// The bytes of the compare sequence: `cmp R10, R11` (flags from the first
/// operand minus the second), then `setcc AL` and its zero extension.
pub open spec fn cmp_seq_bytes(x64: u8, cc: CondCode) -> Seq<u8> {
    rex_opt(
        x64 != 0 || Register::R11.spec_msb() != 0 || Register::R10.spec_msb() != 0,
        x64,
        Register::R11.spec_msb(),
        0,
        Register::R10.spec_msb(),
    ) + seq![0x39u8, modrm_byte(3, Register::R11.spec_and7(), Register::R10.spec_and7())] + (
    setb_bytes(cc, Register::RAX) + (rex_opt(
        Register::RAX.spec_msb() != 0 || Register::RAX.value() >= 4,
        0,
        Register::RAX.spec_msb(),
        0,
        Register::RAX.spec_msb(),
    ) + seq![
        0x0fu8,
        0xb6u8,
        modrm_byte(3, Register::RAX.spec_and7(), Register::RAX.spec_and7()),
    ]))
}

/// The effects shared by every two-operand operation: both operands are
/// consumed, a fresh result of the given kind is live, and everything else
/// in the tables is untouched.
pub open spec fn binop_effect(
    pre: Function,
    post: Function,
    x: Value,
    y: Value,
    v: Value,
    k: Kind,
) -> bool {
    &&& v.0 == pre.values@.len()
    &&& post.values@.len() == pre.values@.len() + 1
    &&& post.alive(v.0 as int)
    &&& post.val_kind(v.0 as int) == k
    &&& !post.alive(x.0 as int)
    &&& !post.alive(y.0 as int)
    &&& forall|w: int|
        0 <= w < pre.values@.len() && w != x.0 && w != y.0 ==> post.values@[w]
            == pre.values@[w]
    &&& post.variables@ == pre.variables@
    &&& post.fixups@ == pre.fixups@
    &&& Function::code_extended(pre, post)
}

/// The appended code of a two-operand integer operation: both operands
/// loaded into the scratch pair, the operation's own bytes, and the result
/// moved from `src` into its allocated location.
pub open spec fn binop_bytes(
    pre: Function,
    post: Function,
    x: Value,
    y: Value,
    v: Value,
    op: Seq<u8>,
    src: Register,
) -> Seq<u8> {
    load_value_bytes(
        pre.val_loc(x.0 as int),
        pre.val_kind(x.0 as int),
        Reg::Gpr(Register::R10),
    ) + load_value_bytes(
        pre.val_loc(y.0 as int),
        pre.val_kind(y.0 as int),
        Reg::Gpr(Register::R11),
    ) + op + move_gpr_bytes(src, post.val_loc(v.0 as int), post.val_kind(v.0 as int))
}

/// The preconditions shared by every two-operand integer operation.
pub open spec fn binop_pre(f: Function, x: Value, y: Value) -> bool {
    &&& f.wf()
    &&& f.alive(x.0 as int)
    &&& f.alive(y.0 as int)
    &&& x.0 != y.0
    &&& f.sink.data@.len() + 160 <= CODE_LIMIT
    &&& f.localsize + 16 <= FRAME_LIMIT
    &&& f.values@.len() < 0xffff_ffff
}

impl Function {
    /// Loads a live value into the given register: a move from its current
    /// register, or a load from its frame slot.
    #[verifier::spinoff_prover]
    #[verifier::rlimit(100)]
    pub(crate) fn load_value(&mut self, v: Value, reg: Reg)
        requires
            old(self).wf(),
            old(self).alive(v.0 as int),
            old(self).val_kind(v.0 as int).spec_is_int() <==> reg is Gpr,
            reg is Gpr ==> reg->Gpr_0 != Register::RIP,
            old(self).sink.data@.len() + 16 <= CODE_LIMIT,
        ensures
            final(self).wf(),
            Self::code_extended(*old(self), *final(self)),
            Self::tables_unchanged(*old(self), *final(self)),
            final(self).sink.data@.len() <= old(self).sink.data@.len() + 16,
            final(self).sink.data@ == old(self).sink.data@ + load_value_bytes(
                old(self).val_loc(v.0 as int),
                old(self).val_kind(v.0 as int),
                reg,
            ),
    {
        proof {
            crate::sink::lemma_append_keeps_wf(old(self).sink);
        }
        let (loc, kind) = self.get_value_data(v);
        let mode = kind.to_machine();
        match (loc, reg) {
            (ValueData::Gpr(g), Reg::Gpr(t)) => {
                if g != Register::RIP && kind.is_int() {
                    self.sink.emit_mov_reg_reg(kind.x64(), g, t);
                } else {
                    proof {
                        assert(self.sink.data@ =~= old(self).sink.data@
                            + Seq::<u8>::empty());
                    }
                }
            },
            (ValueData::Fpr(f), Reg::Float(t)) => {
                if mode == MachineMode::Float32 {
                    self.sink.movss(t, f);
                } else {
                    self.sink.movsd(t, f);
                }
            },
            (ValueData::Stack(off), _) => {
                self.sink.load_mem(mode, reg, Membase::Local(off));
            },
            _ => {
                proof {
                    assert(self.sink.data@ =~= old(self).sink.data@ + Seq::<u8>::empty());
                }
            },
        }
    }

    /// Moves an integer result out of a scratch register into the location
    /// allocated for it.
    #[verifier::spinoff_prover]
    #[verifier::rlimit(100)]
    pub(crate) fn move_gpr_result(&mut self, src: Register, loc: ValueData, kind: Kind)
        requires
            old(self).wf(),
            old(self).sink.data@.len() + 16 <= CODE_LIMIT,
            kind.spec_is_int(),
            !(loc is Fpr),
            loc is Gpr ==> loc->Gpr_0 != Register::RIP,
            src != Register::RIP,
        ensures
            final(self).wf(),
            Self::code_extended(*old(self), *final(self)),
            Self::tables_unchanged(*old(self), *final(self)),
            final(self).sink.data@.len() <= old(self).sink.data@.len() + 16,
            final(self).sink.data@ == old(self).sink.data@ + move_gpr_bytes(src, loc, kind),
    {
        proof {
            crate::sink::lemma_append_keeps_wf(old(self).sink);
        }
        match loc {
            ValueData::Gpr(g) => {
                self.sink.emit_mov_reg_reg(kind.x64(), src, g);
            },
            ValueData::Stack(off) => {
                self.sink.store_mem(kind.to_machine(), Membase::Local(off), Reg::Gpr(src));
            },
            ValueData::Fpr(_) => unreached(),
        }
    }

    /// Materializes an integer constant into a location.
    #[verifier::spinoff_prover]
    #[verifier::rlimit(100)]
    pub(crate) fn set_int_loc(&mut self, loc: ValueData, ty: Kind, imm: i64)
        requires
            old(self).wf(),
            ty.spec_is_int(),
            !(loc is Fpr),
            loc is Gpr ==> loc->Gpr_0 != Register::RIP,
            old(self).sink.data@.len() + 48 <= CODE_LIMIT,
        ensures
            final(self).wf(),
            Self::code_extended(*old(self), *final(self)),
            Self::tables_unchanged(*old(self), *final(self)),
            final(self).sink.data@ == old(self).sink.data@ + set_int_loc_bytes(loc, ty, imm),
    {
        proof {
            crate::sink::lemma_append_keeps_wf(old(self).sink);
        }
        match loc {
            ValueData::Gpr(g) => {
                if imm == 0 {
                    self.sink.emit_xor_reg_reg(1, g, g);
                } else {
                    self.sink.load_int(ty.to_machine(), g, imm);
                }
            },
            ValueData::Stack(off) => {
                self.sink.load_int(ty.to_machine(), Register::R10, imm);
                let ghost mid2 = self.sink;
                proof {
                    crate::sink::lemma_append_keeps_wf(mid2);
                }
                self.sink.store_mem(
                    ty.to_machine(),
                    Membase::Local(off),
                    Reg::Gpr(Register::R10),
                );
                proof {
                    lemma_concat2(
                        old(self).sink.data@,
                        load_int_bytes(ty.spec_to_machine(), Register::R10, imm),
                        store_mem_bytes(
                            ty.spec_to_machine(),
                            Membase::Local(off),
                            Reg::Gpr(Register::R10),
                        ),
                    );
                }
            },
            ValueData::Fpr(_) => unreached(),
        }
    }

    /// Materializes an integer constant into a fresh value: `xor r, r` for
    /// a zero that lands in a register, a width-matched move otherwise.
    #[verifier::spinoff_prover]
    #[verifier::rlimit(100)]
    pub fn iconst(&mut self, ty: Kind, imm: i64) -> (v: Value)
        requires
            old(self).wf(),
            ty.spec_is_int(),
            old(self).sink.data@.len() + 64 <= CODE_LIMIT,
            old(self).localsize + 16 <= FRAME_LIMIT,
            old(self).values@.len() < 0xffff_ffff,
        ensures
            final(self).wf(),
            fresh_value(*old(self), *final(self), v, ty),
            Self::code_extended(*old(self), *final(self)),
            final(self).sink.data@ == old(self).sink.data@ + set_int_loc_bytes(
                final(self).val_loc(v.0 as int),
                ty,
                imm,
            ),
    {
        let (v, loc) = self.new_value(ty);
        self.set_int_loc(loc, ty, imm);
        v
    }

    /// Consumes both operands of a finished two-operand lowering, registers
    /// the fresh result, and moves it out of the scratch register that
    /// holds it.
    #[verifier::spinoff_prover]
    #[verifier::rlimit(100)]
    pub(crate) fn finish_binop(&mut self, x: Value, y: Value, kind: Kind, src: Register) -> (v:
        Value)
        requires
            old(self).wf(),
            old(self).alive(x.0 as int),
            old(self).alive(y.0 as int),
            x.0 != y.0,
            kind.spec_is_int(),
            src != Register::RIP,
            old(self).sink.data@.len() + 32 <= CODE_LIMIT,
            old(self).localsize + 16 <= FRAME_LIMIT,
            old(self).values@.len() < 0xffff_ffff,
        ensures
            final(self).wf(),
            binop_effect(*old(self), *final(self), x, y, v, kind),
            final(self).sink.data@ == old(self).sink.data@ + move_gpr_bytes(
                src,
                final(self).val_loc(v.0 as int),
                kind,
            ),
    {
        self.kill(x);
        self.kill(y);
        let (v, loc) = self.new_value(kind);
        self.move_gpr_result(src, loc, kind);
        v
    }

    /// Integer addition: consumes both operands and produces their sum at
    /// the first operand's width; the appended code loads the operands into
    /// the scratch pair, adds them, and moves the sum into the result's
    /// location.
    #[verifier::spinoff_prover]
    #[verifier::rlimit(100)]
    pub fn iadd(&mut self, x: Value, y: Value) -> (v: Value)
        requires
            binop_pre(*old(self), x, y),
            old(self).val_kind(x.0 as int).spec_is_int(),
            old(self).val_kind(y.0 as int).spec_is_int(),
        ensures
            final(self).wf(),
            binop_effect(*old(self), *final(self), x, y, v, old(self).val_kind(x.0 as int)),
            final(self).sink.data@ == old(self).sink.data@ + binop_bytes(
                *old(self),
                *final(self),
                x,
                y,
                v,
                iadd_op_bytes(old(self).val_kind(x.0 as int).spec_x64()),
                Register::R11,
            ),
    {
        let (_, kind) = self.get_value_data(x);
        self.load_value(x, Reg::Gpr(Register::R10));
        self.load_value(y, Reg::Gpr(Register::R11));
        let ghost mid = self.sink;
        proof {
            crate::sink::lemma_append_keeps_wf(mid);
        }
        self.sink.emit_add_reg_reg(kind.x64(), Register::R10, Register::R11);
        let v = self.finish_binop(x, y, kind, Register::R11);
        proof {
            lemma_concat4(
                old(self).sink.data@,
                load_value_bytes(
                    old(self).val_loc(x.0 as int),
                    old(self).val_kind(x.0 as int),
                    Reg::Gpr(Register::R10),
                ),
                load_value_bytes(
                    old(self).val_loc(y.0 as int),
                    old(self).val_kind(y.0 as int),
                    Reg::Gpr(Register::R11),
                ),
                iadd_op_bytes(old(self).val_kind(x.0 as int).spec_x64()),
                move_gpr_bytes(Register::R11, self.val_loc(v.0 as int), kind),
            );
        }
        v
    }
}

impl Function {
    /// Integer subtraction: consumes both operands and produces the first
    /// minus the second at the first operand's width.
    #[verifier::spinoff_prover]
    #[verifier::rlimit(100)]
    pub fn isub(&mut self, x: Value, y: Value) -> (v: Value)
        requires
            binop_pre(*old(self), x, y),
            old(self).val_kind(x.0 as int).spec_is_int(),
            old(self).val_kind(y.0 as int).spec_is_int(),
        ensures
            final(self).wf(),
            binop_effect(*old(self), *final(self), x, y, v, old(self).val_kind(x.0 as int)),
            final(self).sink.data@ == old(self).sink.data@ + binop_bytes(
                *old(self),
                *final(self),
                x,
                y,
                v,
                isub_op_bytes(old(self).val_kind(x.0 as int).spec_x64()),
                Register::R10,
            ),
    {
        let (_, kind) = self.get_value_data(x);
        self.load_value(x, Reg::Gpr(Register::R10));
        self.load_value(y, Reg::Gpr(Register::R11));
        let ghost mid = self.sink;
        proof {
            crate::sink::lemma_append_keeps_wf(mid);
        }
        self.sink.emit_sub_reg_reg(kind.x64(), Register::R11, Register::R10);
        let v = self.finish_binop(x, y, kind, Register::R10);
        proof {
            lemma_concat4(
                old(self).sink.data@,
                load_value_bytes(
                    old(self).val_loc(x.0 as int),
                    old(self).val_kind(x.0 as int),
                    Reg::Gpr(Register::R10),
                ),
                load_value_bytes(
                    old(self).val_loc(y.0 as int),
                    old(self).val_kind(y.0 as int),
                    Reg::Gpr(Register::R11),
                ),
                isub_op_bytes(old(self).val_kind(x.0 as int).spec_x64()),
                move_gpr_bytes(Register::R10, self.val_loc(v.0 as int), kind),
            );
        }
        v
    }

    /// Integer multiplication: consumes both operands and produces their
    /// product at the first operand's width.
    #[verifier::spinoff_prover]
    #[verifier::rlimit(100)]
    pub fn imul(&mut self, x: Value, y: Value) -> (v: Value)
        requires
            binop_pre(*old(self), x, y),
            old(self).val_kind(x.0 as int).spec_is_int(),
            old(self).val_kind(y.0 as int).spec_is_int(),
        ensures
            final(self).wf(),
            binop_effect(*old(self), *final(self), x, y, v, old(self).val_kind(x.0 as int)),
            final(self).sink.data@ == old(self).sink.data@ + binop_bytes(
                *old(self),
                *final(self),
                x,
                y,
                v,
                imul_op_bytes(old(self).val_kind(x.0 as int).spec_x64()),
                Register::R11,
            ),
    {
        let (_, kind) = self.get_value_data(x);
        self.load_value(x, Reg::Gpr(Register::R10));
        self.load_value(y, Reg::Gpr(Register::R11));
        let ghost mid = self.sink;
        proof {
            crate::sink::lemma_append_keeps_wf(mid);
        }
        self.sink.emit_imul_reg_reg(kind.x64(), Register::R10, Register::R11);
        let v = self.finish_binop(x, y, kind, Register::R11);
        proof {
            lemma_concat4(
                old(self).sink.data@,
                load_value_bytes(
                    old(self).val_loc(x.0 as int),
                    old(self).val_kind(x.0 as int),
                    Reg::Gpr(Register::R10),
                ),
                load_value_bytes(
                    old(self).val_loc(y.0 as int),
                    old(self).val_kind(y.0 as int),
                    Reg::Gpr(Register::R11),
                ),
                imul_op_bytes(old(self).val_kind(x.0 as int).spec_x64()),
                move_gpr_bytes(Register::R11, self.val_loc(v.0 as int), kind),
            );
        }
        v
    }

    /// The division sequence: dividend from R10 into RAX, sign extension
    /// into RDX via `cdq` / `cqo`, `idiv` by R11.
    #[verifier::spinoff_prover]
    #[verifier::rlimit(100)]
    pub(crate) fn div_sequence(&mut self, x64: u8)
        requires
            old(self).wf(),
            old(self).sink.data@.len() + 48 <= CODE_LIMIT,
            x64 <= 1,
        ensures
            final(self).wf(),
            Self::code_extended(*old(self), *final(self)),
            Self::tables_unchanged(*old(self), *final(self)),
            final(self).sink.data@.len() <= old(self).sink.data@.len() + 48,
            final(self).sink.data@ == old(self).sink.data@ + div_seq_bytes(x64),
    {
        proof {
            crate::sink::lemma_append_keeps_wf(old(self).sink);
        }
        self.sink.emit_mov_reg_reg(x64, Register::R10, Register::RAX);
        let ghost s1 = self.sink;
        proof {
            crate::sink::lemma_append_keeps_wf(s1);
        }
        if x64 != 0 {
            self.sink.emit_cqo();
        } else {
            self.sink.emit_cdq();
        }
        let ghost s2 = self.sink;
        proof {
            crate::sink::lemma_append_keeps_wf(s2);
        }
        self.sink.emit_idiv_reg_reg(x64, Register::R11);
        proof {
            lemma_concat3(
                old(self).sink.data@,
                rex_opt(
                    x64 != 0 || Register::R10.spec_msb() != 0 || Register::RAX.spec_msb()
                        != 0,
                    x64,
                    Register::R10.spec_msb(),
                    0,
                    Register::RAX.spec_msb(),
                ) + seq![
                    0x89u8,
                    modrm_byte(3, Register::R10.spec_and7(), Register::RAX.spec_and7()),
                ],
                if x64 != 0 {
                    seq![0x48u8, 0x99u8]
                } else {
                    seq![0x99u8]
                },
                rex_opt(
                    Register::R11.spec_msb() != 0 || x64 != 0,
                    x64,
                    0,
                    0,
                    Register::R11.spec_msb(),
                ) + seq![0xf7u8, modrm_byte(3, 7, Register::R11.spec_and7())],
            );
        }
    }

    /// Signed integer division, truncated toward zero: the quotient comes
    /// back from RAX.
    #[verifier::spinoff_prover]
    #[verifier::rlimit(100)]
    pub fn idiv(&mut self, x: Value, y: Value) -> (v: Value)
        requires
            binop_pre(*old(self), x, y),
            old(self).val_kind(x.0 as int).spec_is_int(),
            old(self).val_kind(y.0 as int).spec_is_int(),
        ensures
            final(self).wf(),
            binop_effect(*old(self), *final(self), x, y, v, old(self).val_kind(x.0 as int)),
            final(self).sink.data@ == old(self).sink.data@ + binop_bytes(
                *old(self),
                *final(self),
                x,
                y,
                v,
                div_seq_bytes(old(self).val_kind(x.0 as int).spec_x64()),
                Register::RAX,
            ),
    {
        let (_, kind) = self.get_value_data(x);
        self.load_value(x, Reg::Gpr(Register::R10));
        self.load_value(y, Reg::Gpr(Register::R11));
        self.div_sequence(kind.x64());
        let v = self.finish_binop(x, y, kind, Register::RAX);
        proof {
            lemma_concat4(
                old(self).sink.data@,
                load_value_bytes(
                    old(self).val_loc(x.0 as int),
                    old(self).val_kind(x.0 as int),
                    Reg::Gpr(Register::R10),
                ),
                load_value_bytes(
                    old(self).val_loc(y.0 as int),
                    old(self).val_kind(y.0 as int),
                    Reg::Gpr(Register::R11),
                ),
                div_seq_bytes(old(self).val_kind(x.0 as int).spec_x64()),
                move_gpr_bytes(Register::RAX, self.val_loc(v.0 as int), kind),
            );
        }
        v
    }

    /// Signed integer remainder: as `idiv`, but the remainder comes back
    /// from RDX.
    #[verifier::spinoff_prover]
    #[verifier::rlimit(100)]
    pub fn imod(&mut self, x: Value, y: Value) -> (v: Value)
        requires
            binop_pre(*old(self), x, y),
            old(self).val_kind(x.0 as int).spec_is_int(),
            old(self).val_kind(y.0 as int).spec_is_int(),
        ensures
            final(self).wf(),
            binop_effect(*old(self), *final(self), x, y, v, old(self).val_kind(x.0 as int)),
            final(self).sink.data@ == old(self).sink.data@ + binop_bytes(
                *old(self),
                *final(self),
                x,
                y,
                v,
                div_seq_bytes(old(self).val_kind(x.0 as int).spec_x64()),
                Register::RDX,
            ),
    {
        let (_, kind) = self.get_value_data(x);
        self.load_value(x, Reg::Gpr(Register::R10));
        self.load_value(y, Reg::Gpr(Register::R11));
        self.div_sequence(kind.x64());
        let v = self.finish_binop(x, y, kind, Register::RDX);
        proof {
            lemma_concat4(
                old(self).sink.data@,
                load_value_bytes(
                    old(self).val_loc(x.0 as int),
                    old(self).val_kind(x.0 as int),
                    Reg::Gpr(Register::R10),
                ),
                load_value_bytes(
                    old(self).val_loc(y.0 as int),
                    old(self).val_kind(y.0 as int),
                    Reg::Gpr(Register::R11),
                ),
                div_seq_bytes(old(self).val_kind(x.0 as int).spec_x64()),
                move_gpr_bytes(Register::RDX, self.val_loc(v.0 as int), kind),
            );
        }
        v
    }

    /// The compare sequence: flags from the first operand minus the second,
    /// then the materialized condition in RAX.
    #[verifier::spinoff_prover]
    #[verifier::rlimit(100)]
    pub(crate) fn cmp_sequence(&mut self, x64: u8, cc: CondCode)
        requires
            old(self).wf(),
            old(self).sink.data@.len() + 64 <= CODE_LIMIT,
            x64 <= 1,
        ensures
            final(self).wf(),
            Self::code_extended(*old(self), *final(self)),
            Self::tables_unchanged(*old(self), *final(self)),
            final(self).sink.data@.len() <= old(self).sink.data@.len() + 64,
            final(self).sink.data@ == old(self).sink.data@ + cmp_seq_bytes(x64, cc),
    {
        proof {
            crate::sink::lemma_append_keeps_wf(old(self).sink);
        }
        self.sink.emit_cmp_reg_reg(x64, Register::R11, Register::R10);
        let ghost s1 = self.sink;
        proof {
            crate::sink::lemma_append_keeps_wf(s1);
        }
        self.sink.set(Register::RAX, cc);
        proof {
            lemma_concat2(
                old(self).sink.data@,
                rex_opt(
                    x64 != 0 || Register::R11.spec_msb() != 0 || Register::R10.spec_msb()
                        != 0,
                    x64,
                    Register::R11.spec_msb(),
                    0,
                    Register::R10.spec_msb(),
                ) + seq![
                    0x39u8,
                    modrm_byte(3, Register::R11.spec_and7(), Register::R10.spec_and7()),
                ],
                setb_bytes(cc, Register::RAX) + (rex_opt(
                    Register::RAX.spec_msb() != 0 || Register::RAX.value() >= 4,
                    0,
                    Register::RAX.spec_msb(),
                    0,
                    Register::RAX.spec_msb(),
                ) + seq![
                    0x0fu8,
                    0xb6u8,
                    modrm_byte(3, Register::RAX.spec_and7(), Register::RAX.spec_and7()),
                ]),
            );
        }
    }

    /// An integer compare materialized as a 0-or-1 value of kind `Bool32`.
    #[verifier::spinoff_prover]
    #[verifier::rlimit(100)]
    pub fn icmp(&mut self, x: Value, y: Value, cc: CondCode) -> (v: Value)
        requires
            binop_pre(*old(self), x, y),
            old(self).val_kind(x.0 as int).spec_is_int(),
            old(self).val_kind(y.0 as int).spec_is_int(),
        ensures
            final(self).wf(),
            binop_effect(*old(self), *final(self), x, y, v, Kind::Bool32),
            final(self).sink.data@ == old(self).sink.data@ + binop_bytes(
                *old(self),
                *final(self),
                x,
                y,
                v,
                cmp_seq_bytes(old(self).val_kind(x.0 as int).spec_x64(), cc),
                Register::RAX,
            ),
    {
        let (_, kind) = self.get_value_data(x);
        self.load_value(x, Reg::Gpr(Register::R10));
        self.load_value(y, Reg::Gpr(Register::R11));
        self.cmp_sequence(kind.x64(), cc);
        let v = self.finish_binop(x, y, Kind::Bool32, Register::RAX);
        proof {
            lemma_concat4(
                old(self).sink.data@,
                load_value_bytes(
                    old(self).val_loc(x.0 as int),
                    old(self).val_kind(x.0 as int),
                    Reg::Gpr(Register::R10),
                ),
                load_value_bytes(
                    old(self).val_loc(y.0 as int),
                    old(self).val_kind(y.0 as int),
                    Reg::Gpr(Register::R11),
                ),
                cmp_seq_bytes(old(self).val_kind(x.0 as int).spec_x64(), cc),
                move_gpr_bytes(Register::RAX, self.val_loc(v.0 as int), Kind::Bool32),
            );
        }
        v
    }
}

} // verus!
