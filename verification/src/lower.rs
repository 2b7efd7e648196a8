//! Composite lowerings above the plain encoders: the materialized
//! floating-point compare with its IEEE unordered handling, and the
//! RIP-relative materialization of floating-point constants out of the data
//! segment pool.

use crate::emit::{enc_sse_cmp, enc_sse_fm, low32_of_i64, modrm_byte, rex_opt, Membase};
use crate::util::le32_of;
use crate::registers::{Register, XMMRegister};
use crate::sink::{emits, Sink, CODE_LIMIT};
use crate::types::{CondCode, MachineMode};
use vstd::prelude::*;

verus! {

/// The bytes of `mov reg32, imm32` as `load_int` emits it for the 8- and
/// 32-bit widths.
pub open spec fn load_int32_bytes(dest: Register, imm: i64) -> Seq<u8> {
    rex_opt(dest.spec_msb() != 0, 0, 0, 0, 1) + seq![(0xb8 + dest.spec_and7()) as u8] + le32_of(
        low32_of_i64(imm),
    )
}

/// The bytes of `setcc reg`.
pub open spec fn setb_bytes(op: CondCode, reg: Register) -> Seq<u8> {
    rex_opt(reg.value() >= 4, 0, 0, 0, reg.spec_msb()) + seq![
        0x0fu8,
        (0x90 + op.cc_nibble()) as u8,
        modrm_byte(3, 0, reg.spec_and7()),
    ]
}

/// The bytes of `setp reg` / `setnp reg`.
pub open spec fn setb_parity_bytes(reg: Register, parity: bool) -> Seq<u8> {
    rex_opt(reg.value() >= 4, 0, 0, 0, reg.spec_msb()) + seq![
        0x0fu8,
        if parity { 0x9au8 } else { 0x9bu8 },
        modrm_byte(3, 0, reg.spec_and7()),
    ]
}

/// The bytes of `cmovcc dest, src`.
pub open spec fn cmov_bytes(x64: u8, dest: Register, src: Register, cond: CondCode) -> Seq<u8> {
    rex_opt(
        src.spec_msb() != 0 || dest.spec_msb() != 0 || x64 != 0,
        x64,
        dest.spec_msb(),
        0,
        src.spec_msb(),
    ) + seq![
        0x0fu8,
        (0x40 + cond.cc_nibble()) as u8,
        modrm_byte(3, dest.spec_and7(), src.spec_and7()),
    ]
}

/// The bytes of the whole materialized floating-point compare: for equality
/// conditions an `ucomis` guarded by the parity flag and a `cmov`; for the
/// ordered conditions a single `ucomis` (operands swapped for the less-than
/// forms) followed by an unsigned `setcc`.
pub open spec fn float_cmp_bytes(
    t: MachineMode,
    dest: Register,
    lhs: XMMRegister,
    rhs: XMMRegister,
    cond: CondCode,
) -> Seq<u8> {
    let dbl = (t == MachineMode::Float64);
    if cond == CondCode::Equal || cond == CondCode::NotEqual {
        let init: i64 = if cond == CondCode::Equal {
            0
        } else {
            1
        };
        let parity = (cond != CondCode::Equal);
        load_int32_bytes(Register::R9, init) + load_int32_bytes(dest, 0) + enc_sse_cmp(
            dbl,
            lhs,
            rhs,
        ) + setb_parity_bytes(dest, parity) + cmov_bytes(
            0,
            dest,
            Register::R9,
            CondCode::NotEqual,
        )
    } else if cond == CondCode::Greater || cond == CondCode::GreaterEq {
        let setcc = if cond == CondCode::Greater {
            CondCode::UnsignedGreater
        } else {
            CondCode::UnsignedGreaterEq
        };
        load_int32_bytes(dest, 0) + enc_sse_cmp(dbl, lhs, rhs) + setb_bytes(setcc, dest)
    } else {
        let setcc = if cond == CondCode::Less {
            CondCode::UnsignedGreater
        } else {
            CondCode::UnsignedGreaterEq
        };
        load_int32_bytes(dest, 0) + enc_sse_cmp(dbl, rhs, lhs) + setb_bytes(setcc, dest)
    }
}


impl Sink {
    /// A materialized floating-point compare: leaves 0 or 1 in `dest`,
    /// honouring the IEEE unordered rules through the parity flag for the
    /// equality forms and through operand swaps for the less-than forms.
    #[verifier::rlimit(100)]
    pub fn float_cmp(
        &mut self,
        t: MachineMode,
        dest: Register,
        lhs: XMMRegister,
        rhs: XMMRegister,
        cond: CondCode,
    )
        requires
            old(self).data@.len() + 64 <= CODE_LIMIT,
            dest != Register::RIP,
            t == MachineMode::Float32 || t == MachineMode::Float64,
            cond == CondCode::Equal || cond == CondCode::NotEqual || cond == CondCode::Greater
                || cond == CondCode::GreaterEq || cond == CondCode::Less || cond
                == CondCode::LessEq,
        ensures
            emits(*old(self), *final(self), float_cmp_bytes(t, dest, lhs, rhs, cond)),
    {
        let dbl = t == MachineMode::Float64;
        match cond {
            CondCode::Equal | CondCode::NotEqual => {
                let init: i64 = if cond == CondCode::Equal {
                    0
                } else {
                    1
                };
                self.load_int(MachineMode::Int32, Register::R9, init);
                self.load_int(MachineMode::Int32, dest, 0);
                if dbl {
                    self.ucomisd(lhs, rhs);
                } else {
                    self.ucomiss(lhs, rhs);
                }
                let parity = cond != CondCode::Equal;
                self.emit_setb_reg_parity(dest, parity);
                self.cmov(0, dest, Register::R9, CondCode::NotEqual);
                proof {
                    let a = load_int32_bytes(Register::R9, init);
                    let b = load_int32_bytes(dest, 0);
                    let c = enc_sse_cmp(dbl, lhs, rhs);
                    let d = setb_parity_bytes(dest, parity);
                    let e = cmov_bytes(0, dest, Register::R9, CondCode::NotEqual);
                    crate::util::lemma_concat5(old(self).data@, a, b, c, d, e);
                }
            },
            CondCode::Greater | CondCode::GreaterEq => {
                self.load_int(MachineMode::Int32, dest, 0);
                if dbl {
                    self.ucomisd(lhs, rhs);
                } else {
                    self.ucomiss(lhs, rhs);
                }
                let setcc = if cond == CondCode::Greater {
                    CondCode::UnsignedGreater
                } else {
                    CondCode::UnsignedGreaterEq
                };
                self.emit_setb_reg(setcc, dest);
                proof {
                    crate::util::lemma_concat3(
                        old(self).data@,
                        load_int32_bytes(dest, 0),
                        enc_sse_cmp(dbl, lhs, rhs),
                        setb_bytes(setcc, dest),
                    );
                }
            },
            CondCode::Less | CondCode::LessEq => {
                self.load_int(MachineMode::Int32, dest, 0);
                if dbl {
                    self.ucomisd(rhs, lhs);
                } else {
                    self.ucomiss(rhs, lhs);
                }
                let setcc = if cond == CondCode::Less {
                    CondCode::UnsignedGreater
                } else {
                    CondCode::UnsignedGreaterEq
                };
                self.emit_setb_reg(setcc, dest);
                proof {
                    crate::util::lemma_concat3(
                        old(self).data@,
                        load_int32_bytes(dest, 0),
                        enc_sse_cmp(dbl, rhs, lhs),
                        setb_bytes(setcc, dest),
                    );
                }
            },
            _ => unreached(),
        }
    }
}

impl Sink {
    /// Emits the RIP-relative `movss` / `movsd` that reads a pooled
    /// constant `off` bytes before the end of the data segment, assuming the
    /// segment is laid out immediately before the code.
    fn rip_relative_float_load(&mut self, dbl: bool, dest: XMMRegister, off: i32)
        requires
            old(self).wf(),
            old(self).data@.len() + 16 <= CODE_LIMIT,
            0 <= off <= crate::dseg::DSEG_LIMIT,
        ensures
            final(self).wf(),
            final(self).labels@ == old(self).labels@,
            final(self).jumps@ == old(self).jumps@,
            final(self).dseg == old(self).dseg,
            final(self).data@ == old(self).data@ + enc_sse_fm(
                dbl,
                0x10,
                dest,
                Membase::Base(Register::RIP, (0 - (off + old(self).data@.len() + 8)) as i32),
            ),
    {
        proof {
            crate::sink::lemma_append_keeps_wf(*old(self));
        }
        let pos: i32 = self.data.len() as i32;
        let m = Membase::Base(Register::RIP, -(off + pos + 8));
        if dbl {
            self.movsd_load(dest, m);
        } else {
            self.movss_load(dest, m);
        }
    }

    /// Materializes a floating-point constant, given as its IEEE bit
    /// pattern: pools the value in the data segment and loads it with a
    /// RIP-relative `movss` / `movsd` whose displacement reaches back over
    /// the emitted code into the pool.
    pub fn load_float(&mut self, mode: MachineMode, dest: XMMRegister, bits: u64)
        requires
            old(self).wf(),
            old(self).data@.len() + 16 <= CODE_LIMIT,
            old(self).dseg.spec_size() + 16 <= crate::dseg::DSEG_LIMIT,
            mode == MachineMode::Float32 || mode == MachineMode::Float64,
            mode == MachineMode::Float32 ==> bits <= u32::MAX,
        ensures
            final(self).wf(),
            final(self).labels@ == old(self).labels@,
            final(self).jumps@ == old(self).jumps@,
            ({
                let v = if mode == MachineMode::Float32 {
                    crate::dseg::DataValue::Float(bits as u32)
                } else {
                    crate::dseg::DataValue::Double(bits)
                };
                let off = final(self).dseg.spec_size();
                &&& final(self).dseg.wf()
                &&& final(self).dseg.spec_entries() == old(self).dseg.spec_entries().push(
                    crate::dseg::Entry { disp: off, value: v },
                )
                &&& old(self).dseg.spec_size() < off <= old(self).dseg.spec_size() + 16
                &&& final(self).data@ == old(self).data@ + enc_sse_fm(
                    mode == MachineMode::Float64,
                    0x10,
                    dest,
                    Membase::Base(
                        Register::RIP,
                        (0 - (off + old(self).data@.len() + 8)) as i32,
                    ),
                )
            }),
    {
        match mode {
            MachineMode::Float32 => {
                let off = self.dseg.add_float(bits as u32);
                self.rip_relative_float_load(false, dest, off);
            },
            MachineMode::Float64 => {
                let off = self.dseg.add_double(bits);
                self.rip_relative_float_load(true, dest, off);
            },
            _ => unreached(),
        }
    }
}

} // verus!
