//! The x86-64 instruction encoder, written over the code sink. Every
//! emitter's contract names the exact bytes it appends: REX prefixes appear
//! if and only if an extended register, a 64-bit operand width or a
//! non-legacy byte register demands one, and each addressing mode lowers to
//! the ModR/M / SIB / displacement bytes the architecture defines for it.

use crate::lower::setb_bytes;
use crate::registers::{Register, XMMRegister};
use crate::sink::{emits, jump_emitted, Sink, CODE_LIMIT};
use crate::types::{CondCode, MachineMode, Type};
use crate::util::{le32_of, le64_of, u32_of_i32, u64_of_i64, u8_of_i8};
use vstd::prelude::*;

verus! {

/// A memory operand.
#[derive(Clone, Copy, Debug, PartialEq, Eq, Structural)]
pub enum Membase {
    /// `[RBP + disp]`: a frame-pointer-relative local slot.
    Local(i32),
    /// `[reg + disp]`; with `RIP` as the register, `[RIP + disp32]`.
    Base(Register, i32),
    /// `[base + index * scale + disp]`, scale one of 1, 2, 4, 8.
    Index(Register, Register, i32, i32),
    /// `[index * scale + disp]` with no base register.
    Offset(Register, i32, i32),
}

/// The name the lowering layer uses for a memory operand.
pub type Mem = Membase;

impl Membase {
    /// The registers of the operand are encodable: neither an index nor a
    /// non-RIP base is the RIP pseudo-register, and a scale is 1, 2, 4 or 8.
    pub open spec fn wf(self) -> bool {
        match self {
            Membase::Local(_) => true,
            Membase::Base(_, _) => true,
            Membase::Index(base, index, scale, _) => base != Register::RIP && index
                != Register::RIP && (scale == 1 || scale == 2 || scale == 4 || scale == 8),
            Membase::Offset(index, scale, _) => index != Register::RIP && (scale == 1 || scale == 2
                || scale == 4 || scale == 8),
        }
    }
}

/// The REX prefix byte `0100WRXB`.
pub open spec fn rex_byte(w: u8, r: u8, x: u8, b: u8) -> u8
    recommends
        w <= 1 && r <= 1 && x <= 1 && b <= 1,
{
    (0x40 + w * 8 + r * 4 + x * 2 + b) as u8
}

/// The ModR/M byte with the given mode, reg field and r/m field.
pub open spec fn modrm_byte(mode: u8, reg: u8, rm: u8) -> u8
    recommends
        mode < 4 && reg < 8 && rm < 8,
{
    (mode * 64 + reg * 8 + rm) as u8
}

/// The SIB byte with the given scale bits, index field and base field.
pub open spec fn sib_byte(scale: u8, index: u8, base: u8) -> u8
    recommends
        scale < 4 && index < 8 && base < 8,
{
    (scale * 64 + index * 8 + base) as u8
}

/// One REX byte when `cond` holds, nothing otherwise.
pub open spec fn rex_opt(cond: bool, w: u8, r: u8, x: u8, b: u8) -> Seq<u8> {
    if cond {
        seq![rex_byte(w, r, x, b)]
    } else {
        Seq::<u8>::empty()
    }
}

/// The SIB scale bits for a byte scale of 1, 2, 4 or 8.
pub open spec fn scale_bits(scale: i32) -> u8 {
    if scale == 8 {
        3
    } else if scale == 4 {
        2
    } else if scale == 2 {
        1
    } else {
        0
    }
}

/// The ModR/M, SIB and displacement bytes for `[base + disp]` with the reg
/// field `dest7`. RSP- and R12-based forms always carry a SIB byte; RBP- and
/// R13-based forms always carry an explicit displacement; a RIP base takes
/// the RIP-relative disp32 form.
pub open spec fn enc_mem_base(base: Register, disp: int, dest7: u8) -> Seq<u8> {
    if base == Register::RSP || base == Register::R12 {
        if disp == 0 {
            seq![modrm_byte(0, dest7, 4), sib_byte(0, 4, 4)]
        } else if -128 <= disp < 128 {
            seq![modrm_byte(1, dest7, 4), sib_byte(0, 4, 4), u8_of_i8(disp)]
        } else {
            seq![modrm_byte(2, dest7, 4), sib_byte(0, 4, 4)] + le32_of(u32_of_i32(disp))
        }
    } else if disp == 0 && base != Register::RBP && base != Register::R13 && base
        != Register::RIP {
        seq![modrm_byte(0, dest7, base.spec_and7())]
    } else if base == Register::RIP {
        seq![modrm_byte(0, dest7, 5)] + le32_of(u32_of_i32(disp))
    } else if -128 <= disp < 128 {
        seq![modrm_byte(1, dest7, base.spec_and7()), u8_of_i8(disp)]
    } else {
        seq![modrm_byte(2, dest7, base.spec_and7())] + le32_of(u32_of_i32(disp))
    }
}

/// The ModR/M, SIB and displacement bytes for `[base + index*scale + disp]`.
/// RBP and R13 cannot serve as the implicit-zero-displacement SIB base (mode
/// 00 with base field 101 means "no base, disp32 follows"), so a zero
/// displacement over those two bases takes the explicit disp8 form.
pub open spec fn enc_mem_index(
    base: Register,
    index: Register,
    scale: i32,
    disp: int,
    dest7: u8,
) -> Seq<u8> {
    if disp == 0 && base != Register::RBP && base != Register::R13 {
        seq![
            modrm_byte(0, dest7, 4),
            sib_byte(scale_bits(scale), index.spec_and7(), base.spec_and7()),
        ]
    } else if -128 <= disp < 128 {
        seq![
            modrm_byte(1, dest7, 4),
            sib_byte(scale_bits(scale), index.spec_and7(), base.spec_and7()),
            u8_of_i8(disp),
        ]
    } else {
        seq![
            modrm_byte(2, dest7, 4),
            sib_byte(scale_bits(scale), index.spec_and7(), base.spec_and7()),
        ] + le32_of(u32_of_i32(disp))
    }
}

/// The ModR/M, SIB and disp32 bytes for `[index*scale + disp]` with no base.
pub open spec fn enc_mem_no_base(index: Register, scale: i32, disp: int, dest7: u8) -> Seq<u8> {
    seq![modrm_byte(0, dest7, 4), sib_byte(scale_bits(scale), index.spec_and7(), 5)] + le32_of(
        u32_of_i32(disp),
    )
}

/// The addressing bytes of a whole memory operand, with the reg field
/// `dest7`.
pub open spec fn enc_membase(m: Membase, dest7: u8) -> Seq<u8> {
    match m {
        Membase::Local(off) => enc_mem_base(Register::RBP, off as int, dest7),
        Membase::Base(base, disp) => enc_mem_base(base, disp as int, dest7),
        Membase::Index(base, index, scale, disp) => enc_mem_index(
            base,
            index,
            scale,
            disp as int,
            dest7,
        ),
        Membase::Offset(index, scale, disp) => enc_mem_no_base(index, scale, disp as int, dest7),
    }
}

/// The REX.B bit a memory operand contributes.
pub open spec fn membase_base_msb(m: Membase) -> u8 {
    match m {
        Membase::Local(_) => 0,
        Membase::Base(base, _) => if base == Register::RIP {
            0
        } else {
            base.spec_msb()
        },
        Membase::Index(base, _, _, _) => base.spec_msb(),
        Membase::Offset(_, _, _) => 0,
    }
}

/// The REX.X bit a memory operand contributes.
pub open spec fn membase_index_msb(m: Membase) -> u8 {
    match m {
        Membase::Local(_) => 0,
        Membase::Base(_, _) => 0,
        Membase::Index(_, index, _, _) => index.spec_msb(),
        Membase::Offset(index, _, _) => index.spec_msb(),
    }
}

/// The REX prefix (possibly empty) that an instruction with the given reg
/// extension bit and memory operand carries: present when the width is
/// 64-bit or any referenced register is extended.
pub open spec fn enc_rex_membase_bits(x64: u8, dest_msb: u8, m: Membase) -> Seq<u8> {
    rex_opt(
        dest_msb != 0 || membase_index_msb(m) != 0 || membase_base_msb(m) != 0 || x64 != 0,
        x64,
        dest_msb,
        membase_index_msb(m),
        membase_base_msb(m),
    )
}

/// The REX prefix (possibly empty) that a register-and-memory instruction
/// carries: present when the width is 64-bit or any referenced register is
/// extended.
pub open spec fn enc_rex_membase(x64: u8, dest: Register, m: Membase) -> Seq<u8> {
    enc_rex_membase_bits(x64, dest.spec_msb(), m)
}

/// The bytes of a scalar SSE register-to-register operation: an `F2` or `F3`
/// prefix, an optional REX, `0F`, the opcode, and a register-direct ModR/M.
pub open spec fn enc_sse_ff(dbl: bool, op: u8, dest: XMMRegister, src: XMMRegister) -> Seq<u8> {
    seq![if dbl { 0xf2u8 } else { 0xf3u8 }] + rex_opt(
        dest.spec_msb() != 0 || src.spec_msb() != 0,
        0,
        dest.spec_msb(),
        0,
        src.spec_msb(),
    ) + seq![0x0fu8, op, modrm_byte(3, dest.spec_and7(), src.spec_and7())]
}

/// The bytes of a scalar SSE operation between an XMM register and a general
/// register (the integer-conversion forms).
pub open spec fn enc_sse_fr(dbl: bool, op: u8, dmsb: u8, d7: u8, x64: u8, smsb: u8, s7: u8)
    -> Seq<u8> {
    seq![if dbl { 0xf2u8 } else { 0xf3u8 }] + rex_opt(
        x64 != 0 || dmsb != 0 || smsb != 0,
        x64,
        dmsb,
        0,
        smsb,
    ) + seq![0x0fu8, op, modrm_byte(3, d7, s7)]
}

/// The bytes of a scalar SSE load or store between an XMM register and a
/// memory operand.
pub open spec fn enc_sse_fm(dbl: bool, op: u8, dest: XMMRegister, m: Membase) -> Seq<u8> {
    seq![if dbl { 0xf2u8 } else { 0xf3u8 }] + enc_rex_membase_bits(0, dest.spec_msb(), m) + seq![
        0x0fu8,
        op,
    ] + enc_membase(m, dest.spec_and7())
}

/// The bytes of a packed SSE operation between an XMM register and a memory
/// operand, with a `66` prefix for the double-width form.
pub open spec fn enc_sse_fm_66(dbl: bool, op: u8, dest: XMMRegister, m: Membase) -> Seq<u8> {
    (if dbl { seq![0x66u8] } else { Seq::<u8>::empty() }) + enc_rex_membase_bits(
        0,
        dest.spec_msb(),
        m,
    ) + seq![0x0fu8, op] + enc_membase(m, dest.spec_and7())
}

/// The bytes of `ucomiss` / `ucomisd`.
pub open spec fn enc_sse_cmp(dbl: bool, dest: XMMRegister, src: XMMRegister) -> Seq<u8> {
    (if dbl { seq![0x66u8] } else { Seq::<u8>::empty() }) + rex_opt(
        dest.spec_msb() != 0 || src.spec_msb() != 0,
        0,
        dest.spec_msb(),
        0,
        src.spec_msb(),
    ) + seq![0x0fu8, 0x2eu8, modrm_byte(3, dest.spec_and7(), src.spec_and7())]
}

impl Sink {
    /// Emits a SIB byte from its raw fields.
    pub fn emit_sib(&mut self, scale: u8, index: u8, base: u8)
        requires
            old(self).data@.len() + 1 <= CODE_LIMIT,
            scale < 4,
            index < 8,
            base < 8,
        ensures
            emits(*old(self), *final(self), seq![sib_byte(scale, index, base)]),
    {
        self.put(scale * 64 + index * 8 + base);
    }

    /// Emits a ModR/M byte from its raw fields.
    pub fn emit_modrm(&mut self, mode: u8, reg: u8, rm: u8)
        requires
            old(self).data@.len() + 1 <= CODE_LIMIT,
            mode < 4,
            reg < 8,
            rm < 8,
        ensures
            emits(*old(self), *final(self), seq![modrm_byte(mode, reg, rm)]),
    {
        self.put(mode * 64 + reg * 8 + rm);
    }

    /// Emits a REX prefix from its four bits.
    pub fn emit_rex(&mut self, w: u8, r: u8, x: u8, b: u8)
        requires
            old(self).data@.len() + 1 <= CODE_LIMIT,
            w <= 1,
            r <= 1,
            x <= 1,
            b <= 1,
        ensures
            emits(*old(self), *final(self), seq![rex_byte(w, r, x, b)]),
    {
        self.put(0x40 + w * 8 + r * 4 + x * 2 + b);
    }

    /// Emits the addressing bytes for `[base + disp]` with reg field
    /// `dest.and7()`.
    pub fn emit_mem_base(&mut self, base: Register, disp: i32, dest: Register)
        requires
            old(self).data@.len() + 8 <= CODE_LIMIT,
            dest != Register::RIP,
        ensures
            emits(*old(self), *final(self), enc_mem_base(base, disp as int, dest.spec_and7())),
    {
        let d7 = dest.and7();
        if base == Register::RSP || base == Register::R12 {
            if disp == 0 {
                self.emit_modrm(0, d7, 4);
                self.emit_sib(0, 4, 4);
            } else if crate::util::fits_i8(disp) {
                self.emit_modrm(1, d7, 4);
                self.emit_sib(0, 4, 4);
                self.put(crate::util::to_u8_2c(disp));
            } else {
                self.emit_modrm(2, d7, 4);
                self.emit_sib(0, 4, 4);
                self.put_4(crate::util::to_u32_2c(disp));
            }
        } else if disp == 0 && base != Register::RBP && base != Register::R13 && base
            != Register::RIP {
            self.emit_modrm(0, d7, base.and7());
        } else if base == Register::RIP {
            self.emit_modrm(0, d7, 5);
            self.put_4(crate::util::to_u32_2c(disp));
        } else if crate::util::fits_i8(disp) {
            self.emit_modrm(1, d7, base.and7());
            self.put(crate::util::to_u8_2c(disp));
        } else {
            self.emit_modrm(2, d7, base.and7());
            self.put_4(crate::util::to_u32_2c(disp));
        }
        proof {
            assert(self.data@ =~= old(self).data@ + enc_mem_base(
                base,
                disp as int,
                dest.spec_and7(),
            ));
        }
    }

    /// Emits the addressing bytes for `[base + index*scale + disp]` with reg
    /// field `dest.and7()`.
    pub fn emit_membase_with_index_and_scale(
        &mut self,
        base: Register,
        index: Register,
        scale: i32,
        disp: i32,
        dest: Register,
    )
        requires
            old(self).data@.len() + 8 <= CODE_LIMIT,
            dest != Register::RIP,
            base != Register::RIP,
            index != Register::RIP,
            scale == 1 || scale == 2 || scale == 4 || scale == 8,
        ensures
            emits(
                *old(self),
                *final(self),
                enc_mem_index(base, index, scale, disp as int, dest.spec_and7()),
            ),
    {
        let sc: u8 = if scale == 8 {
            3
        } else if scale == 4 {
            2
        } else if scale == 2 {
            1
        } else {
            0
        };
        let d7 = dest.and7();
        if disp == 0 && base != Register::RBP && base != Register::R13 {
            self.emit_modrm(0, d7, 4);
            self.emit_sib(sc, index.and7(), base.and7());
        } else if crate::util::fits_i8(disp) {
            self.emit_modrm(1, d7, 4);
            self.emit_sib(sc, index.and7(), base.and7());
            self.put(crate::util::to_u8_2c(disp));
        } else {
            self.emit_modrm(2, d7, 4);
            self.emit_sib(sc, index.and7(), base.and7());
            self.put_4(crate::util::to_u32_2c(disp));
        }
        proof {
            assert(self.data@ =~= old(self).data@ + enc_mem_index(
                base,
                index,
                scale,
                disp as int,
                dest.spec_and7(),
            ));
        }
    }

    /// Emits the addressing bytes for `[index*scale + disp]` with no base.
    pub fn emit_membase_without_base(&mut self, index: Register, scale: i32, disp: i32,
        dest: Register)
        requires
            old(self).data@.len() + 8 <= CODE_LIMIT,
            dest != Register::RIP,
            index != Register::RIP,
            scale == 1 || scale == 2 || scale == 4 || scale == 8,
        ensures
            emits(
                *old(self),
                *final(self),
                enc_mem_no_base(index, scale, disp as int, dest.spec_and7()),
            ),
    {
        let sc: u8 = if scale == 8 {
            3
        } else if scale == 4 {
            2
        } else if scale == 2 {
            1
        } else {
            0
        };
        self.emit_modrm(0, dest.and7(), 4);
        self.emit_sib(sc, index.and7(), 5);
        self.put_4(crate::util::to_u32_2c(disp));
        proof {
            assert(self.data@ =~= old(self).data@ + enc_mem_no_base(
                index,
                scale,
                disp as int,
                dest.spec_and7(),
            ));
        }
    }

    /// Emits the addressing bytes of a whole memory operand.
    pub fn emit_membase(&mut self, dest: Register, src: &Membase)
        requires
            old(self).data@.len() + 8 <= CODE_LIMIT,
            dest != Register::RIP,
            src.wf(),
        ensures
            emits(*old(self), *final(self), enc_membase(*src, dest.spec_and7())),
    {
        match src {
            Membase::Local(offset) => {
                self.emit_mem_base(Register::RBP, *offset, dest);
            },
            Membase::Base(base, disp) => {
                self.emit_mem_base(*base, *disp, dest);
            },
            Membase::Index(base, index, scale, disp) => {
                self.emit_membase_with_index_and_scale(*base, *index, *scale, *disp, dest);
            },
            Membase::Offset(index, scale, disp) => {
                self.emit_membase_without_base(*index, *scale, *disp, dest);
            },
        }
    }

    /// Emits the REX prefix (when one is needed) for an instruction whose
    /// reg operand is `dest` and whose memory operand is `src`.
    pub fn emit_rex_membase(&mut self, x64: u8, dest: Register, src: &Membase)
        requires
            old(self).data@.len() + 1 <= CODE_LIMIT,
            dest != Register::RIP,
            x64 <= 1,
            src.wf(),
        ensures
            emits(*old(self), *final(self), enc_rex_membase(x64, dest, *src)),
    {
        let (base_msb, index_msb): (u8, u8) = match src {
            Membase::Local(_) => (0, 0),
            Membase::Base(base, _) => {
                let bm = if *base == Register::RIP {
                    0
                } else {
                    base.msb()
                };
                (bm, 0)
            },
            Membase::Index(base, index, _, _) => (base.msb(), index.msb()),
            Membase::Offset(index, _, _) => (0, index.msb()),
        };
        if dest.msb() != 0 || index_msb != 0 || base_msb != 0 || x64 != 0 {
            self.emit_rex(x64, dest.msb(), index_msb, base_msb);
        }
        proof {
            assert(self.data@ =~= old(self).data@ + enc_rex_membase(x64, dest, *src));
        }
    }
}

/// The truncation of a 64-bit immediate to its low 32 bits, as the 32-bit
/// move form of `load_int` performs it.
pub open spec fn low32_of_i64(imm: i64) -> u32 {
    (u64_of_i64(imm as int) % 0x1_0000_0000) as u32
}

impl Sink {
    /// `mov reg32/64, [base + disp]` and friends: a load through a base
    /// register, with the given opcode and width bit.
    pub fn emit_mov_membaseq_reg(
        &mut self,
        rex_prefix: u8,
        x64: u8,
        opcode: u8,
        src: Register,
        disp: i32,
        dest: Register,
    )
        requires
            old(self).data@.len() + 16 <= CODE_LIMIT,
            dest != Register::RIP,
            x64 <= 1,
            rex_prefix <= 1,
        ensures
            emits(
                *old(self),
                *final(self),
                rex_opt(
                    (if src == Register::RIP { 0u8 } else { src.spec_msb() }) != 0
                        || dest.spec_msb() != 0 || x64 != 0 || rex_prefix != 0,
                    x64,
                    dest.spec_msb(),
                    0,
                    if src == Register::RIP { 0u8 } else { src.spec_msb() },
                ) + seq![opcode] + enc_mem_base(src, disp as int, dest.spec_and7()),
            ),
    {
        let src_msb = if src == Register::RIP { 0 } else { src.msb() };
        if src_msb != 0 || dest.msb() != 0 || x64 != 0 || rex_prefix != 0 {
            self.emit_rex(x64, dest.msb(), 0, src_msb);
        }
        self.put(opcode);
        self.emit_mem_base(src, disp, dest);
        proof {
            assert(self.data@ =~= old(self).data@ + (rex_opt(
                (if src == Register::RIP { 0u8 } else { src.spec_msb() }) != 0 || dest.spec_msb()
                    != 0 || x64 != 0 || rex_prefix != 0,
                x64,
                dest.spec_msb(),
                0,
                if src == Register::RIP { 0u8 } else { src.spec_msb() },
            ) + seq![opcode] + enc_mem_base(src, disp as int, dest.spec_and7())));
        }
    }

    /// `mov dest32, [src + disp]`.
    pub fn emit_movl_memq_reg(&mut self, src: Register, disp: i32, dest: Register)
        requires
            old(self).data@.len() + 16 <= CODE_LIMIT,
            dest != Register::RIP,
        ensures
            emits(
                *old(self),
                *final(self),
                rex_opt(
                    (if src == Register::RIP { 0u8 } else { src.spec_msb() }) != 0
                        || dest.spec_msb() != 0,
                    0,
                    dest.spec_msb(),
                    0,
                    if src == Register::RIP { 0u8 } else { src.spec_msb() },
                ) + seq![0x8bu8] + enc_mem_base(src, disp as int, dest.spec_and7()),
            ),
    {
        self.emit_mov_membaseq_reg(0, 0, 0x8b, src, disp, dest);
    }

    /// `mov dest64, [src + disp]`.
    pub fn emit_movq_memq_reg(&mut self, src: Register, disp: i32, dest: Register)
        requires
            old(self).data@.len() + 16 <= CODE_LIMIT,
            dest != Register::RIP,
        ensures
            emits(
                *old(self),
                *final(self),
                seq![
                    rex_byte(
                        1,
                        dest.spec_msb(),
                        0,
                        if src == Register::RIP { 0u8 } else { src.spec_msb() },
                    ),
                    0x8bu8,
                ] + enc_mem_base(src, disp as int, dest.spec_and7()),
            ),
    {
        self.emit_mov_membaseq_reg(0, 1, 0x8b, src, disp, dest);
        proof {
            assert(self.data@ =~= old(self).data@ + (seq![
                rex_byte(
                    1,
                    dest.spec_msb(),
                    0,
                    if src == Register::RIP { 0u8 } else { src.spec_msb() },
                ),
                0x8bu8,
            ] + enc_mem_base(src, disp as int, dest.spec_and7())));
        }
    }

    /// `mov [dest + disp], src`: a store through a base register.
    pub fn emit_mov_reg_membaseq(&mut self, opcode: u8, x64: u8, src: Register, dest: Register,
        disp: i32)
        requires
            old(self).data@.len() + 16 <= CODE_LIMIT,
            src != Register::RIP,
            x64 <= 1,
        ensures
            emits(
                *old(self),
                *final(self),
                rex_opt(
                    (if dest == Register::RIP { 0u8 } else { dest.spec_msb() }) != 0
                        || src.spec_msb() != 0 || x64 != 0,
                    x64,
                    src.spec_msb(),
                    0,
                    if dest == Register::RIP { 0u8 } else { dest.spec_msb() },
                ) + seq![opcode] + enc_mem_base(dest, disp as int, src.spec_and7()),
            ),
    {
        let dest_msb = if dest == Register::RIP { 0 } else { dest.msb() };
        if dest_msb != 0 || src.msb() != 0 || x64 != 0 {
            self.emit_rex(x64, src.msb(), 0, dest_msb);
        }
        self.put(opcode);
        self.emit_mem_base(dest, disp, src);
        proof {
            assert(self.data@ =~= old(self).data@ + (rex_opt(
                (if dest == Register::RIP { 0u8 } else { dest.spec_msb() }) != 0 || src.spec_msb()
                    != 0 || x64 != 0,
                x64,
                src.spec_msb(),
                0,
                if dest == Register::RIP { 0u8 } else { dest.spec_msb() },
            ) + seq![opcode] + enc_mem_base(dest, disp as int, src.spec_and7())));
        }
    }

    /// `mov [dest + disp], src64`.
    pub fn emit_movq_reg_memq(&mut self, src: Register, dest: Register, disp: i32)
        requires
            old(self).data@.len() + 16 <= CODE_LIMIT,
            src != Register::RIP,
        ensures
            emits(
                *old(self),
                *final(self),
                seq![
                    rex_byte(
                        1,
                        src.spec_msb(),
                        0,
                        if dest == Register::RIP { 0u8 } else { dest.spec_msb() },
                    ),
                    0x89u8,
                ] + enc_mem_base(dest, disp as int, src.spec_and7()),
            ),
    {
        self.emit_mov_reg_membaseq(0x89, 1, src, dest, disp);
        proof {
            assert(self.data@ =~= old(self).data@ + (seq![
                rex_byte(
                    1,
                    src.spec_msb(),
                    0,
                    if dest == Register::RIP { 0u8 } else { dest.spec_msb() },
                ),
                0x89u8,
            ] + enc_mem_base(dest, disp as int, src.spec_and7())));
        }
    }

    /// `mov [dest + disp], src32`.
    pub fn emit_movl_reg_memq(&mut self, src: Register, dest: Register, disp: i32)
        requires
            old(self).data@.len() + 16 <= CODE_LIMIT,
            src != Register::RIP,
        ensures
            emits(
                *old(self),
                *final(self),
                rex_opt(
                    (if dest == Register::RIP { 0u8 } else { dest.spec_msb() }) != 0
                        || src.spec_msb() != 0,
                    0,
                    src.spec_msb(),
                    0,
                    if dest == Register::RIP { 0u8 } else { dest.spec_msb() },
                ) + seq![0x89u8] + enc_mem_base(dest, disp as int, src.spec_and7()),
            ),
    {
        self.emit_mov_reg_membaseq(0x89, 0, src, dest, disp);
    }

    /// `push imm32`.
    pub fn push_imm(&mut self, v: i64)
        requires
            old(self).data@.len() + 8 <= CODE_LIMIT,
        ensures
            emits(*old(self), *final(self), seq![0x68u8] + le32_of(low32_of_i64(v))),
    {
        self.put(0x68);
        let wide = crate::util::to_u64_2c(v);
        self.put_4((wide % 0x1_0000_0000) as u32);
        proof {
            assert(self.data@ =~= old(self).data@ + (seq![0x68u8] + le32_of(low32_of_i64(v))));
        }
    }

    /// `movzx dest32, src8`: zero-extends a byte register.
    pub fn emit_movzbl_reg_reg(&mut self, src: Register, dest: Register)
        requires
            old(self).data@.len() + 16 <= CODE_LIMIT,
            src != Register::RIP,
            dest != Register::RIP,
        ensures
            emits(
                *old(self),
                *final(self),
                rex_opt(
                    src.spec_msb() != 0 || dest.spec_msb() != 0 || src.value() >= 4,
                    0,
                    dest.spec_msb(),
                    0,
                    src.spec_msb(),
                ) + seq![0x0fu8, 0xb6u8, modrm_byte(3, dest.spec_and7(), src.spec_and7())],
            ),
    {
        if src.msb() != 0 || dest.msb() != 0 || !src.is_basic_reg() {
            self.emit_rex(0, dest.msb(), 0, src.msb());
        }
        self.put(0x0f);
        self.put(0xb6);
        self.emit_modrm(3, dest.and7(), src.and7());
        proof {
            assert(self.data@ =~= old(self).data@ + (rex_opt(
                src.spec_msb() != 0 || dest.spec_msb() != 0 || src.value() >= 4,
                0,
                dest.spec_msb(),
                0,
                src.spec_msb(),
            ) + seq![0x0fu8, 0xb6u8, modrm_byte(3, dest.spec_and7(), src.spec_and7())]));
        }
    }

    /// `setp reg` or `setnp reg`: materializes the parity flag.
    pub fn emit_setb_reg_parity(&mut self, reg: Register, parity: bool)
        requires
            old(self).data@.len() + 16 <= CODE_LIMIT,
            reg != Register::RIP,
        ensures
            emits(
                *old(self),
                *final(self),
                rex_opt(reg.value() >= 4, 0, 0, 0, reg.spec_msb()) + seq![
                    0x0fu8,
                    if parity { 0x9au8 } else { 0x9bu8 },
                    modrm_byte(3, 0, reg.spec_and7()),
                ],
            ),
    {
        if reg.msb() != 0 || !reg.is_basic_reg() {
            self.emit_rex(0, 0, 0, reg.msb());
        }
        let opcode: u8 = if parity { 0x9a } else { 0x9b };
        self.put(0x0f);
        self.put(opcode);
        self.emit_modrm(3, 0, reg.and7());
        proof {
            assert(self.data@ =~= old(self).data@ + (rex_opt(
                reg.value() >= 4,
                0,
                0,
                0,
                reg.spec_msb(),
            ) + seq![
                0x0fu8,
                if parity { 0x9au8 } else { 0x9bu8 },
                modrm_byte(3, 0, reg.spec_and7()),
            ]));
        }
    }

    /// `mov dest8, src8`: a byte-register move.
    pub fn emit_movb_reg_reg(&mut self, src: Register, dest: Register)
        requires
            old(self).data@.len() + 16 <= CODE_LIMIT,
            src != Register::RIP,
            dest != Register::RIP,
        ensures
            emits(
                *old(self),
                *final(self),
                rex_opt(
                    src.value() >= 4 || dest.value() >= 4,
                    0,
                    src.spec_msb(),
                    0,
                    dest.spec_msb(),
                ) + seq![0x88u8, modrm_byte(3, src.spec_and7(), dest.spec_and7())],
            ),
    {
        if !src.is_basic_reg() || !dest.is_basic_reg() {
            self.emit_rex(0, src.msb(), 0, dest.msb());
        }
        self.put(0x88);
        self.emit_modrm(3, src.and7(), dest.and7());
        proof {
            assert(self.data@ =~= old(self).data@ + (rex_opt(
                src.value() >= 4 || dest.value() >= 4,
                0,
                src.spec_msb(),
                0,
                dest.spec_msb(),
            ) + seq![0x88u8, modrm_byte(3, src.spec_and7(), dest.spec_and7())]));
        }
    }

    /// `setcc reg8` for the given condition.
    pub fn emit_setb_reg(&mut self, op: CondCode, reg: Register)
        requires
            old(self).data@.len() + 16 <= CODE_LIMIT,
            reg != Register::RIP,
        ensures
            emits(
                *old(self),
                *final(self),
                rex_opt(reg.value() >= 4, 0, 0, 0, reg.spec_msb()) + seq![
                    0x0fu8,
                    (0x90 + op.cc_nibble()) as u8,
                    modrm_byte(3, 0, reg.spec_and7()),
                ],
            ),
    {
        if reg.msb() != 0 || !reg.is_basic_reg() {
            self.emit_rex(0, 0, 0, reg.msb());
        }
        self.put(0x0f);
        self.put(0x90 + op.nibble());
        self.emit_modrm(3, 0, reg.and7());
        proof {
            assert(self.data@ =~= old(self).data@ + (rex_opt(
                reg.value() >= 4,
                0,
                0,
                0,
                reg.spec_msb(),
            ) + seq![
                0x0fu8,
                (0x90 + op.cc_nibble()) as u8,
                modrm_byte(3, 0, reg.spec_and7()),
            ]));
        }
    }

    /// `lea dest64, [mem]`.
    pub fn lea(&mut self, dest: Register, src: Membase)
        requires
            old(self).data@.len() + 16 <= CODE_LIMIT,
            dest != Register::RIP,
            src.wf(),
        ensures
            emits(
                *old(self),
                *final(self),
                enc_rex_membase(1, dest, src) + seq![0x8du8] + enc_membase(
                    src,
                    dest.spec_and7(),
                ),
            ),
    {
        self.emit_rex_membase(1, dest, &src);
        self.put(0x8d);
        self.emit_membase(dest, &src);
        proof {
            assert(self.data@ =~= old(self).data@ + (enc_rex_membase(1, dest, src)
                + seq![0x8du8] + enc_membase(src, dest.spec_and7())));
        }
    }

    /// A register-to-register ALU operation with the given opcode: the REX
    /// prefix appears for a 64-bit width or an extended register.
    pub fn emit_alu_reg_reg(&mut self, x64: u8, opcode: u8, src: Register, dest: Register)
        requires
            old(self).data@.len() + 16 <= CODE_LIMIT,
            src != Register::RIP,
            dest != Register::RIP,
            x64 <= 1,
        ensures
            emits(
                *old(self),
                *final(self),
                rex_opt(
                    x64 != 0 || src.spec_msb() != 0 || dest.spec_msb() != 0,
                    x64,
                    src.spec_msb(),
                    0,
                    dest.spec_msb(),
                ) + seq![opcode, modrm_byte(3, src.spec_and7(), dest.spec_and7())],
            ),
    {
        if x64 != 0 || src.msb() != 0 || dest.msb() != 0 {
            self.emit_rex(x64, src.msb(), 0, dest.msb());
        }
        self.put(opcode);
        self.emit_modrm(3, src.and7(), dest.and7());
        proof {
            assert(self.data@ =~= old(self).data@ + (rex_opt(
                x64 != 0 || src.spec_msb() != 0 || dest.spec_msb() != 0,
                x64,
                src.spec_msb(),
                0,
                dest.spec_msb(),
            ) + seq![opcode, modrm_byte(3, src.spec_and7(), dest.spec_and7())]));
        }
    }

    /// `cmp dest, src` at the given width.
    pub fn emit_cmp_reg_reg(&mut self, x64: u8, src: Register, dest: Register)
        requires
            old(self).data@.len() + 16 <= CODE_LIMIT,
            src != Register::RIP,
            dest != Register::RIP,
            x64 <= 1,
        ensures
            emits(
                *old(self),
                *final(self),
                rex_opt(
                    x64 != 0 || src.spec_msb() != 0 || dest.spec_msb() != 0,
                    x64,
                    src.spec_msb(),
                    0,
                    dest.spec_msb(),
                ) + seq![0x39u8, modrm_byte(3, src.spec_and7(), dest.spec_and7())],
            ),
    {
        self.emit_alu_reg_reg(x64, 0x39, src, dest);
    }

    /// `add dest, src` at the given width.
    pub fn emit_add_reg_reg(&mut self, x64: u8, src: Register, dest: Register)
        requires
            old(self).data@.len() + 16 <= CODE_LIMIT,
            src != Register::RIP,
            dest != Register::RIP,
            x64 <= 1,
        ensures
            emits(
                *old(self),
                *final(self),
                rex_opt(
                    x64 != 0 || src.spec_msb() != 0 || dest.spec_msb() != 0,
                    x64,
                    src.spec_msb(),
                    0,
                    dest.spec_msb(),
                ) + seq![0x01u8, modrm_byte(3, src.spec_and7(), dest.spec_and7())],
            ),
    {
        self.emit_alu_reg_reg(x64, 0x01, src, dest);
    }

    /// `sub dest, src` at the given width.
    pub fn emit_sub_reg_reg(&mut self, x64: u8, src: Register, dest: Register)
        requires
            old(self).data@.len() + 16 <= CODE_LIMIT,
            src != Register::RIP,
            dest != Register::RIP,
            x64 <= 1,
        ensures
            emits(
                *old(self),
                *final(self),
                rex_opt(
                    x64 != 0 || src.spec_msb() != 0 || dest.spec_msb() != 0,
                    x64,
                    src.spec_msb(),
                    0,
                    dest.spec_msb(),
                ) + seq![0x29u8, modrm_byte(3, src.spec_and7(), dest.spec_and7())],
            ),
    {
        self.emit_alu_reg_reg(x64, 0x29, src, dest);
    }

    /// `or dest, src` at the given width.
    pub fn emit_or_reg_reg(&mut self, x64: u8, src: Register, dest: Register)
        requires
            old(self).data@.len() + 16 <= CODE_LIMIT,
            src != Register::RIP,
            dest != Register::RIP,
            x64 <= 1,
        ensures
            emits(
                *old(self),
                *final(self),
                rex_opt(
                    x64 != 0 || src.spec_msb() != 0 || dest.spec_msb() != 0,
                    x64,
                    src.spec_msb(),
                    0,
                    dest.spec_msb(),
                ) + seq![0x09u8, modrm_byte(3, src.spec_and7(), dest.spec_and7())],
            ),
    {
        self.emit_alu_reg_reg(x64, 0x09, src, dest);
    }

    /// `and dest, src` at the given width.
    pub fn emit_and_reg_reg(&mut self, x64: u8, src: Register, dest: Register)
        requires
            old(self).data@.len() + 16 <= CODE_LIMIT,
            src != Register::RIP,
            dest != Register::RIP,
            x64 <= 1,
        ensures
            emits(
                *old(self),
                *final(self),
                rex_opt(
                    x64 != 0 || src.spec_msb() != 0 || dest.spec_msb() != 0,
                    x64,
                    src.spec_msb(),
                    0,
                    dest.spec_msb(),
                ) + seq![0x21u8, modrm_byte(3, src.spec_and7(), dest.spec_and7())],
            ),
    {
        self.emit_alu_reg_reg(x64, 0x21, src, dest);
    }

    /// `xor dest, src` at the given width.
    pub fn emit_xor_reg_reg(&mut self, x64: u8, src: Register, dest: Register)
        requires
            old(self).data@.len() + 16 <= CODE_LIMIT,
            src != Register::RIP,
            dest != Register::RIP,
            x64 <= 1,
        ensures
            emits(
                *old(self),
                *final(self),
                rex_opt(
                    x64 != 0 || src.spec_msb() != 0 || dest.spec_msb() != 0,
                    x64,
                    src.spec_msb(),
                    0,
                    dest.spec_msb(),
                ) + seq![0x31u8, modrm_byte(3, src.spec_and7(), dest.spec_and7())],
            ),
    {
        self.emit_alu_reg_reg(x64, 0x31, src, dest);
    }

    /// `mov dest, src` at the given width.
    pub fn emit_mov_reg_reg(&mut self, x64: u8, src: Register, dest: Register)
        requires
            old(self).data@.len() + 16 <= CODE_LIMIT,
            src != Register::RIP,
            dest != Register::RIP,
            x64 <= 1,
        ensures
            emits(
                *old(self),
                *final(self),
                rex_opt(
                    x64 != 0 || src.spec_msb() != 0 || dest.spec_msb() != 0,
                    x64,
                    src.spec_msb(),
                    0,
                    dest.spec_msb(),
                ) + seq![0x89u8, modrm_byte(3, src.spec_and7(), dest.spec_and7())],
            ),
    {
        if x64 != 0 || src.msb() != 0 || dest.msb() != 0 {
            self.emit_rex(x64, src.msb(), 0, dest.msb());
        }
        self.put(0x89);
        self.emit_modrm(3, src.and7(), dest.and7());
        proof {
            assert(self.data@ =~= old(self).data@ + (rex_opt(
                x64 != 0 || src.spec_msb() != 0 || dest.spec_msb() != 0,
                x64,
                src.spec_msb(),
                0,
                dest.spec_msb(),
            ) + seq![0x89u8, modrm_byte(3, src.spec_and7(), dest.spec_and7())]));
        }
    }

    /// `push reg`.
    pub fn emit_push_reg(&mut self, reg: Register)
        requires
            old(self).data@.len() + 16 <= CODE_LIMIT,
            reg != Register::RIP,
        ensures
            emits(
                *old(self),
                *final(self),
                rex_opt(reg.spec_msb() != 0, 0, 0, 0, 1) + seq![(0x50 + reg.spec_and7()) as u8],
            ),
    {
        if reg.msb() != 0 {
            self.emit_rex(0, 0, 0, 1);
        }
        self.put(0x50 + reg.and7());
        proof {
            assert(self.data@ =~= old(self).data@ + (rex_opt(reg.spec_msb() != 0, 0, 0, 0, 1)
                + seq![(0x50 + reg.spec_and7()) as u8]));
        }
    }

    /// `pop reg`.
    pub fn emit_pop_reg(&mut self, reg: Register)
        requires
            old(self).data@.len() + 16 <= CODE_LIMIT,
            reg != Register::RIP,
        ensures
            emits(
                *old(self),
                *final(self),
                rex_opt(reg.spec_msb() != 0, 0, 0, 0, 1) + seq![(0x58 + reg.spec_and7()) as u8],
            ),
    {
        if reg.msb() != 0 {
            self.emit_rex(0, 0, 0, 1);
        }
        self.put(0x58 + reg.and7());
        proof {
            assert(self.data@ =~= old(self).data@ + (rex_opt(reg.spec_msb() != 0, 0, 0, 0, 1)
                + seq![(0x58 + reg.spec_and7()) as u8]));
        }
    }

    /// The function prologue: `push RBP; mov RBP, RSP`.
    pub fn emit_prolog(&mut self)
        requires
            old(self).data@.len() + 24 <= CODE_LIMIT,
        ensures
            emits(*old(self), *final(self), seq![0x55u8, 0x48u8, 0x89u8, 0xe5u8]),
    {
        self.emit_push_reg(Register::RBP);
        self.emit_mov_reg_reg(1, Register::RSP, Register::RBP);
        proof {
            assert(self.data@ =~= old(self).data@ + seq![0x55u8, 0x48u8, 0x89u8, 0xe5u8]);
        }
    }

    /// The function epilogue's register restore: `pop RBP`.
    pub fn emit_epilog(&mut self)
        requires
            old(self).data@.len() + 16 <= CODE_LIMIT,
        ensures
            emits(*old(self), *final(self), seq![0x5du8]),
    {
        self.emit_pop_reg(Register::RBP);
        proof {
            assert(self.data@ =~= old(self).data@ + seq![0x5du8]);
        }
    }

    /// `ret`.
    pub fn ret(&mut self)
        requires
            old(self).data@.len() + 16 <= CODE_LIMIT,
        ensures
            emits(*old(self), *final(self), seq![0xc3u8]),
    {
        self.put(0xc3);
    }

    /// `call rel32`: a relative call to an intra-buffer target.
    pub fn emit_relative_call(&mut self, offset: i32)
        requires
            old(self).data@.len() + 16 <= CODE_LIMIT,
        ensures
            emits(
                *old(self),
                *final(self),
                seq![0xe8u8] + le32_of(u32_of_i32(offset as int)),
            ),
    {
        self.put(0xe8);
        self.put_4(crate::util::to_u32_2c(offset));
        proof {
            assert(self.data@ =~= old(self).data@ + (seq![0xe8u8] + le32_of(
                u32_of_i32(offset as int),
            )));
        }
    }

    /// `call reg`: an indirect call through a register.
    pub fn emit_call_reg(&mut self, dest: Register)
        requires
            old(self).data@.len() + 16 <= CODE_LIMIT,
            dest != Register::RIP,
        ensures
            emits(
                *old(self),
                *final(self),
                rex_opt(dest.spec_msb() != 0, 0, 0, 0, dest.spec_msb()) + seq![
                    0xffu8,
                    modrm_byte(3, 2, dest.spec_and7()),
                ],
            ),
    {
        if dest.msb() != 0 {
            self.emit_rex(0, 0, 0, dest.msb());
        }
        self.put(0xff);
        self.emit_modrm(3, 2, dest.and7());
        proof {
            assert(self.data@ =~= old(self).data@ + (rex_opt(
                dest.spec_msb() != 0,
                0,
                0,
                0,
                dest.spec_msb(),
            ) + seq![0xffu8, modrm_byte(3, 2, dest.spec_and7())]));
        }
    }

    /// `jmp reg`: an indirect jump through a register.
    pub fn emit_jmp_reg(&mut self, reg: Register)
        requires
            old(self).data@.len() + 16 <= CODE_LIMIT,
            reg != Register::RIP,
        ensures
            emits(
                *old(self),
                *final(self),
                rex_opt(reg.spec_msb() != 0, 0, 0, 0, reg.spec_msb()) + seq![
                    0xffu8,
                    modrm_byte(3, 4, reg.spec_and7()),
                ],
            ),
    {
        if reg.msb() != 0 {
            self.emit_rex(0, 0, 0, reg.msb());
        }
        self.put(0xff);
        self.emit_modrm(3, 4, reg.and7());
        proof {
            assert(self.data@ =~= old(self).data@ + (rex_opt(
                reg.spec_msb() != 0,
                0,
                0,
                0,
                reg.spec_msb(),
            ) + seq![0xffu8, modrm_byte(3, 4, reg.spec_and7())]));
        }
    }

    /// `mov reg32, imm32`.
    pub fn emit_movl_imm_reg(&mut self, imm: i32, reg: Register)
        requires
            old(self).data@.len() + 16 <= CODE_LIMIT,
            reg != Register::RIP,
        ensures
            emits(
                *old(self),
                *final(self),
                rex_opt(reg.spec_msb() != 0, 0, 0, 0, 1) + seq![(0xb8 + reg.spec_and7()) as u8]
                    + le32_of(u32_of_i32(imm as int)),
            ),
    {
        if reg.msb() != 0 {
            self.emit_rex(0, 0, 0, 1);
        }
        self.put(0xb8 + reg.and7());
        self.put_4(crate::util::to_u32_2c(imm));
        proof {
            assert(self.data@ =~= old(self).data@ + (rex_opt(reg.spec_msb() != 0, 0, 0, 0, 1)
                + seq![(0xb8 + reg.spec_and7()) as u8] + le32_of(u32_of_i32(imm as int))));
        }
    }

    /// `movabs reg64, imm64`.
    pub fn emit_movq_imm64_reg(&mut self, imm: i64, reg: Register)
        requires
            old(self).data@.len() + 16 <= CODE_LIMIT,
            reg != Register::RIP,
        ensures
            emits(
                *old(self),
                *final(self),
                seq![rex_byte(1, 0, 0, reg.spec_msb()), (0xb8 + reg.spec_and7()) as u8]
                    + le64_of(u64_of_i64(imm as int)),
            ),
    {
        self.emit_rex(1, 0, 0, reg.msb());
        self.put(0xb8 + reg.and7());
        self.put_8(crate::util::to_u64_2c(imm));
        proof {
            assert(self.data@ =~= old(self).data@ + (seq![
                rex_byte(1, 0, 0, reg.spec_msb()),
                (0xb8 + reg.spec_and7()) as u8,
            ] + le64_of(u64_of_i64(imm as int))));
        }
    }

    /// `mov reg64, imm32` (sign-extended 32-bit immediate form).
    pub fn emit_movq_imm_reg(&mut self, imm: i32, reg: Register)
        requires
            old(self).data@.len() + 16 <= CODE_LIMIT,
            reg != Register::RIP,
        ensures
            emits(
                *old(self),
                *final(self),
                seq![
                    rex_byte(1, 0, 0, reg.spec_msb()),
                    0xc7u8,
                    modrm_byte(3, 0, reg.spec_and7()),
                ] + le32_of(u32_of_i32(imm as int)),
            ),
    {
        self.emit_rex(1, 0, 0, reg.msb());
        self.put(0xc7);
        self.emit_modrm(3, 0, reg.and7());
        self.put_4(crate::util::to_u32_2c(imm));
        proof {
            assert(self.data@ =~= old(self).data@ + (seq![
                rex_byte(1, 0, 0, reg.spec_msb()),
                0xc7u8,
                modrm_byte(3, 0, reg.spec_and7()),
            ] + le32_of(u32_of_i32(imm as int))));
        }
    }

    /// Materializes an integer constant: `mov reg32, imm32` for the 8- and
    /// 32-bit widths (the immediate truncated to 32 bits), `movabs` for the
    /// 64-bit widths.
    pub fn load_int(&mut self, mode: MachineMode, dest: Register, imm: i64)
        requires
            old(self).data@.len() + 16 <= CODE_LIMIT,
            dest != Register::RIP,
            !mode.spec_is_float(),
        ensures
            emits(
                *old(self),
                *final(self),
                if mode == MachineMode::Int8 || mode == MachineMode::Int32 {
                    rex_opt(dest.spec_msb() != 0, 0, 0, 0, 1) + seq![
                        (0xb8 + dest.spec_and7()) as u8,
                    ] + le32_of(low32_of_i64(imm))
                } else {
                    seq![rex_byte(1, 0, 0, dest.spec_msb()), (0xb8 + dest.spec_and7()) as u8]
                        + le64_of(u64_of_i64(imm as int))
                },
            ),
    {
        match mode {
            MachineMode::Int8 | MachineMode::Int32 => {
                if dest.msb() != 0 {
                    self.emit_rex(0, 0, 0, 1);
                }
                self.put(0xb8 + dest.and7());
                let wide = crate::util::to_u64_2c(imm);
                self.put_4((wide % 0x1_0000_0000) as u32);
                proof {
                    assert(self.data@ =~= old(self).data@ + (rex_opt(
                        dest.spec_msb() != 0,
                        0,
                        0,
                        0,
                        1,
                    ) + seq![(0xb8 + dest.spec_and7()) as u8] + le32_of(low32_of_i64(imm))));
                }
            },
            _ => {
                self.emit_movq_imm64_reg(imm, dest);
            },
        }
    }

    /// `imul dest, src`.
    pub fn emit_imul_reg_reg(&mut self, x64: u8, src: Register, dest: Register)
        requires
            old(self).data@.len() + 16 <= CODE_LIMIT,
            src != Register::RIP,
            dest != Register::RIP,
            x64 <= 1,
        ensures
            emits(
                *old(self),
                *final(self),
                rex_opt(
                    src.spec_msb() != 0 || dest.spec_msb() != 0 || x64 != 0,
                    x64,
                    dest.spec_msb(),
                    0,
                    src.spec_msb(),
                ) + seq![0x0fu8, 0xafu8, modrm_byte(3, dest.spec_and7(), src.spec_and7())],
            ),
    {
        if src.msb() != 0 || dest.msb() != 0 || x64 != 0 {
            self.emit_rex(x64, dest.msb(), 0, src.msb());
        }
        self.put(0x0f);
        self.put(0xaf);
        self.emit_modrm(3, dest.and7(), src.and7());
        proof {
            assert(self.data@ =~= old(self).data@ + (rex_opt(
                src.spec_msb() != 0 || dest.spec_msb() != 0 || x64 != 0,
                x64,
                dest.spec_msb(),
                0,
                src.spec_msb(),
            ) + seq![0x0fu8, 0xafu8, modrm_byte(3, dest.spec_and7(), src.spec_and7())]));
        }
    }

    /// `idiv reg`: signed divide of RDX:RAX by the register.
    pub fn emit_idiv_reg_reg(&mut self, x64: u8, reg: Register)
        requires
            old(self).data@.len() + 16 <= CODE_LIMIT,
            reg != Register::RIP,
            x64 <= 1,
        ensures
            emits(
                *old(self),
                *final(self),
                rex_opt(reg.spec_msb() != 0 || x64 != 0, x64, 0, 0, reg.spec_msb()) + seq![
                    0xf7u8,
                    modrm_byte(3, 7, reg.spec_and7()),
                ],
            ),
    {
        if reg.msb() != 0 || x64 != 0 {
            self.emit_rex(x64, 0, 0, reg.msb());
        }
        self.put(0xf7);
        self.emit_modrm(3, 7, reg.and7());
        proof {
            assert(self.data@ =~= old(self).data@ + (rex_opt(
                reg.spec_msb() != 0 || x64 != 0,
                x64,
                0,
                0,
                reg.spec_msb(),
            ) + seq![0xf7u8, modrm_byte(3, 7, reg.spec_and7())]));
        }
    }

    /// `cdq`: sign-extends EAX into EDX.
    pub fn emit_cdq(&mut self)
        requires
            old(self).data@.len() + 16 <= CODE_LIMIT,
        ensures
            emits(*old(self), *final(self), seq![0x99u8]),
    {
        self.put(0x99);
    }

    /// `cqo`: sign-extends RAX into RDX.
    pub fn emit_cqo(&mut self)
        requires
            old(self).data@.len() + 16 <= CODE_LIMIT,
        ensures
            emits(*old(self), *final(self), seq![0x48u8, 0x99u8]),
    {
        self.emit_rex(1, 0, 0, 0);
        self.put(0x99);
        proof {
            assert(self.data@ =~= old(self).data@ + seq![0x48u8, 0x99u8]);
        }
    }

    /// `test op2_32, op1_32`.
    pub fn emit_testl_reg_reg(&mut self, op1: Register, op2: Register)
        requires
            old(self).data@.len() + 16 <= CODE_LIMIT,
            op1 != Register::RIP,
            op2 != Register::RIP,
        ensures
            emits(
                *old(self),
                *final(self),
                rex_opt(
                    op1.spec_msb() != 0 || op2.spec_msb() != 0,
                    0,
                    op1.spec_msb(),
                    0,
                    op2.spec_msb(),
                ) + seq![0x85u8, modrm_byte(3, op1.spec_and7(), op2.spec_and7())],
            ),
    {
        if op1.msb() != 0 || op2.msb() != 0 {
            self.emit_rex(0, op1.msb(), 0, op2.msb());
        }
        self.put(0x85);
        self.emit_modrm(3, op1.and7(), op2.and7());
        proof {
            assert(self.data@ =~= old(self).data@ + (rex_opt(
                op1.spec_msb() != 0 || op2.spec_msb() != 0,
                0,
                op1.spec_msb(),
                0,
                op2.spec_msb(),
            ) + seq![0x85u8, modrm_byte(3, op1.spec_and7(), op2.spec_and7())]));
        }
    }

    /// `movsxd dest64, src32`: sign-extends a 32-bit register.
    pub fn emit_movsx(&mut self, src: Register, dest: Register)
        requires
            old(self).data@.len() + 16 <= CODE_LIMIT,
            src != Register::RIP,
            dest != Register::RIP,
        ensures
            emits(
                *old(self),
                *final(self),
                seq![
                    rex_byte(1, dest.spec_msb(), 0, src.spec_msb()),
                    0x63u8,
                    modrm_byte(3, dest.spec_and7(), src.spec_and7()),
                ],
            ),
    {
        self.emit_rex(1, dest.msb(), 0, src.msb());
        self.put(0x63);
        self.emit_modrm(3, dest.and7(), src.and7());
        proof {
            assert(self.data@ =~= old(self).data@ + seq![
                rex_byte(1, dest.spec_msb(), 0, src.spec_msb()),
                0x63u8,
                modrm_byte(3, dest.spec_and7(), src.spec_and7()),
            ]);
        }
    }

    /// `movzx dest, src8` with an explicit width bit.
    pub fn emit_movzx_byte(&mut self, x64: u8, src: Register, dest: Register)
        requires
            old(self).data@.len() + 16 <= CODE_LIMIT,
            src != Register::RIP,
            dest != Register::RIP,
            x64 <= 1,
        ensures
            emits(
                *old(self),
                *final(self),
                rex_opt(
                    src.spec_msb() != 0 || dest.spec_msb() != 0 || x64 != 0,
                    x64,
                    dest.spec_msb(),
                    0,
                    src.spec_msb(),
                ) + seq![0x0fu8, 0xb6u8, modrm_byte(3, dest.spec_and7(), src.spec_and7())],
            ),
    {
        if src.msb() != 0 || dest.msb() != 0 || x64 != 0 {
            self.emit_rex(x64, dest.msb(), 0, src.msb());
        }
        self.put(0x0f);
        self.put(0xb6);
        self.emit_modrm(3, dest.and7(), src.and7());
        proof {
            assert(self.data@ =~= old(self).data@ + (rex_opt(
                src.spec_msb() != 0 || dest.spec_msb() != 0 || x64 != 0,
                x64,
                dest.spec_msb(),
                0,
                src.spec_msb(),
            ) + seq![0x0fu8, 0xb6u8, modrm_byte(3, dest.spec_and7(), src.spec_and7())]));
        }
    }

    /// `cmovcc dest, src`.
    pub fn cmov(&mut self, x64: u8, dest: Register, src: Register, cond: CondCode)
        requires
            old(self).data@.len() + 16 <= CODE_LIMIT,
            src != Register::RIP,
            dest != Register::RIP,
            x64 <= 1,
        ensures
            emits(
                *old(self),
                *final(self),
                rex_opt(
                    src.spec_msb() != 0 || dest.spec_msb() != 0 || x64 != 0,
                    x64,
                    dest.spec_msb(),
                    0,
                    src.spec_msb(),
                ) + seq![
                    0x0fu8,
                    (0x40 + cond.cc_nibble()) as u8,
                    modrm_byte(3, dest.spec_and7(), src.spec_and7()),
                ],
            ),
    {
        if src.msb() != 0 || dest.msb() != 0 || x64 != 0 {
            self.emit_rex(x64, dest.msb(), 0, src.msb());
        }
        self.put(0x0f);
        self.put(0x40 + cond.nibble());
        self.emit_modrm(3, dest.and7(), src.and7());
        proof {
            assert(self.data@ =~= old(self).data@ + (rex_opt(
                src.spec_msb() != 0 || dest.spec_msb() != 0 || x64 != 0,
                x64,
                dest.spec_msb(),
                0,
                src.spec_msb(),
            ) + seq![
                0x0fu8,
                (0x40 + cond.cc_nibble()) as u8,
                modrm_byte(3, dest.spec_and7(), src.spec_and7()),
            ]));
        }
    }
}

impl Sink {
    /// A one-operand ALU instruction (`neg`, `not`) on a register.
    pub fn emit_alul_reg(&mut self, opcode: u8, modrm_reg: u8, x64: u8, reg: Register)
        requires
            old(self).data@.len() + 16 <= CODE_LIMIT,
            reg != Register::RIP,
            x64 <= 1,
            modrm_reg < 8,
        ensures
            emits(
                *old(self),
                *final(self),
                rex_opt(reg.spec_msb() != 0 || x64 != 0, x64, 0, 0, reg.spec_msb()) + seq![
                    opcode,
                    modrm_byte(3, modrm_reg, reg.spec_and7()),
                ],
            ),
    {
        if reg.msb() != 0 || x64 != 0 {
            self.emit_rex(x64, 0, 0, reg.msb());
        }
        self.put(opcode);
        self.emit_modrm(3, modrm_reg, reg.and7());
        proof {
            assert(self.data@ =~= old(self).data@ + (rex_opt(
                reg.spec_msb() != 0 || x64 != 0,
                x64,
                0,
                0,
                reg.spec_msb(),
            ) + seq![opcode, modrm_byte(3, modrm_reg, reg.spec_and7())]));
        }
    }

    /// `neg reg`.
    pub fn emit_neg_reg(&mut self, x64: u8, reg: Register)
        requires
            old(self).data@.len() + 16 <= CODE_LIMIT,
            reg != Register::RIP,
            x64 <= 1,
        ensures
            emits(
                *old(self),
                *final(self),
                rex_opt(reg.spec_msb() != 0 || x64 != 0, x64, 0, 0, reg.spec_msb()) + seq![
                    0xf7u8,
                    modrm_byte(3, 3, reg.spec_and7()),
                ],
            ),
    {
        self.emit_alul_reg(0xf7, 3, x64, reg);
    }

    /// `not reg`.
    pub fn emit_not_reg(&mut self, x64: u8, reg: Register)
        requires
            old(self).data@.len() + 16 <= CODE_LIMIT,
            reg != Register::RIP,
            x64 <= 1,
        ensures
            emits(
                *old(self),
                *final(self),
                rex_opt(reg.spec_msb() != 0 || x64 != 0, x64, 0, 0, reg.spec_msb()) + seq![
                    0xf7u8,
                    modrm_byte(3, 2, reg.spec_and7()),
                ],
            ),
    {
        self.emit_alul_reg(0xf7, 2, x64, reg);
    }

    /// `not reg8`.
    pub fn emit_not_reg_byte(&mut self, reg: Register)
        requires
            old(self).data@.len() + 16 <= CODE_LIMIT,
            reg != Register::RIP,
        ensures
            emits(
                *old(self),
                *final(self),
                rex_opt(reg.spec_msb() != 0, 0, 0, 0, reg.spec_msb()) + seq![
                    0xf6u8,
                    modrm_byte(3, 2, reg.spec_and7()),
                ],
            ),
    {
        self.emit_alul_reg(0xf6, 2, 0, reg);
    }

    /// An ALU operation with an 8-bit immediate on a byte register, with the
    /// short RAX form when the destination is RAX.
    pub fn emit_alub_imm_reg(&mut self, opcode: u8, rax_opcode: u8, modrm_reg: u8, imm: u8,
        dest: Register)
        requires
            old(self).data@.len() + 16 <= CODE_LIMIT,
            dest != Register::RIP,
            modrm_reg < 8,
        ensures
            emits(
                *old(self),
                *final(self),
                if dest == Register::RAX {
                    seq![rax_opcode, imm]
                } else {
                    rex_opt(dest.spec_msb() != 0 || dest.value() >= 4, 0, 0, 0, dest.spec_msb())
                        + seq![opcode, modrm_byte(3, modrm_reg, dest.spec_and7()), imm]
                },
            ),
    {
        if dest == Register::RAX {
            self.put(rax_opcode);
            self.put(imm);
            proof {
                assert(self.data@ =~= old(self).data@ + seq![rax_opcode, imm]);
            }
        } else {
            if dest.msb() != 0 || !dest.is_basic_reg() {
                self.emit_rex(0, 0, 0, dest.msb());
            }
            self.put(opcode);
            self.emit_modrm(3, modrm_reg, dest.and7());
            self.put(imm);
            proof {
                assert(self.data@ =~= old(self).data@ + (rex_opt(
                    dest.spec_msb() != 0 || dest.value() >= 4,
                    0,
                    0,
                    0,
                    dest.spec_msb(),
                ) + seq![opcode, modrm_byte(3, modrm_reg, dest.spec_and7()), imm]));
            }
        }
    }

    /// `xor dest8, imm8`.
    pub fn emit_xorb_imm_reg(&mut self, imm: u8, dest: Register)
        requires
            old(self).data@.len() + 16 <= CODE_LIMIT,
            dest != Register::RIP,
        ensures
            emits(
                *old(self),
                *final(self),
                if dest == Register::RAX {
                    seq![0x34u8, imm]
                } else {
                    rex_opt(dest.spec_msb() != 0 || dest.value() >= 4, 0, 0, 0, dest.spec_msb())
                        + seq![0x80u8, modrm_byte(3, 6, dest.spec_and7()), imm]
                },
            ),
    {
        self.emit_alub_imm_reg(0x80, 0x34, 6, imm, dest);
    }

    /// `and dest8, imm8`.
    pub fn emit_andb_imm_reg(&mut self, imm: u8, dest: Register)
        requires
            old(self).data@.len() + 16 <= CODE_LIMIT,
            dest != Register::RIP,
        ensures
            emits(
                *old(self),
                *final(self),
                if dest == Register::RAX {
                    seq![0x24u8, imm]
                } else {
                    rex_opt(dest.spec_msb() != 0 || dest.value() >= 4, 0, 0, 0, dest.spec_msb())
                        + seq![0x80u8, modrm_byte(3, 4, dest.spec_and7()), imm]
                },
            ),
    {
        self.emit_alub_imm_reg(0x80, 0x24, 4, imm, dest);
    }

    /// `sub [base], imm8` at the given width, mode-00 form.
    pub fn emit_sub_imm_membase(&mut self, mode: MachineMode, base: Register, imm: u8)
        requires
            old(self).data@.len() + 16 <= CODE_LIMIT,
            base != Register::RIP,
            !mode.spec_is_float(),
        ensures
            emits(
                *old(self),
                *final(self),
                rex_opt(
                    mode.spec_x64() != 0 || base.spec_msb() != 0,
                    mode.spec_x64(),
                    0,
                    0,
                    base.spec_msb(),
                ) + seq![
                    if mode == MachineMode::Int8 { 0x80u8 } else { 0x83u8 },
                    modrm_byte(0, 5, base.spec_and7()),
                    imm,
                ],
            ),
    {
        let (x64, opcode): (u8, u8) = match mode {
            MachineMode::Int64 | MachineMode::Ptr => (1, 0x83),
            MachineMode::Int32 => (0, 0x83),
            MachineMode::Int8 => (0, 0x80),
            _ => unreached(),
        };
        if x64 != 0 || base.msb() != 0 {
            self.emit_rex(x64, 0, 0, base.msb());
        }
        self.put(opcode);
        self.emit_modrm(0, 5, base.and7());
        self.put(imm);
        proof {
            assert(self.data@ =~= old(self).data@ + (rex_opt(
                mode.spec_x64() != 0 || base.spec_msb() != 0,
                mode.spec_x64(),
                0,
                0,
                base.spec_msb(),
            ) + seq![
                if mode == MachineMode::Int8 { 0x80u8 } else { 0x83u8 },
                modrm_byte(0, 5, base.spec_and7()),
                imm,
            ]));
        }
    }

    /// The bytes of an ALU operation with a 32-bit immediate: the sign-
    /// extended imm8 form when the immediate fits, the short RAX form for
    /// RAX, the general imm32 form otherwise.
    pub fn emit_aluq_imm_reg(&mut self, x64: u8, imm: i32, reg: Register, rax_opcode: u8,
        modrm_reg: u8)
        requires
            old(self).data@.len() + 16 <= CODE_LIMIT,
            reg != Register::RIP,
            x64 <= 1,
            modrm_reg < 8,
        ensures
            emits(
                *old(self),
                *final(self),
                rex_opt(x64 != 0 || reg.spec_msb() != 0, x64, 0, 0, reg.spec_msb()) + (if -128
                    <= imm < 128 {
                    seq![0x83u8, modrm_byte(3, modrm_reg, reg.spec_and7()), u8_of_i8(imm as int)]
                } else if reg == Register::RAX {
                    seq![rax_opcode] + le32_of(u32_of_i32(imm as int))
                } else {
                    seq![0x81u8, modrm_byte(3, modrm_reg, reg.spec_and7())] + le32_of(
                        u32_of_i32(imm as int),
                    )
                }),
            ),
    {
        if x64 != 0 || reg.msb() != 0 {
            self.emit_rex(x64, 0, 0, reg.msb());
        }
        if crate::util::fits_i8(imm) {
            self.put(0x83);
            self.emit_modrm(3, modrm_reg, reg.and7());
            self.put(crate::util::to_u8_2c(imm));
        } else if reg == Register::RAX {
            self.put(rax_opcode);
            self.put_4(crate::util::to_u32_2c(imm));
        } else {
            self.put(0x81);
            self.emit_modrm(3, modrm_reg, reg.and7());
            self.put_4(crate::util::to_u32_2c(imm));
        }
        proof {
            assert(self.data@ =~= old(self).data@ + (rex_opt(
                x64 != 0 || reg.spec_msb() != 0,
                x64,
                0,
                0,
                reg.spec_msb(),
            ) + (if -128 <= imm < 128 {
                seq![0x83u8, modrm_byte(3, modrm_reg, reg.spec_and7()), u8_of_i8(imm as int)]
            } else if reg == Register::RAX {
                seq![rax_opcode] + le32_of(u32_of_i32(imm as int))
            } else {
                seq![0x81u8, modrm_byte(3, modrm_reg, reg.spec_and7())] + le32_of(
                    u32_of_i32(imm as int),
                )
            })));
        }
    }

    /// `cmp reg, imm32` at the given width.
    pub fn emit_cmp_imm_reg(&mut self, mode: MachineMode, imm: i32, reg: Register)
        requires
            old(self).data@.len() + 16 <= CODE_LIMIT,
            reg != Register::RIP,
            !mode.spec_is_float(),
        ensures
            emits(
                *old(self),
                *final(self),
                rex_opt(
                    mode.spec_x64() != 0 || reg.spec_msb() != 0,
                    mode.spec_x64(),
                    0,
                    0,
                    reg.spec_msb(),
                ) + (if -128 <= imm < 128 {
                    seq![0x83u8, modrm_byte(3, 7, reg.spec_and7()), u8_of_i8(imm as int)]
                } else if reg == Register::RAX {
                    seq![0x3du8] + le32_of(u32_of_i32(imm as int))
                } else {
                    seq![0x81u8, modrm_byte(3, 7, reg.spec_and7())] + le32_of(
                        u32_of_i32(imm as int),
                    )
                }),
            ),
    {
        let x64: u8 = match mode {
            MachineMode::Int8 | MachineMode::Int32 => 0,
            MachineMode::Int64 | MachineMode::Ptr => 1,
            _ => unreached(),
        };
        self.emit_aluq_imm_reg(x64, imm, reg, 0x3d, 7);
    }

    /// `sub reg64, imm32`.
    pub fn emit_subq_imm_reg(&mut self, imm: i32, reg: Register)
        requires
            old(self).data@.len() + 16 <= CODE_LIMIT,
            reg != Register::RIP,
        ensures
            emits(
                *old(self),
                *final(self),
                seq![rex_byte(1, 0, 0, reg.spec_msb())] + (if -128 <= imm < 128 {
                    seq![0x83u8, modrm_byte(3, 5, reg.spec_and7()), u8_of_i8(imm as int)]
                } else if reg == Register::RAX {
                    seq![0x2du8] + le32_of(u32_of_i32(imm as int))
                } else {
                    seq![0x81u8, modrm_byte(3, 5, reg.spec_and7())] + le32_of(
                        u32_of_i32(imm as int),
                    )
                }),
            ),
    {
        self.emit_aluq_imm_reg(1, imm, reg, 0x2d, 5);
    }

    /// `add reg64, imm32`.
    pub fn emit_addq_imm_reg(&mut self, imm: i32, reg: Register)
        requires
            old(self).data@.len() + 16 <= CODE_LIMIT,
            reg != Register::RIP,
        ensures
            emits(
                *old(self),
                *final(self),
                seq![rex_byte(1, 0, 0, reg.spec_msb())] + (if -128 <= imm < 128 {
                    seq![0x83u8, modrm_byte(3, 0, reg.spec_and7()), u8_of_i8(imm as int)]
                } else if reg == Register::RAX {
                    seq![0x05u8] + le32_of(u32_of_i32(imm as int))
                } else {
                    seq![0x81u8, modrm_byte(3, 0, reg.spec_and7())] + le32_of(
                        u32_of_i32(imm as int),
                    )
                }),
            ),
    {
        self.emit_aluq_imm_reg(1, imm, reg, 0x05, 0);
    }

    /// `and reg64, imm32`.
    pub fn emit_andq_imm_reg(&mut self, imm: i32, reg: Register)
        requires
            old(self).data@.len() + 16 <= CODE_LIMIT,
            reg != Register::RIP,
        ensures
            emits(
                *old(self),
                *final(self),
                seq![rex_byte(1, 0, 0, reg.spec_msb())] + (if -128 <= imm < 128 {
                    seq![0x83u8, modrm_byte(3, 4, reg.spec_and7()), u8_of_i8(imm as int)]
                } else if reg == Register::RAX {
                    seq![0x25u8] + le32_of(u32_of_i32(imm as int))
                } else {
                    seq![0x81u8, modrm_byte(3, 4, reg.spec_and7())] + le32_of(
                        u32_of_i32(imm as int),
                    )
                }),
            ),
    {
        self.emit_aluq_imm_reg(1, imm, reg, 0x25, 4);
    }

    /// `cmp dest, [base + disp]` at the given width.
    pub fn emit_cmp_membase_reg(&mut self, mode: MachineMode, base: Register, disp: i32,
        dest: Register)
        requires
            old(self).data@.len() + 16 <= CODE_LIMIT,
            dest != Register::RIP,
            !mode.spec_is_float(),
        ensures
            emits(
                *old(self),
                *final(self),
                rex_opt(
                    mode.spec_x64() != 0 || dest.spec_msb() != 0 || (if base == Register::RIP {
                        0u8
                    } else {
                        base.spec_msb()
                    }) != 0,
                    mode.spec_x64(),
                    dest.spec_msb(),
                    0,
                    if base == Register::RIP { 0u8 } else { base.spec_msb() },
                ) + seq![if mode == MachineMode::Int8 { 0x38u8 } else { 0x39u8 }] + enc_mem_base(
                    base,
                    disp as int,
                    dest.spec_and7(),
                ),
            ),
    {
        let base_msb = if base == Register::RIP { 0 } else { base.msb() };
        let (x64, opcode): (u8, u8) = match mode {
            MachineMode::Int8 => (0, 0x38),
            MachineMode::Int32 => (0, 0x39),
            MachineMode::Int64 | MachineMode::Ptr => (1, 0x39),
            _ => unreached(),
        };
        if x64 != 0 || dest.msb() != 0 || base_msb != 0 {
            self.emit_rex(x64, dest.msb(), 0, base_msb);
        }
        self.put(opcode);
        self.emit_mem_base(base, disp, dest);
        proof {
            assert(self.data@ =~= old(self).data@ + (rex_opt(
                mode.spec_x64() != 0 || dest.spec_msb() != 0 || (if base == Register::RIP {
                    0u8
                } else {
                    base.spec_msb()
                }) != 0,
                mode.spec_x64(),
                dest.spec_msb(),
                0,
                if base == Register::RIP { 0u8 } else { base.spec_msb() },
            ) + seq![if mode == MachineMode::Int8 { 0x38u8 } else { 0x39u8 }] + enc_mem_base(
                base,
                disp as int,
                dest.spec_and7(),
            )));
        }
    }

    /// `mov [base + index*scale + disp], src` at the given width.
    pub fn emit_mov_reg_membaseindex(
        &mut self,
        mode: MachineMode,
        src: Register,
        base: Register,
        index: Register,
        scale: i32,
        disp: i32,
    )
        requires
            old(self).data@.len() + 16 <= CODE_LIMIT,
            src != Register::RIP,
            base != Register::RIP,
            index != Register::RIP,
            scale == 1 || scale == 2 || scale == 4 || scale == 8,
            !mode.spec_is_float(),
        ensures
            emits(
                *old(self),
                *final(self),
                rex_opt(
                    mode.spec_x64() != 0 || src.spec_msb() != 0 || index.spec_msb() != 0
                        || base.spec_msb() != 0,
                    mode.spec_x64(),
                    src.spec_msb(),
                    index.spec_msb(),
                    base.spec_msb(),
                ) + seq![if mode == MachineMode::Int8 { 0x88u8 } else { 0x89u8 }] + enc_mem_index(
                    base,
                    index,
                    scale,
                    disp as int,
                    src.spec_and7(),
                ),
            ),
    {
        let (x64, opcode): (u8, u8) = match mode {
            MachineMode::Int8 => (0, 0x88),
            MachineMode::Int32 => (0, 0x89),
            MachineMode::Int64 | MachineMode::Ptr => (1, 0x89),
            _ => unreached(),
        };
        if x64 != 0 || src.msb() != 0 || index.msb() != 0 || base.msb() != 0 {
            self.emit_rex(x64, src.msb(), index.msb(), base.msb());
        }
        self.put(opcode);
        self.emit_membase_with_index_and_scale(base, index, scale, disp, src);
        proof {
            assert(self.data@ =~= old(self).data@ + (rex_opt(
                mode.spec_x64() != 0 || src.spec_msb() != 0 || index.spec_msb() != 0
                    || base.spec_msb() != 0,
                mode.spec_x64(),
                src.spec_msb(),
                index.spec_msb(),
                base.spec_msb(),
            ) + seq![if mode == MachineMode::Int8 { 0x88u8 } else { 0x89u8 }] + enc_mem_index(
                base,
                index,
                scale,
                disp as int,
                src.spec_and7(),
            )));
        }
    }

    /// `mov dest, [base + index*scale + disp]` at the given width; the scale
    /// must equal the operand width in bytes.
    pub fn emit_mov_membaseindex_reg(
        &mut self,
        mode: MachineMode,
        base: Register,
        index: Register,
        scale: i32,
        disp: i32,
        dest: Register,
    )
        requires
            old(self).data@.len() + 16 <= CODE_LIMIT,
            dest != Register::RIP,
            base != Register::RIP,
            index != Register::RIP,
            scale == 1 || scale == 2 || scale == 4 || scale == 8,
            !mode.spec_is_float(),
            mode.spec_size() == scale,
        ensures
            emits(
                *old(self),
                *final(self),
                rex_opt(
                    mode.spec_x64() != 0 || dest.spec_msb() != 0 || index.spec_msb() != 0
                        || base.spec_msb() != 0,
                    mode.spec_x64(),
                    dest.spec_msb(),
                    index.spec_msb(),
                    base.spec_msb(),
                ) + seq![if mode == MachineMode::Int8 { 0x8au8 } else { 0x8bu8 }] + enc_mem_index(
                    base,
                    index,
                    scale,
                    disp as int,
                    dest.spec_and7(),
                ),
            ),
    {
        let (x64, opcode): (u8, u8) = match mode {
            MachineMode::Int8 => (0, 0x8a),
            MachineMode::Int32 => (0, 0x8b),
            MachineMode::Int64 | MachineMode::Ptr => (1, 0x8b),
            _ => unreached(),
        };
        if x64 != 0 || dest.msb() != 0 || index.msb() != 0 || base.msb() != 0 {
            self.emit_rex(x64, dest.msb(), index.msb(), base.msb());
        }
        self.put(opcode);
        self.emit_membase_with_index_and_scale(base, index, scale, disp, dest);
        proof {
            assert(self.data@ =~= old(self).data@ + (rex_opt(
                mode.spec_x64() != 0 || dest.spec_msb() != 0 || index.spec_msb() != 0
                    || base.spec_msb() != 0,
                mode.spec_x64(),
                dest.spec_msb(),
                index.spec_msb(),
                base.spec_msb(),
            ) + seq![if mode == MachineMode::Int8 { 0x8au8 } else { 0x8bu8 }] + enc_mem_index(
                base,
                index,
                scale,
                disp as int,
                dest.spec_and7(),
            )));
        }
    }

    /// `shl reg64, imm8`.
    pub fn emit_shlq_reg(&mut self, imm: u8, dest: Register)
        requires
            old(self).data@.len() + 16 <= CODE_LIMIT,
            dest != Register::RIP,
        ensures
            emits(
                *old(self),
                *final(self),
                seq![
                    rex_byte(1, 0, 0, dest.spec_msb()),
                    0xc1u8,
                    modrm_byte(3, 4, dest.spec_and7()),
                    imm,
                ],
            ),
    {
        self.emit_rex(1, 0, 0, dest.msb());
        self.put(0xc1);
        self.emit_modrm(3, 4, dest.and7());
        self.put(imm);
        proof {
            assert(self.data@ =~= old(self).data@ + seq![
                rex_byte(1, 0, 0, dest.spec_msb()),
                0xc1u8,
                modrm_byte(3, 4, dest.spec_and7()),
                imm,
            ]);
        }
    }

    /// `shl reg32, imm8`.
    pub fn emit_shll_reg(&mut self, imm: u8, dest: Register)
        requires
            old(self).data@.len() + 16 <= CODE_LIMIT,
            dest != Register::RIP,
        ensures
            emits(
                *old(self),
                *final(self),
                rex_opt(dest.spec_msb() != 0, 0, 0, 0, dest.spec_msb()) + seq![
                    0xc1u8,
                    modrm_byte(3, 4, dest.spec_and7()),
                    imm,
                ],
            ),
    {
        if dest.msb() != 0 {
            self.emit_rex(0, 0, 0, dest.msb());
        }
        self.put(0xc1);
        self.emit_modrm(3, 4, dest.and7());
        self.put(imm);
        proof {
            assert(self.data@ =~= old(self).data@ + (rex_opt(
                dest.spec_msb() != 0,
                0,
                0,
                0,
                dest.spec_msb(),
            ) + seq![0xc1u8, modrm_byte(3, 4, dest.spec_and7()), imm]));
        }
    }

    /// A shift of a register by CL, selected by the ModR/M reg field.
    pub fn emit_shift_reg_cl(&mut self, x64: u8, modrm_reg: u8, dest: Register)
        requires
            old(self).data@.len() + 16 <= CODE_LIMIT,
            dest != Register::RIP,
            x64 <= 1,
            modrm_reg < 8,
        ensures
            emits(
                *old(self),
                *final(self),
                rex_opt(dest.spec_msb() != 0 || x64 != 0, x64, 0, 0, dest.spec_msb()) + seq![
                    0xd3u8,
                    modrm_byte(3, modrm_reg, dest.spec_and7()),
                ],
            ),
    {
        if dest.msb() != 0 || x64 != 0 {
            self.emit_rex(x64, 0, 0, dest.msb());
        }
        self.put(0xd3);
        self.emit_modrm(3, modrm_reg, dest.and7());
        proof {
            assert(self.data@ =~= old(self).data@ + (rex_opt(
                dest.spec_msb() != 0 || x64 != 0,
                x64,
                0,
                0,
                dest.spec_msb(),
            ) + seq![0xd3u8, modrm_byte(3, modrm_reg, dest.spec_and7())]));
        }
    }

    /// `shl dest, CL`.
    pub fn emit_shl_reg_cl(&mut self, x64: u8, dest: Register)
        requires
            old(self).data@.len() + 16 <= CODE_LIMIT,
            dest != Register::RIP,
            x64 <= 1,
        ensures
            emits(
                *old(self),
                *final(self),
                rex_opt(dest.spec_msb() != 0 || x64 != 0, x64, 0, 0, dest.spec_msb()) + seq![
                    0xd3u8,
                    modrm_byte(3, 4, dest.spec_and7()),
                ],
            ),
    {
        self.emit_shift_reg_cl(x64, 4, dest);
    }

    /// `shr dest, CL`.
    pub fn emit_shr_reg_cl(&mut self, x64: u8, dest: Register)
        requires
            old(self).data@.len() + 16 <= CODE_LIMIT,
            dest != Register::RIP,
            x64 <= 1,
        ensures
            emits(
                *old(self),
                *final(self),
                rex_opt(dest.spec_msb() != 0 || x64 != 0, x64, 0, 0, dest.spec_msb()) + seq![
                    0xd3u8,
                    modrm_byte(3, 5, dest.spec_and7()),
                ],
            ),
    {
        self.emit_shift_reg_cl(x64, 5, dest);
    }

    /// `sar dest, CL`.
    pub fn emit_sar_reg_cl(&mut self, x64: u8, dest: Register)
        requires
            old(self).data@.len() + 16 <= CODE_LIMIT,
            dest != Register::RIP,
            x64 <= 1,
        ensures
            emits(
                *old(self),
                *final(self),
                rex_opt(dest.spec_msb() != 0 || x64 != 0, x64, 0, 0, dest.spec_msb()) + seq![
                    0xd3u8,
                    modrm_byte(3, 7, dest.spec_and7()),
                ],
            ),
    {
        self.emit_shift_reg_cl(x64, 7, dest);
    }

    /// `shr dest, imm8`, with the one-bit short form for an immediate of 1.
    pub fn emit_shr_reg_imm(&mut self, x64: u8, dest: Register, imm: u8)
        requires
            old(self).data@.len() + 16 <= CODE_LIMIT,
            dest != Register::RIP,
            x64 <= 1,
        ensures
            emits(
                *old(self),
                *final(self),
                rex_opt(dest.spec_msb() != 0 || x64 != 0, x64, 0, 0, dest.spec_msb()) + seq![
                    if imm == 1 { 0xd1u8 } else { 0xc1u8 },
                    modrm_byte(3, 5, dest.spec_and7()),
                ] + (if imm != 1 { seq![imm] } else { Seq::<u8>::empty() }),
            ),
    {
        if dest.msb() != 0 || x64 != 0 {
            self.emit_rex(x64, 0, 0, dest.msb());
        }
        self.put(if imm == 1 { 0xd1 } else { 0xc1 });
        self.emit_modrm(3, 5, dest.and7());
        if imm != 1 {
            self.put(imm);
        }
        proof {
            assert(self.data@ =~= old(self).data@ + (rex_opt(
                dest.spec_msb() != 0 || x64 != 0,
                x64,
                0,
                0,
                dest.spec_msb(),
            ) + seq![
                if imm == 1 { 0xd1u8 } else { 0xc1u8 },
                modrm_byte(3, 5, dest.spec_and7()),
            ] + (if imm != 1 { seq![imm] } else { Seq::<u8>::empty() })));
        }
    }
}

impl Sink {
    /// A scalar SSE register-to-register operation: `F3`/`F2` prefix, REX if
    /// an extended register is named, `0F`, the opcode, ModR/M.
    pub fn sse_float_freg_freg(&mut self, dbl: bool, op: u8, dest: XMMRegister, src: XMMRegister)
        requires
            old(self).data@.len() + 16 <= CODE_LIMIT,
        ensures
            emits(*old(self), *final(self), enc_sse_ff(dbl, op, dest, src)),
    {
        let prefix: u8 = if dbl { 0xf2 } else { 0xf3 };
        self.put(prefix);
        if dest.msb() != 0 || src.msb() != 0 {
            self.emit_rex(0, dest.msb(), 0, src.msb());
        }
        self.put(0x0f);
        self.put(op);
        self.emit_modrm(3, dest.and7(), src.and7());
        proof {
            assert(self.data@ =~= old(self).data@ + enc_sse_ff(dbl, op, dest, src));
        }
    }

    /// A scalar SSE operation whose source is a general register.
    pub fn sse_float_freg_reg(&mut self, dbl: bool, op: u8, dest: XMMRegister, x64: u8,
        src: Register)
        requires
            old(self).data@.len() + 16 <= CODE_LIMIT,
            src != Register::RIP,
            x64 <= 1,
        ensures
            emits(
                *old(self),
                *final(self),
                enc_sse_fr(
                    dbl,
                    op,
                    dest.spec_msb(),
                    dest.spec_and7(),
                    x64,
                    src.spec_msb(),
                    src.spec_and7(),
                ),
            ),
    {
        let prefix: u8 = if dbl { 0xf2 } else { 0xf3 };
        self.put(prefix);
        if x64 != 0 || dest.msb() != 0 || src.msb() != 0 {
            self.emit_rex(x64, dest.msb(), 0, src.msb());
        }
        self.put(0x0f);
        self.put(op);
        self.emit_modrm(3, dest.and7(), src.and7());
        proof {
            assert(self.data@ =~= old(self).data@ + enc_sse_fr(
                dbl,
                op,
                dest.spec_msb(),
                dest.spec_and7(),
                x64,
                src.spec_msb(),
                src.spec_and7(),
            ));
        }
    }

    /// A scalar SSE operation whose destination is a general register.
    pub fn sse_float_reg_freg(&mut self, dbl: bool, op: u8, x64: u8, dest: Register,
        src: XMMRegister)
        requires
            old(self).data@.len() + 16 <= CODE_LIMIT,
            dest != Register::RIP,
            x64 <= 1,
        ensures
            emits(
                *old(self),
                *final(self),
                enc_sse_fr(
                    dbl,
                    op,
                    dest.spec_msb(),
                    dest.spec_and7(),
                    x64,
                    src.spec_msb(),
                    src.spec_and7(),
                ),
            ),
    {
        let prefix: u8 = if dbl { 0xf2 } else { 0xf3 };
        self.put(prefix);
        if x64 != 0 || dest.msb() != 0 || src.msb() != 0 {
            self.emit_rex(x64, dest.msb(), 0, src.msb());
        }
        self.put(0x0f);
        self.put(op);
        self.emit_modrm(3, dest.and7(), src.and7());
        proof {
            assert(self.data@ =~= old(self).data@ + enc_sse_fr(
                dbl,
                op,
                dest.spec_msb(),
                dest.spec_and7(),
                x64,
                src.spec_msb(),
                src.spec_and7(),
            ));
        }
    }

    /// A scalar SSE load or store between an XMM register and memory.
    pub fn sse_float_freg_membase(&mut self, dbl: bool, op: u8, dest: XMMRegister, src: Membase)
        requires
            old(self).data@.len() + 16 <= CODE_LIMIT,
            src.wf(),
        ensures
            emits(*old(self), *final(self), enc_sse_fm(dbl, op, dest, src)),
    {
        let prefix: u8 = if dbl { 0xf2 } else { 0xf3 };
        self.put(prefix);
        let gp = crate::registers::gp_for_xmm(dest);
        self.emit_rex_membase(0, gp, &src);
        self.put(0x0f);
        self.put(op);
        self.emit_membase(gp, &src);
        proof {
            assert(self.data@ =~= old(self).data@ + enc_sse_fm(dbl, op, dest, src));
        }
    }

    /// A packed SSE operation between an XMM register and memory, with a
    /// `66` prefix in the double-width form.
    pub fn sse_float_freg_membase_66(&mut self, dbl: bool, op: u8, dest: XMMRegister,
        src: Membase)
        requires
            old(self).data@.len() + 16 <= CODE_LIMIT,
            src.wf(),
        ensures
            emits(*old(self), *final(self), enc_sse_fm_66(dbl, op, dest, src)),
    {
        if dbl {
            self.put(0x66);
        }
        let gp = crate::registers::gp_for_xmm(dest);
        self.emit_rex_membase(0, gp, &src);
        self.put(0x0f);
        self.put(op);
        self.emit_membase(gp, &src);
        proof {
            assert(self.data@ =~= old(self).data@ + enc_sse_fm_66(dbl, op, dest, src));
        }
    }

    /// `ucomiss` / `ucomisd`: an unordered scalar compare that sets the
    /// flags, with the parity flag marking an unordered pair.
    pub fn sse_cmp(&mut self, dbl: bool, dest: XMMRegister, src: XMMRegister)
        requires
            old(self).data@.len() + 16 <= CODE_LIMIT,
        ensures
            emits(*old(self), *final(self), enc_sse_cmp(dbl, dest, src)),
    {
        if dbl {
            self.put(0x66);
        }
        if dest.msb() != 0 || src.msb() != 0 {
            self.emit_rex(0, dest.msb(), 0, src.msb());
        }
        self.put(0x0f);
        self.put(0x2e);
        self.emit_modrm(3, dest.and7(), src.and7());
        proof {
            assert(self.data@ =~= old(self).data@ + enc_sse_cmp(dbl, dest, src));
        }
    }

    /// `ucomiss dest, src`.
    pub fn ucomiss(&mut self, dest: XMMRegister, src: XMMRegister)
        requires
            old(self).data@.len() + 16 <= CODE_LIMIT,
        ensures
            emits(*old(self), *final(self), enc_sse_cmp(false, dest, src)),
    {
        self.sse_cmp(false, dest, src);
    }

    /// `ucomisd dest, src`.
    pub fn ucomisd(&mut self, dest: XMMRegister, src: XMMRegister)
        requires
            old(self).data@.len() + 16 <= CODE_LIMIT,
        ensures
            emits(*old(self), *final(self), enc_sse_cmp(true, dest, src)),
    {
        self.sse_cmp(true, dest, src);
    }

    /// `movss dest, src`.
    pub fn movss(&mut self, dest: XMMRegister, src: XMMRegister)
        requires
            old(self).data@.len() + 16 <= CODE_LIMIT,
        ensures
            emits(*old(self), *final(self), enc_sse_ff(false, 0x10, dest, src)),
    {
        self.sse_float_freg_freg(false, 0x10, dest, src);
    }

    /// `movsd dest, src`.
    pub fn movsd(&mut self, dest: XMMRegister, src: XMMRegister)
        requires
            old(self).data@.len() + 16 <= CODE_LIMIT,
        ensures
            emits(*old(self), *final(self), enc_sse_ff(true, 0x10, dest, src)),
    {
        self.sse_float_freg_freg(true, 0x10, dest, src);
    }

    /// `addss dest, src`.
    pub fn addss(&mut self, dest: XMMRegister, src: XMMRegister)
        requires
            old(self).data@.len() + 16 <= CODE_LIMIT,
        ensures
            emits(*old(self), *final(self), enc_sse_ff(false, 0x58, dest, src)),
    {
        self.sse_float_freg_freg(false, 0x58, dest, src);
    }

    /// `addsd dest, src`.
    pub fn addsd(&mut self, dest: XMMRegister, src: XMMRegister)
        requires
            old(self).data@.len() + 16 <= CODE_LIMIT,
        ensures
            emits(*old(self), *final(self), enc_sse_ff(true, 0x58, dest, src)),
    {
        self.sse_float_freg_freg(true, 0x58, dest, src);
    }

    /// `subss dest, src`.
    pub fn subss(&mut self, dest: XMMRegister, src: XMMRegister)
        requires
            old(self).data@.len() + 16 <= CODE_LIMIT,
        ensures
            emits(*old(self), *final(self), enc_sse_ff(false, 0x5c, dest, src)),
    {
        self.sse_float_freg_freg(false, 0x5c, dest, src);
    }

    /// `subsd dest, src`.
    pub fn subsd(&mut self, dest: XMMRegister, src: XMMRegister)
        requires
            old(self).data@.len() + 16 <= CODE_LIMIT,
        ensures
            emits(*old(self), *final(self), enc_sse_ff(true, 0x5c, dest, src)),
    {
        self.sse_float_freg_freg(true, 0x5c, dest, src);
    }

    /// `mulss dest, src`.
    pub fn mulss(&mut self, dest: XMMRegister, src: XMMRegister)
        requires
            old(self).data@.len() + 16 <= CODE_LIMIT,
        ensures
            emits(*old(self), *final(self), enc_sse_ff(false, 0x59, dest, src)),
    {
        self.sse_float_freg_freg(false, 0x59, dest, src);
    }

    /// `mulsd dest, src`.
    pub fn mulsd(&mut self, dest: XMMRegister, src: XMMRegister)
        requires
            old(self).data@.len() + 16 <= CODE_LIMIT,
        ensures
            emits(*old(self), *final(self), enc_sse_ff(true, 0x59, dest, src)),
    {
        self.sse_float_freg_freg(true, 0x59, dest, src);
    }

    /// `divss dest, src`.
    pub fn divss(&mut self, dest: XMMRegister, src: XMMRegister)
        requires
            old(self).data@.len() + 16 <= CODE_LIMIT,
        ensures
            emits(*old(self), *final(self), enc_sse_ff(false, 0x5e, dest, src)),
    {
        self.sse_float_freg_freg(false, 0x5e, dest, src);
    }

    /// `divsd dest, src`.
    pub fn divsd(&mut self, dest: XMMRegister, src: XMMRegister)
        requires
            old(self).data@.len() + 16 <= CODE_LIMIT,
        ensures
            emits(*old(self), *final(self), enc_sse_ff(true, 0x5e, dest, src)),
    {
        self.sse_float_freg_freg(true, 0x5e, dest, src);
    }

    /// `sqrtss dest, src`.
    pub fn sqrtss(&mut self, dest: XMMRegister, src: XMMRegister)
        requires
            old(self).data@.len() + 16 <= CODE_LIMIT,
        ensures
            emits(*old(self), *final(self), enc_sse_ff(false, 0x51, dest, src)),
    {
        self.sse_float_freg_freg(false, 0x51, dest, src);
    }

    /// `sqrtsd dest, src`.
    pub fn sqrtsd(&mut self, dest: XMMRegister, src: XMMRegister)
        requires
            old(self).data@.len() + 16 <= CODE_LIMIT,
        ensures
            emits(*old(self), *final(self), enc_sse_ff(true, 0x51, dest, src)),
    {
        self.sse_float_freg_freg(true, 0x51, dest, src);
    }

    /// `cvtsd2ss dest, src`.
    pub fn cvtsd2ss(&mut self, dest: XMMRegister, src: XMMRegister)
        requires
            old(self).data@.len() + 16 <= CODE_LIMIT,
        ensures
            emits(*old(self), *final(self), enc_sse_ff(true, 0x5a, dest, src)),
    {
        self.sse_float_freg_freg(true, 0x5a, dest, src);
    }

    /// `cvtss2sd dest, src`.
    pub fn cvtss2sd(&mut self, dest: XMMRegister, src: XMMRegister)
        requires
            old(self).data@.len() + 16 <= CODE_LIMIT,
        ensures
            emits(*old(self), *final(self), enc_sse_ff(false, 0x5a, dest, src)),
    {
        self.sse_float_freg_freg(false, 0x5a, dest, src);
    }

    /// `cvtsi2ss dest, src`.
    pub fn cvtsi2ss(&mut self, dest: XMMRegister, x64: u8, src: Register)
        requires
            old(self).data@.len() + 16 <= CODE_LIMIT,
            src != Register::RIP,
            x64 <= 1,
        ensures
            emits(
                *old(self),
                *final(self),
                enc_sse_fr(
                    false,
                    0x2a,
                    dest.spec_msb(),
                    dest.spec_and7(),
                    x64,
                    src.spec_msb(),
                    src.spec_and7(),
                ),
            ),
    {
        self.sse_float_freg_reg(false, 0x2a, dest, x64, src);
    }

    /// `cvtsi2sd dest, src`.
    pub fn cvtsi2sd(&mut self, dest: XMMRegister, x64: u8, src: Register)
        requires
            old(self).data@.len() + 16 <= CODE_LIMIT,
            src != Register::RIP,
            x64 <= 1,
        ensures
            emits(
                *old(self),
                *final(self),
                enc_sse_fr(
                    true,
                    0x2a,
                    dest.spec_msb(),
                    dest.spec_and7(),
                    x64,
                    src.spec_msb(),
                    src.spec_and7(),
                ),
            ),
    {
        self.sse_float_freg_reg(true, 0x2a, dest, x64, src);
    }

    /// `cvttss2si dest, src`.
    pub fn cvttss2si(&mut self, x64: u8, dest: Register, src: XMMRegister)
        requires
            old(self).data@.len() + 16 <= CODE_LIMIT,
            dest != Register::RIP,
            x64 <= 1,
        ensures
            emits(
                *old(self),
                *final(self),
                enc_sse_fr(
                    false,
                    0x2c,
                    dest.spec_msb(),
                    dest.spec_and7(),
                    x64,
                    src.spec_msb(),
                    src.spec_and7(),
                ),
            ),
    {
        self.sse_float_reg_freg(false, 0x2c, x64, dest, src);
    }

    /// `cvttsd2si dest, src`.
    pub fn cvttsd2si(&mut self, x64: u8, dest: Register, src: XMMRegister)
        requires
            old(self).data@.len() + 16 <= CODE_LIMIT,
            dest != Register::RIP,
            x64 <= 1,
        ensures
            emits(
                *old(self),
                *final(self),
                enc_sse_fr(
                    true,
                    0x2c,
                    dest.spec_msb(),
                    dest.spec_and7(),
                    x64,
                    src.spec_msb(),
                    src.spec_and7(),
                ),
            ),
    {
        self.sse_float_reg_freg(true, 0x2c, x64, dest, src);
    }

    /// `movss dest, [mem]`.
    pub fn movss_load(&mut self, dest: XMMRegister, membase: Membase)
        requires
            old(self).data@.len() + 16 <= CODE_LIMIT,
            membase.wf(),
        ensures
            emits(*old(self), *final(self), enc_sse_fm(false, 0x10, dest, membase)),
    {
        self.sse_float_freg_membase(false, 0x10, dest, membase);
    }

    /// `movsd dest, [mem]`.
    pub fn movsd_load(&mut self, dest: XMMRegister, membase: Membase)
        requires
            old(self).data@.len() + 16 <= CODE_LIMIT,
            membase.wf(),
        ensures
            emits(*old(self), *final(self), enc_sse_fm(true, 0x10, dest, membase)),
    {
        self.sse_float_freg_membase(true, 0x10, dest, membase);
    }

    /// `movss [mem], src`.
    pub fn movss_store(&mut self, membase: Membase, src: XMMRegister)
        requires
            old(self).data@.len() + 16 <= CODE_LIMIT,
            membase.wf(),
        ensures
            emits(*old(self), *final(self), enc_sse_fm(false, 0x11, src, membase)),
    {
        self.sse_float_freg_membase(false, 0x11, src, membase);
    }

    /// `movsd [mem], src`.
    pub fn movsd_store(&mut self, membase: Membase, src: XMMRegister)
        requires
            old(self).data@.len() + 16 <= CODE_LIMIT,
            membase.wf(),
        ensures
            emits(*old(self), *final(self), enc_sse_fm(true, 0x11, src, membase)),
    {
        self.sse_float_freg_membase(true, 0x11, src, membase);
    }

    /// `xorps dest, [mem]`.
    pub fn xorps(&mut self, dest: XMMRegister, src: Membase)
        requires
            old(self).data@.len() + 16 <= CODE_LIMIT,
            src.wf(),
        ensures
            emits(*old(self), *final(self), enc_sse_fm_66(false, 0x57, dest, src)),
    {
        self.sse_float_freg_membase_66(false, 0x57, dest, src);
    }

    /// `xorpd dest, [mem]`.
    pub fn xorpd(&mut self, dest: XMMRegister, src: Membase)
        requires
            old(self).data@.len() + 16 <= CODE_LIMIT,
            src.wf(),
        ensures
            emits(*old(self), *final(self), enc_sse_fm_66(true, 0x57, dest, src)),
    {
        self.sse_float_freg_membase_66(true, 0x57, dest, src);
    }

    /// `pxor dest, src`.
    pub fn pxor(&mut self, dest: XMMRegister, src: XMMRegister)
        requires
            old(self).data@.len() + 16 <= CODE_LIMIT,
        ensures
            emits(
                *old(self),
                *final(self),
                seq![0x66u8] + rex_opt(
                    dest.spec_msb() != 0 || src.spec_msb() != 0,
                    0,
                    dest.spec_msb(),
                    0,
                    src.spec_msb(),
                ) + seq![0x0fu8, 0xefu8, modrm_byte(3, dest.spec_and7(), src.spec_and7())],
            ),
    {
        self.put(0x66);
        if dest.msb() != 0 || src.msb() != 0 {
            self.emit_rex(0, dest.msb(), 0, src.msb());
        }
        self.put(0x0f);
        self.put(0xef);
        self.emit_modrm(3, dest.and7(), src.and7());
        proof {
            assert(self.data@ =~= old(self).data@ + (seq![0x66u8] + rex_opt(
                dest.spec_msb() != 0 || src.spec_msb() != 0,
                0,
                dest.spec_msb(),
                0,
                src.spec_msb(),
            ) + seq![0x0fu8, 0xefu8, modrm_byte(3, dest.spec_and7(), src.spec_and7())]));
        }
    }

    /// `test [mem], dest32`.
    pub fn testl_reg_membase(&mut self, dest: Register, src: Membase)
        requires
            old(self).data@.len() + 16 <= CODE_LIMIT,
            dest != Register::RIP,
            src.wf(),
        ensures
            emits(
                *old(self),
                *final(self),
                enc_rex_membase(0, dest, src) + seq![0x85u8] + enc_membase(
                    src,
                    dest.spec_and7(),
                ),
            ),
    {
        self.emit_rex_membase(0, dest, &src);
        self.put(0x85);
        self.emit_membase(dest, &src);
        proof {
            assert(self.data@ =~= old(self).data@ + (enc_rex_membase(0, dest, src)
                + seq![0x85u8] + enc_membase(src, dest.spec_and7())));
        }
    }
}

impl Sink {
    /// `jcc rel32` to a label: the two-byte conditional-jump opcode followed
    /// by the label's displacement slot.
    #[verifier::rlimit(50)]
    pub fn emit_jcc(&mut self, cond: CondCode, lbl: usize)
        requires
            old(self).wf(),
            lbl < old(self).labels@.len(),
            old(self).data@.len() + 8 <= CODE_LIMIT,
        ensures
            final(self).wf(),
            jump_emitted(
                *old(self),
                *final(self),
                seq![0x0fu8, (0x80 + cond.cc_nibble()) as u8],
                lbl as int,
            ),
    {
        proof {
            crate::sink::lemma_append_keeps_wf(*old(self));
        }
        self.put(0x0f);
        self.put(0x80 + cond.nibble());
        self.emit_label(lbl);
        proof {
            assert(self.data@ =~= old(self).data@ + seq![
                0x0fu8,
                (0x80 + cond.cc_nibble()) as u8,
            ] + crate::sink::label_disp_bytes(
                old(self).labels@,
                old(self).data@.len() + 2 as int,
                lbl as int,
            ));
        }
    }

    /// `jmp rel32` to a label.
    #[verifier::rlimit(50)]
    pub fn emit_jmp(&mut self, lbl: usize)
        requires
            old(self).wf(),
            lbl < old(self).labels@.len(),
            old(self).data@.len() + 8 <= CODE_LIMIT,
        ensures
            final(self).wf(),
            jump_emitted(*old(self), *final(self), seq![0xe9u8], lbl as int),
    {
        proof {
            crate::sink::lemma_append_keeps_wf(*old(self));
        }
        self.put(0xe9);
        self.emit_label(lbl);
        proof {
            assert(self.data@ =~= old(self).data@ + seq![0xe9u8]
                + crate::sink::label_disp_bytes(
                old(self).labels@,
                old(self).data@.len() + 1 as int,
                lbl as int,
            ));
        }
    }

    /// `jcc` under its condition-first name.
    pub fn jump_if(&mut self, cond: CondCode, lbl: usize)
        requires
            old(self).wf(),
            lbl < old(self).labels@.len(),
            old(self).data@.len() + 8 <= CODE_LIMIT,
        ensures
            final(self).wf(),
            jump_emitted(
                *old(self),
                *final(self),
                seq![0x0fu8, (0x80 + cond.cc_nibble()) as u8],
                lbl as int,
            ),
    {
        self.emit_jcc(cond, lbl);
    }

    /// `test reg, reg` followed by a conditional jump on the zero flag.
    #[verifier::rlimit(100)]
    pub fn test_and_jump_if(&mut self, cond: CondCode, reg: Register, lbl: usize)
        requires
            old(self).wf(),
            lbl < old(self).labels@.len(),
            old(self).data@.len() + 16 <= CODE_LIMIT,
            reg != Register::RIP,
            cond == CondCode::Zero || cond == CondCode::NonZero,
        ensures
            final(self).wf(),
            jump_emitted(
                *old(self),
                *final(self),
                rex_opt(reg.spec_msb() != 0, 0, reg.spec_msb(), 0, reg.spec_msb()) + seq![
                    0x85u8,
                    modrm_byte(3, reg.spec_and7(), reg.spec_and7()),
                    0x0fu8,
                    (0x80 + cond.cc_nibble()) as u8,
                ],
                lbl as int,
            ),
    {
        proof {
            crate::sink::lemma_append_keeps_wf(*old(self));
        }
        self.emit_testl_reg_reg(reg, reg);
        self.emit_jcc(cond, lbl);
        proof {
            let opc = rex_opt(reg.spec_msb() != 0, 0, reg.spec_msb(), 0, reg.spec_msb()) + seq![
                0x85u8,
                modrm_byte(3, reg.spec_and7(), reg.spec_and7()),
                0x0fu8,
                (0x80 + cond.cc_nibble()) as u8,
            ];
            assert(self.data@ =~= old(self).data@ + opc + crate::sink::label_disp_bytes(
                old(self).labels@,
                old(self).data@.len() + opc.len() as int,
                lbl as int,
            ));
        }
    }

    /// `cmp r2, r1` at the width of the given mode.
    pub fn cmp(&mut self, r1: Register, r2: Register, t: MachineMode)
        requires
            old(self).data@.len() + 16 <= CODE_LIMIT,
            r1 != Register::RIP,
            r2 != Register::RIP,
        ensures
            emits(
                *old(self),
                *final(self),
                rex_opt(
                    (if t == MachineMode::Int32 { 0u8 } else { 1u8 }) != 0 || r1.spec_msb() != 0
                        || r2.spec_msb() != 0,
                    if t == MachineMode::Int32 { 0u8 } else { 1u8 },
                    r1.spec_msb(),
                    0,
                    r2.spec_msb(),
                ) + seq![0x39u8, modrm_byte(3, r1.spec_and7(), r2.spec_and7())],
            ),
    {
        let x64: u8 = if t == MachineMode::Int32 {
            0
        } else {
            1
        };
        self.emit_cmp_reg_reg(x64, r1, r2);
    }

    /// `setcc dest` followed by a zero-extension of the byte result.
    pub fn set(&mut self, dest: Register, op: CondCode)
        requires
            old(self).data@.len() + 32 <= CODE_LIMIT,
            dest != Register::RIP,
        ensures
            emits(
                *old(self),
                *final(self),
                setb_bytes(op, dest) + (rex_opt(
                    dest.spec_msb() != 0 || dest.value() >= 4,
                    0,
                    dest.spec_msb(),
                    0,
                    dest.spec_msb(),
                ) + seq![0x0fu8, 0xb6u8, modrm_byte(3, dest.spec_and7(), dest.spec_and7())]),
            ),
    {
        self.emit_setb_reg(op, dest);
        self.emit_movzbl_reg_reg(dest, dest);
        proof {
            assert(self.data@ =~= old(self).data@ + (setb_bytes(op, dest) + (rex_opt(
                dest.spec_msb() != 0 || dest.value() >= 4,
                0,
                dest.spec_msb(),
                0,
                dest.spec_msb(),
            ) + seq![0x0fu8, 0xb6u8, modrm_byte(3, dest.spec_and7(), dest.spec_and7())])));
        }
    }

}

/// The bytes of `store_mem`: the width-matched store of a register into a
/// memory operand.
pub open spec fn store_mem_bytes(mode: MachineMode, mem: Membase, src: crate::registers::Reg)
    -> Seq<u8> {
    match src {
        crate::registers::Reg::Float(f) => enc_sse_fm(mode == MachineMode::Float64, 0x11, f, mem),
        crate::registers::Reg::Gpr(g) => {
            let x64: u8 = if mode == MachineMode::Int32 { 0 } else { 1 };
            match mem {
                Membase::Index(base, index, scale, disp) => rex_opt(
                    x64 != 0 || g.spec_msb() != 0 || index.spec_msb() != 0 || base.spec_msb()
                        != 0,
                    x64,
                    g.spec_msb(),
                    index.spec_msb(),
                    base.spec_msb(),
                ) + seq![0x89u8] + enc_mem_index(base, index, scale, disp as int, g.spec_and7()),
                Membase::Local(off) => rex_opt(
                    g.spec_msb() != 0 || x64 != 0,
                    x64,
                    g.spec_msb(),
                    0,
                    0,
                ) + seq![0x89u8] + enc_mem_base(Register::RBP, off as int, g.spec_and7()),
                Membase::Base(base, disp) => rex_opt(
                    (if base == Register::RIP { 0u8 } else { base.spec_msb() }) != 0
                        || g.spec_msb() != 0 || x64 != 0,
                    x64,
                    g.spec_msb(),
                    0,
                    if base == Register::RIP { 0u8 } else { base.spec_msb() },
                ) + seq![0x89u8] + enc_mem_base(base, disp as int, g.spec_and7()),
                Membase::Offset(_, _, _) => Seq::<u8>::empty(),
            }
        },
    }
}

/// The bytes of `load_mem`: the width-matched load of a memory operand into
/// a register.
pub open spec fn load_mem_bytes(mode: MachineMode, dest: crate::registers::Reg, mem: Membase)
    -> Seq<u8> {
    match dest {
        crate::registers::Reg::Float(f) => enc_sse_fm(mode == MachineMode::Float64, 0x10, f, mem),
        crate::registers::Reg::Gpr(g) => {
            let x64: u8 = if mode == MachineMode::Int32 { 0 } else { 1 };
            match mem {
                Membase::Index(base, index, scale, disp) => rex_opt(
                    x64 != 0 || g.spec_msb() != 0 || index.spec_msb() != 0 || base.spec_msb()
                        != 0,
                    x64,
                    g.spec_msb(),
                    index.spec_msb(),
                    base.spec_msb(),
                ) + seq![0x8bu8] + enc_mem_index(base, index, scale, disp as int, g.spec_and7()),
                Membase::Local(off) => rex_opt(
                    g.spec_msb() != 0 || x64 != 0,
                    x64,
                    g.spec_msb(),
                    0,
                    0,
                ) + seq![0x8bu8] + enc_mem_base(Register::RBP, off as int, g.spec_and7()),
                Membase::Base(base, disp) => rex_opt(
                    (if base == Register::RIP { 0u8 } else { base.spec_msb() }) != 0
                        || g.spec_msb() != 0 || x64 != 0,
                    x64,
                    g.spec_msb(),
                    0,
                    if base == Register::RIP { 0u8 } else { base.spec_msb() },
                ) + seq![0x8bu8] + enc_mem_base(base, disp as int, g.spec_and7()),
                Membase::Offset(_, _, _) => Seq::<u8>::empty(),
            }
        },
    }
}

impl Sink {
    /// Stores a register into a memory operand at the given width. An
    /// integer width takes a general register, a floating width an XMM
    /// register.
    pub fn store_mem(&mut self, mode: MachineMode, mem: Membase, src: crate::registers::Reg)
        requires
            old(self).data@.len() + 16 <= CODE_LIMIT,
            mem.wf(),
            !(mem is Offset),
            mode != MachineMode::Int8,
            mode.spec_is_float() <==> src is Float,
            src is Gpr ==> src->Gpr_0 != Register::RIP,
        ensures
            emits(*old(self), *final(self), store_mem_bytes(mode, mem, src)),
    {
        match src {
            crate::registers::Reg::Float(f) => {
                if mode == MachineMode::Float64 {
                    self.movsd_store(mem, f);
                } else {
                    self.movss_store(mem, f);
                }
            },
            crate::registers::Reg::Gpr(g) => {
                let x64: u8 = if mode == MachineMode::Int32 {
                    0
                } else {
                    1
                };
                match mem {
                    Membase::Local(off) => {
                        self.emit_mov_reg_membaseq(0x89, x64, g, Register::RBP, off);
                    },
                    Membase::Base(base, disp) => {
                        self.emit_mov_reg_membaseq(0x89, x64, g, base, disp);
                    },
                    Membase::Index(base, index, scale, disp) => {
                        let m = if mode == MachineMode::Int32 {
                            MachineMode::Int32
                        } else {
                            MachineMode::Int64
                        };
                        self.emit_mov_reg_membaseindex(m, g, base, index, scale, disp);
                    },
                    Membase::Offset(_, _, _) => unreached(),
                }
            },
        }
        proof {
            assert(self.data@ =~= old(self).data@ + store_mem_bytes(mode, mem, src));
        }
    }

    /// Loads a memory operand into a register at the given width. An indexed
    /// integer load requires the scale to equal the operand width.
    pub fn load_mem(&mut self, t: MachineMode, dest: crate::registers::Reg, mb: Membase)
        requires
            old(self).data@.len() + 16 <= CODE_LIMIT,
            mb.wf(),
            !(mb is Offset),
            t != MachineMode::Int8,
            t.spec_is_float() <==> dest is Float,
            dest is Gpr ==> dest->Gpr_0 != Register::RIP,
            (mb is Index && !t.spec_is_float()) ==> t.spec_size() == mb->Index_2,
        ensures
            emits(*old(self), *final(self), load_mem_bytes(t, dest, mb)),
    {
        match dest {
            crate::registers::Reg::Float(f) => {
                if t == MachineMode::Float64 {
                    self.movsd_load(f, mb);
                } else {
                    self.movss_load(f, mb);
                }
            },
            crate::registers::Reg::Gpr(g) => {
                let x64: u8 = if t == MachineMode::Int32 {
                    0
                } else {
                    1
                };
                match mb {
                    Membase::Local(off) => {
                        self.emit_mov_membaseq_reg(0, x64, 0x8b, Register::RBP, off, g);
                    },
                    Membase::Base(base, disp) => {
                        self.emit_mov_membaseq_reg(0, x64, 0x8b, base, disp, g);
                    },
                    Membase::Index(base, index, scale, disp) => {
                        let m = if t == MachineMode::Int32 {
                            MachineMode::Int32
                        } else {
                            MachineMode::Int64
                        };
                        self.emit_mov_membaseindex_reg(m, base, index, scale, disp, g);
                    },
                    Membase::Offset(_, _, _) => unreached(),
                }
            },
        }
        proof {
            assert(self.data@ =~= old(self).data@ + load_mem_bytes(t, dest, mb));
        }
    }

}

} // verus!
