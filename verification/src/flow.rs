//! The builder's control flow, returns and variables: labels and jumps over
//! the sink's fixup protocol, the function return, and named variables that
//! live in fixed frame slots and survive across operations.

use crate::emit::{load_mem_bytes, modrm_byte, rex_opt, store_mem_bytes, Membase};
use crate::function::{fresh_value, Function, ValueData, FRAME_LIMIT};
use crate::ops::load_value_bytes;
use crate::registers::{Reg, Register, XMMRegister};
use crate::sink::{label_disp_bytes, ForwardJump, CODE_LIMIT};
use crate::types::{CondCode, Kind, MachineMode};
use crate::util::{lemma_concat2, lemma_concat3, spec_align};
use crate::{Value, Variable};
use vstd::prelude::*;

verus! {

/// The bytes of a return: the value moved into RAX (an integer) or XMM0 (a
/// float), then `pop RBP; ret`.
pub open spec fn ret_bytes(loc: ValueData, kind: Kind) -> Seq<u8> {
    load_value_bytes(
        loc,
        kind,
        if kind.spec_is_int() {
            Reg::Gpr(Register::RAX)
        } else {
            Reg::Float(XMMRegister::XMM0)
        },
    ) + seq![0x5du8] + seq![0xc3u8]
}

/// The opcode bytes of `test R10, R10` followed by the two-byte conditional
/// jump opcode, as emitted ahead of a label displacement.
pub open spec fn test_jump_opc_bytes(cc: CondCode) -> Seq<u8> {
    rex_opt(
        Register::R10.spec_msb() != 0,
        0,
        Register::R10.spec_msb(),
        0,
        Register::R10.spec_msb(),
    ) + seq![
        0x85u8,
        modrm_byte(3, Register::R10.spec_and7(), Register::R10.spec_and7()),
        0x0fu8,
        (0x80 + cc.cc_nibble()) as u8,
    ]
}

/// The variable table, read back to front: a later declaration of the same
/// index shadows an earlier one, as an insertion into the original's map
/// would.
pub open spec fn var_lookup(vars: Seq<(u32, Kind, i32)>, idx: u32) -> Option<(Kind, i32)>
    decreases vars.len(),
{
    if vars.len() == 0 {
        None
    } else if vars.last().0 == idx {
        Some((vars.last().1, vars.last().2))
    } else {
        var_lookup(vars.drop_last(), idx)
    }
}

/// The bytes that store a value into a variable's frame slot: a direct
/// store from the value's register, or a copy through the matching scratch
/// register when the value itself lives in a slot.
pub open spec fn def_var_bytes(loc: ValueData, kind: Kind, off: i32) -> Seq<u8> {
    match loc {
        ValueData::Gpr(g) => store_mem_bytes(
            kind.spec_to_machine(),
            Membase::Local(off),
            Reg::Gpr(g),
        ),
        ValueData::Fpr(f) => store_mem_bytes(
            kind.spec_to_machine(),
            Membase::Local(off),
            Reg::Float(f),
        ),
        ValueData::Stack(voff) => if kind.spec_is_int() {
            load_mem_bytes(kind.spec_to_machine(), Reg::Gpr(Register::R10), Membase::Local(voff))
                + store_mem_bytes(
                kind.spec_to_machine(),
                Membase::Local(off),
                Reg::Gpr(Register::R10),
            )
        } else {
            load_mem_bytes(
                kind.spec_to_machine(),
                Reg::Float(XMMRegister::XMM8),
                Membase::Local(voff),
            ) + store_mem_bytes(
                kind.spec_to_machine(),
                Membase::Local(off),
                Reg::Float(XMMRegister::XMM8),
            )
        },
    }
}

/// The bytes that copy a variable's slot into a freshly allocated location:
/// a load through the matching scratch register, then a move or store into
/// the new location.
pub open spec fn use_var_bytes(kind: Kind, off: i32, dest: ValueData) -> Seq<u8> {
    if kind.spec_is_int() {
        load_mem_bytes(kind.spec_to_machine(), Reg::Gpr(Register::R10), Membase::Local(off))
            + crate::ops::move_gpr_bytes(Register::R10, dest, kind)
    } else {
        load_mem_bytes(
            kind.spec_to_machine(),
            Reg::Float(XMMRegister::XMM8),
            Membase::Local(off),
        ) + (match dest {
            ValueData::Fpr(f) => crate::emit::enc_sse_ff(
                kind.spec_to_machine() != MachineMode::Float32,
                0x10,
                f,
                XMMRegister::XMM8,
            ),
            ValueData::Stack(noff) => store_mem_bytes(
                kind.spec_to_machine(),
                Membase::Local(noff),
                Reg::Float(XMMRegister::XMM8),
            ),
            ValueData::Gpr(_) => Seq::<u8>::empty(),
        })
    }
}

impl Function {
    /// A fresh, unbound label.
    pub fn new_label(&mut self) -> (l: u32)
        requires
            old(self).wf(),
            old(self).sink.labels@.len() < 0xffff_ffff,
        ensures
            final(self).wf(),
            l == old(self).sink.labels@.len(),
            final(self).sink.labels@ == old(self).sink.labels@.push(None::<usize>),
            final(self).sink.data@ == old(self).sink.data@,
            final(self).sink.jumps@ == old(self).sink.jumps@,
            final(self).sink.dseg == old(self).sink.dseg,
            Self::tables_unchanged(*old(self), *final(self)),
            final(self).name@ == old(self).name@,
    {
        self.sink.create_label() as u32
    }

    /// Binds label `l` to the current end of the code. A label may be bound
    /// only once.
    pub fn label_here(&mut self, l: u32)
        requires
            old(self).wf(),
            l < old(self).sink.labels@.len(),
            old(self).sink.labels@[l as int] is None,
        ensures
            final(self).wf(),
            final(self).sink.labels@ == old(self).sink.labels@.update(
                l as int,
                Some(old(self).sink.data@.len() as usize),
            ),
            final(self).sink.data@ == old(self).sink.data@,
            final(self).sink.jumps@ == old(self).sink.jumps@,
            final(self).sink.dseg == old(self).sink.dseg,
            Self::tables_unchanged(*old(self), *final(self)),
            final(self).name@ == old(self).name@,
    {
        self.sink.bind_label(l as usize);
    }

    /// `label_here`, under the name the module surface uses.
    pub fn bind_label(&mut self, l: u32)
        requires
            old(self).wf(),
            l < old(self).sink.labels@.len(),
            old(self).sink.labels@[l as int] is None,
        ensures
            final(self).wf(),
            final(self).sink.labels@ == old(self).sink.labels@.update(
                l as int,
                Some(old(self).sink.data@.len() as usize),
            ),
            final(self).sink.data@ == old(self).sink.data@,
            final(self).sink.jumps@ == old(self).sink.jumps@,
            final(self).sink.dseg == old(self).sink.dseg,
            Self::tables_unchanged(*old(self), *final(self)),
            final(self).name@ == old(self).name@,
    {
        self.label_here(l);
    }

    /// An unconditional jump to a label: `jmp rel32`, with the displacement
    /// written at once for a bound label and recorded as a forward jump
    /// otherwise.
    pub fn jump(&mut self, l: u32)
        requires
            old(self).wf(),
            l < old(self).sink.labels@.len(),
            old(self).sink.data@.len() + 8 <= CODE_LIMIT,
        ensures
            final(self).wf(),
            crate::sink::jump_emitted(old(self).sink, final(self).sink, seq![0xe9u8], l as int),
            Self::tables_unchanged(*old(self), *final(self)),
            final(self).name@ == old(self).name@,
    {
        self.sink.emit_jmp(l as usize);
    }

    /// A conditional jump taken when the value is zero: the value loaded
    /// into the scratch register, `test`, then `jz rel32`.
    #[verifier::spinoff_prover]
    #[verifier::rlimit(100)]
    pub fn jump_zero(&mut self, v: Value, l: u32)
        requires
            old(self).wf(),
            old(self).alive(v.0 as int),
            old(self).val_kind(v.0 as int).spec_is_int(),
            l < old(self).sink.labels@.len(),
            old(self).sink.data@.len() + 32 <= CODE_LIMIT,
        ensures
            final(self).wf(),
            Self::tables_unchanged(*old(self), *final(self)),
            final(self).name@ == old(self).name@,
            final(self).sink.labels@ == old(self).sink.labels@,
            final(self).sink.dseg == old(self).sink.dseg,
            ({
                let lvb = load_value_bytes(
                    old(self).val_loc(v.0 as int),
                    old(self).val_kind(v.0 as int),
                    Reg::Gpr(Register::R10),
                );
                let opc = test_jump_opc_bytes(CondCode::Zero);
                &&& final(self).sink.data@ == old(self).sink.data@ + (lvb + opc) + label_disp_bytes(
                    old(self).sink.labels@,
                    old(self).sink.data@.len() + lvb.len() + opc.len() as int,
                    l as int,
                )
                &&& final(self).sink.jumps@ == if old(self).sink.labels@[l as int] is Some {
                    old(self).sink.jumps@
                } else {
                    old(self).sink.jumps@.push(
                        ForwardJump {
                            at: (old(self).sink.data@.len() + lvb.len() + opc.len()) as usize,
                            to: l as usize,
                        },
                    )
                }
            }),
    {
        self.load_value(v, Reg::Gpr(Register::R10));
        let ghost mid = self.sink;
        self.sink.test_and_jump_if(CondCode::Zero, Register::R10, l as usize);
        proof {
            lemma_concat2(
                old(self).sink.data@,
                load_value_bytes(
                    old(self).val_loc(v.0 as int),
                    old(self).val_kind(v.0 as int),
                    Reg::Gpr(Register::R10),
                ),
                test_jump_opc_bytes(CondCode::Zero),
            );
            assert(old(self).sink.data@ + (load_value_bytes(
                old(self).val_loc(v.0 as int),
                old(self).val_kind(v.0 as int),
                Reg::Gpr(Register::R10),
            ) + test_jump_opc_bytes(CondCode::Zero)) + label_disp_bytes(
                old(self).sink.labels@,
                old(self).sink.data@.len() + load_value_bytes(
                    old(self).val_loc(v.0 as int),
                    old(self).val_kind(v.0 as int),
                    Reg::Gpr(Register::R10),
                ).len() + test_jump_opc_bytes(CondCode::Zero).len() as int,
                l as int,
            ) =~= self.sink.data@);
        }
    }

    /// A conditional jump taken when the value is not zero.
    #[verifier::spinoff_prover]
    #[verifier::rlimit(100)]
    pub fn jump_nonzero(&mut self, v: Value, l: u32)
        requires
            old(self).wf(),
            old(self).alive(v.0 as int),
            old(self).val_kind(v.0 as int).spec_is_int(),
            l < old(self).sink.labels@.len(),
            old(self).sink.data@.len() + 32 <= CODE_LIMIT,
        ensures
            final(self).wf(),
            Self::tables_unchanged(*old(self), *final(self)),
            final(self).name@ == old(self).name@,
            final(self).sink.labels@ == old(self).sink.labels@,
            final(self).sink.dseg == old(self).sink.dseg,
            ({
                let lvb = load_value_bytes(
                    old(self).val_loc(v.0 as int),
                    old(self).val_kind(v.0 as int),
                    Reg::Gpr(Register::R10),
                );
                let opc = test_jump_opc_bytes(CondCode::NonZero);
                &&& final(self).sink.data@ == old(self).sink.data@ + (lvb + opc) + label_disp_bytes(
                    old(self).sink.labels@,
                    old(self).sink.data@.len() + lvb.len() + opc.len() as int,
                    l as int,
                )
                &&& final(self).sink.jumps@ == if old(self).sink.labels@[l as int] is Some {
                    old(self).sink.jumps@
                } else {
                    old(self).sink.jumps@.push(
                        ForwardJump {
                            at: (old(self).sink.data@.len() + lvb.len() + opc.len()) as usize,
                            to: l as usize,
                        },
                    )
                }
            }),
    {
        self.load_value(v, Reg::Gpr(Register::R10));
        let ghost mid = self.sink;
        self.sink.test_and_jump_if(CondCode::NonZero, Register::R10, l as usize);
        proof {
            lemma_concat2(
                old(self).sink.data@,
                load_value_bytes(
                    old(self).val_loc(v.0 as int),
                    old(self).val_kind(v.0 as int),
                    Reg::Gpr(Register::R10),
                ),
                test_jump_opc_bytes(CondCode::NonZero),
            );
            assert(old(self).sink.data@ + (load_value_bytes(
                old(self).val_loc(v.0 as int),
                old(self).val_kind(v.0 as int),
                Reg::Gpr(Register::R10),
            ) + test_jump_opc_bytes(CondCode::NonZero)) + label_disp_bytes(
                old(self).sink.labels@,
                old(self).sink.data@.len() + load_value_bytes(
                    old(self).val_loc(v.0 as int),
                    old(self).val_kind(v.0 as int),
                    Reg::Gpr(Register::R10),
                ).len() + test_jump_opc_bytes(CondCode::NonZero).len() as int,
                l as int,
            ) =~= self.sink.data@);
        }
    }

    /// Returns the given value: moves it into RAX (an integer or pointer)
    /// or XMM0 (a float), then emits the epilogue and `ret`. The value
    /// stays live, as in a function with several returns.
    #[verifier::spinoff_prover]
    #[verifier::rlimit(100)]
    pub fn ret(&mut self, x: Value)
        requires
            old(self).wf(),
            old(self).alive(x.0 as int),
            old(self).sink.data@.len() + 32 <= CODE_LIMIT,
        ensures
            final(self).wf(),
            Self::code_extended(*old(self), *final(self)),
            Self::tables_unchanged(*old(self), *final(self)),
            final(self).sink.data@ == old(self).sink.data@ + ret_bytes(
                old(self).val_loc(x.0 as int),
                old(self).val_kind(x.0 as int),
            ),
    {
        let (_, kind) = self.get_value_data(x);
        let target = if kind.is_int() {
            Reg::Gpr(Register::RAX)
        } else {
            Reg::Float(XMMRegister::XMM0)
        };
        self.load_value(x, target);
        let ghost mid = self.sink;
        proof {
            crate::sink::lemma_append_keeps_wf(mid);
        }
        self.sink.emit_epilog();
        let ghost mid2 = self.sink;
        proof {
            crate::sink::lemma_append_keeps_wf(mid2);
        }
        self.sink.ret();
        proof {
            assert(target == if old(self).val_kind(x.0 as int).spec_is_int() {
                Reg::Gpr(Register::RAX)
            } else {
                Reg::Float(XMMRegister::XMM0)
            });
            lemma_concat3(
                old(self).sink.data@,
                load_value_bytes(old(self).val_loc(x.0 as int), old(self).val_kind(x.0 as int),
                target),
                seq![0x5du8],
                seq![0xc3u8],
            );
        }
    }

    /// Declares a variable under the caller's index: allocates a frame slot
    /// of the kind's width and records the slot. A redeclared index shadows
    /// the earlier slot.
    pub fn declare_variable(&mut self, index: u32, ty: Kind) -> (var: Variable)
        requires
            old(self).wf(),
            old(self).localsize + 16 <= FRAME_LIMIT,
        ensures
            final(self).wf(),
            var == (Variable(index)),
            final(self).localsize == spec_align(
                old(self).localsize + ty.spec_to_machine().spec_size(),
                ty.spec_to_machine().spec_size() as int,
            ),
            final(self).variables@ == old(self).variables@.push(
                (index, ty, (0 - final(self).localsize) as i32),
            ),
            final(self).sink == old(self).sink,
            final(self).values@ == old(self).values@,
            final(self).fixups@ == old(self).fixups@,
            final(self).name@ == old(self).name@,
            var_lookup(final(self).variables@, index) == Some(
                (ty, (0 - final(self).localsize) as i32),
            ),
    {
        let off = self.allocate(ty);
        self.variables.push((index, ty, -off));
        Variable(index)
    }

    /// The kind and frame offset of a declared variable.
    pub fn variable_slot(&self, index: u32) -> (r: Option<(Kind, i32)>)
        ensures
            r == var_lookup(self.variables@, index),
    {
        let mut j: usize = self.variables.len();
        proof {
            assert(self.variables@.take(j as int) =~= self.variables@);
        }
        while j > 0
            invariant
                j <= self.variables@.len(),
                var_lookup(self.variables@, index) == var_lookup(
                    self.variables@.take(j as int),
                    index,
                ),
            decreases j,
        {
            proof {
                assert(self.variables@.take(j as int).last() == self.variables@[j - 1]);
                assert(self.variables@.take(j as int).drop_last() =~= self.variables@.take(
                    j - 1,
                ));
            }
            if self.variables[j - 1].0 == index {
                return Some((self.variables[j - 1].1, self.variables[j - 1].2));
            }
            j = j - 1;
        }
        None
    }

    /// Stores a value into a declared variable's slot and consumes the
    /// value. The kinds must agree.
    #[verifier::spinoff_prover]
    #[verifier::rlimit(100)]
    pub fn def_var(&mut self, var: Variable, val: Value)
        requires
            old(self).wf(),
            old(self).alive(val.0 as int),
            var_lookup(old(self).variables@, var.0) is Some,
            var_lookup(old(self).variables@, var.0).unwrap().0 == old(self).val_kind(
                val.0 as int,
            ),
            old(self).val_loc(val.0 as int) is Gpr ==> old(self).val_kind(
                val.0 as int,
            ).spec_is_int() && old(self).val_loc(val.0 as int)->Gpr_0 != Register::RIP,
            old(self).val_loc(val.0 as int) is Fpr ==> !old(self).val_kind(
                val.0 as int,
            ).spec_is_int(),
            old(self).sink.data@.len() + 32 <= CODE_LIMIT,
        ensures
            final(self).wf(),
            final(self).values@ == old(self).values@.update(
                val.0 as int,
                None::<(ValueData, Kind)>,
            ),
            final(self).variables@ == old(self).variables@,
            final(self).fixups@ == old(self).fixups@,
            final(self).sink.labels@ == old(self).sink.labels@,
            final(self).sink.jumps@ == old(self).sink.jumps@,
            final(self).sink.dseg == old(self).sink.dseg,
            final(self).name@ == old(self).name@,
            final(self).sink.data@ == old(self).sink.data@ + def_var_bytes(
                old(self).val_loc(val.0 as int),
                old(self).val_kind(val.0 as int),
                var_lookup(old(self).variables@, var.0).unwrap().1,
            ),
    {
        let (kind, off) = match self.variable_slot(var.0) {
            Some(p) => p,
            None => unreached(),
        };
        let (loc, _) = self.get_value_data(val);
        proof {
            crate::sink::lemma_append_keeps_wf(old(self).sink);
        }
        match loc {
            ValueData::Gpr(g) => {
                self.sink.store_mem(kind.to_machine(), Membase::Local(off), Reg::Gpr(g));
            },
            ValueData::Fpr(f) => {
                self.sink.store_mem(kind.to_machine(), Membase::Local(off), Reg::Float(f));
            },
            ValueData::Stack(voff) => {
                if kind.is_int() {
                    self.sink.load_mem(
                        kind.to_machine(),
                        Reg::Gpr(Register::R10),
                        Membase::Local(voff),
                    );
                    let ghost mid = self.sink;
                    proof {
                        crate::sink::lemma_append_keeps_wf(mid);
                    }
                    self.sink.store_mem(
                        kind.to_machine(),
                        Membase::Local(off),
                        Reg::Gpr(Register::R10),
                    );
                } else {
                    self.sink.load_mem(
                        kind.to_machine(),
                        Reg::Float(XMMRegister::XMM8),
                        Membase::Local(voff),
                    );
                    let ghost mid = self.sink;
                    proof {
                        crate::sink::lemma_append_keeps_wf(mid);
                    }
                    self.sink.store_mem(
                        kind.to_machine(),
                        Membase::Local(off),
                        Reg::Float(XMMRegister::XMM8),
                    );
                }
                proof {
                    lemma_concat2(
                        old(self).sink.data@,
                        if kind.spec_is_int() {
                            load_mem_bytes(
                                kind.spec_to_machine(),
                                Reg::Gpr(Register::R10),
                                Membase::Local(voff),
                            )
                        } else {
                            load_mem_bytes(
                                kind.spec_to_machine(),
                                Reg::Float(XMMRegister::XMM8),
                                Membase::Local(voff),
                            )
                        },
                        if kind.spec_is_int() {
                            store_mem_bytes(
                                kind.spec_to_machine(),
                                Membase::Local(off),
                                Reg::Gpr(Register::R10),
                            )
                        } else {
                            store_mem_bytes(
                                kind.spec_to_machine(),
                                Membase::Local(off),
                                Reg::Float(XMMRegister::XMM8),
                            )
                        },
                    );
                }
            },
        }
        self.kill(val);
    }

    /// Reads a declared variable into a fresh value: allocates a location
    /// of the variable's kind and copies the slot's contents into it.
    #[verifier::spinoff_prover]
    #[verifier::rlimit(100)]
    pub fn use_var(&mut self, var: Variable) -> (v: Value)
        requires
            old(self).wf(),
            var_lookup(old(self).variables@, var.0) is Some,
            old(self).sink.data@.len() + 32 <= CODE_LIMIT,
            old(self).localsize + 16 <= FRAME_LIMIT,
            old(self).values@.len() < 0xffff_ffff,
        ensures
            final(self).wf(),
            fresh_value(
                *old(self),
                *final(self),
                v,
                var_lookup(old(self).variables@, var.0).unwrap().0,
            ),
            Self::code_extended(*old(self), *final(self)),
            final(self).sink.data@ == old(self).sink.data@ + use_var_bytes(
                var_lookup(old(self).variables@, var.0).unwrap().0,
                var_lookup(old(self).variables@, var.0).unwrap().1,
                final(self).val_loc(v.0 as int),
            ),
    {
        let (kind, off) = match self.variable_slot(var.0) {
            Some(p) => p,
            None => unreached(),
        };
        let (v, loc) = self.new_value(kind);
        proof {
            crate::sink::lemma_append_keeps_wf(old(self).sink);
        }
        if kind.is_int() {
            self.sink.load_mem(kind.to_machine(), Reg::Gpr(Register::R10), Membase::Local(off));
            let ghost mid = self.sink;
            proof {
                crate::sink::lemma_append_keeps_wf(mid);
            }
            self.move_gpr_result(Register::R10, loc, kind);
            proof {
                lemma_concat2(
                    old(self).sink.data@,
                    load_mem_bytes(
                        kind.spec_to_machine(),
                        Reg::Gpr(Register::R10),
                        Membase::Local(off),
                    ),
                    crate::ops::move_gpr_bytes(Register::R10, loc, kind),
                );
            }
        } else {
            self.sink.load_mem(
                kind.to_machine(),
                Reg::Float(XMMRegister::XMM8),
                Membase::Local(off),
            );
            let ghost mid = self.sink;
            proof {
                crate::sink::lemma_append_keeps_wf(mid);
            }
            match loc {
                ValueData::Fpr(f) => {
                    if kind.to_machine() == MachineMode::Float32 {
                        self.sink.movss(f, XMMRegister::XMM8);
                    } else {
                        self.sink.movsd(f, XMMRegister::XMM8);
                    }
                },
                ValueData::Stack(noff) => {
                    self.sink.store_mem(
                        kind.to_machine(),
                        Membase::Local(noff),
                        Reg::Float(XMMRegister::XMM8),
                    );
                },
                ValueData::Gpr(_) => unreached(),
            }
            proof {
                lemma_concat2(
                    old(self).sink.data@,
                    load_mem_bytes(
                        kind.spec_to_machine(),
                        Reg::Float(XMMRegister::XMM8),
                        Membase::Local(off),
                    ),
                    match loc {
                        ValueData::Fpr(f) => crate::emit::enc_sse_ff(
                            kind.spec_to_machine() != MachineMode::Float32,
                            0x10,
                            f,
                            XMMRegister::XMM8,
                        ),
                        ValueData::Stack(noff) => store_mem_bytes(
                            kind.spec_to_machine(),
                            Membase::Local(noff),
                            Reg::Float(XMMRegister::XMM8),
                        ),
                        ValueData::Gpr(_) => Seq::<u8>::empty(),
                    },
                );
            }
        }
        v
    }
}

/// The bytes of a memory store through a base register held in a value: the
/// base loaded into R10, the stored value loaded into the matching scratch
/// register, then the store through `[R10 + offset]`.
pub open spec fn store_op_bytes(
    base_loc: ValueData,
    base_kind: Kind,
    src_loc: ValueData,
    src_kind: Kind,
    ty: Kind,
    offset: i32,
) -> Seq<u8> {
    load_value_bytes(base_loc, base_kind, Reg::Gpr(Register::R10)) + (if src_kind.spec_is_int() {
        load_value_bytes(src_loc, src_kind, Reg::Gpr(Register::R11)) + store_mem_bytes(
            ty.spec_to_machine(),
            Membase::Base(Register::R10, offset),
            Reg::Gpr(Register::R11),
        )
    } else {
        load_value_bytes(src_loc, src_kind, Reg::Float(XMMRegister::XMM9)) + store_mem_bytes(
            ty.spec_to_machine(),
            Membase::Base(Register::R10, offset),
            Reg::Float(XMMRegister::XMM9),
        )
    })
}

impl Function {
    /// Stores a value through a pointer-valued base: `[base + offset]`
    /// receives the value at the given type's width. Neither operand is
    /// consumed.
    #[verifier::spinoff_prover]
    #[verifier::rlimit(100)]
    pub fn store(&mut self, ty: Kind, base: Value, offset: i32, src: Value)
        requires
            old(self).wf(),
            old(self).alive(base.0 as int),
            old(self).alive(src.0 as int),
            old(self).val_kind(base.0 as int).spec_is_int(),
            ty.spec_is_int() <==> old(self).val_kind(src.0 as int).spec_is_int(),
            old(self).sink.data@.len() + 48 <= CODE_LIMIT,
        ensures
            final(self).wf(),
            Self::code_extended(*old(self), *final(self)),
            Self::tables_unchanged(*old(self), *final(self)),
            final(self).sink.data@ == old(self).sink.data@ + store_op_bytes(
                old(self).val_loc(base.0 as int),
                old(self).val_kind(base.0 as int),
                old(self).val_loc(src.0 as int),
                old(self).val_kind(src.0 as int),
                ty,
                offset,
            ),
    {
        self.load_value(base, Reg::Gpr(Register::R10));
        let (_, skind) = self.get_value_data(src);
        let ghost mid = self.sink.data@;
        if skind.is_int() {
            self.load_value(src, Reg::Gpr(Register::R11));
            let ghost mid2 = self.sink;
            proof {
                crate::sink::lemma_append_keeps_wf(mid2);
            }
            self.sink.store_mem(
                ty.to_machine(),
                Membase::Base(Register::R10, offset),
                Reg::Gpr(Register::R11),
            );
            proof {
                lemma_concat2(
                    mid,
                    load_value_bytes(
                        old(self).val_loc(src.0 as int),
                        old(self).val_kind(src.0 as int),
                        Reg::Gpr(Register::R11),
                    ),
                    store_mem_bytes(
                        ty.spec_to_machine(),
                        Membase::Base(Register::R10, offset),
                        Reg::Gpr(Register::R11),
                    ),
                );
            }
        } else {
            self.load_value(src, Reg::Float(XMMRegister::XMM9));
            let ghost mid2 = self.sink;
            proof {
                crate::sink::lemma_append_keeps_wf(mid2);
            }
            self.sink.store_mem(
                ty.to_machine(),
                Membase::Base(Register::R10, offset),
                Reg::Float(XMMRegister::XMM9),
            );
            proof {
                lemma_concat2(
                    mid,
                    load_value_bytes(
                        old(self).val_loc(src.0 as int),
                        old(self).val_kind(src.0 as int),
                        Reg::Float(XMMRegister::XMM9),
                    ),
                    store_mem_bytes(
                        ty.spec_to_machine(),
                        Membase::Base(Register::R10, offset),
                        Reg::Float(XMMRegister::XMM9),
                    ),
                );
            }
        }
    }
}

} // verus!
