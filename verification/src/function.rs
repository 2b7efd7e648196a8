//! The function builder: a typed value/variable layer over the instruction
//! emitter. Every operation lowers immediately to machine code in the
//! function's own sink; the builder tracks where each live value resides (a
//! callee-saved register or a frame slot), keeps its register pool
//! partitioned into used and free halves, and records a relocation for every
//! outgoing call.

use crate::abi::Linkage;
use crate::registers::{Register, XMMRegister};
use crate::sink::{Sink, CODE_LIMIT};
use crate::types::Kind;
use crate::util::spec_align;
use crate::Value;
use vstd::prelude::*;

verus! {

/// The frame of a single function never grows beyond this many bytes.
pub const FRAME_LIMIT: i32 = 0x0fff_0000;

/// A recorded relocation: the callee's name and the offset, in the
/// function's code, of the eight-byte immediate of a `movabs RAX, imm64`
/// that precedes an indirect call.
#[derive(Clone, Debug)]
pub struct CallFixup {
    pub name: String,
    pub pos: usize,
}

/// Where a live value currently resides.
#[derive(Clone, Copy, Debug, PartialEq, Eq, Structural)]
pub enum ValueData {
    /// A general-purpose register.
    Gpr(Register),
    /// A floating-point register.
    Fpr(XMMRegister),
    /// A frame slot at the given (negative) offset from RBP.
    Stack(i32),
}

impl ValueData {
    /// The general-purpose register of a `Gpr` location.
    pub fn gpr(&self) -> (r: Register)
        requires
            self is Gpr,
        ensures
            *self == ValueData::Gpr(r),
    {
        match self {
            ValueData::Gpr(reg) => *reg,
            _ => unreached(),
        }
    }

    /// The floating-point register of an `Fpr` location.
    pub fn fpr(&self) -> (r: XMMRegister)
        requires
            self is Fpr,
        ensures
            *self == ValueData::Fpr(r),
    {
        match self {
            ValueData::Fpr(reg) => *reg,
            _ => unreached(),
        }
    }

    /// The frame offset of a `Stack` location.
    pub fn off(&self) -> (r: i32)
        requires
            self is Stack,
        ensures
            *self == ValueData::Stack(r),
    {
        match self {
            ValueData::Stack(off) => *off,
            _ => unreached(),
        }
    }

    /// True for a general-purpose register location.
    pub fn is_gpr(&self) -> (r: bool)
        ensures
            r == (self is Gpr),
    {
        match self {
            ValueData::Gpr(_) => true,
            _ => false,
        }
    }

    /// True for a frame-slot location.
    pub fn is_off(&self) -> (r: bool)
        ensures
            r == (self is Stack),
    {
        match self {
            ValueData::Stack(_) => true,
            _ => false,
        }
    }

    /// True for a floating-point register location.
    pub fn is_fpr(&self) -> (r: bool)
        ensures
            r == (self is Fpr),
    {
        !self.is_gpr() && !self.is_off()
    }
}

/// The allocatable general-purpose register of pool slot `i`: the
/// callee-saved set R12 through R15, in preference order.
pub open spec fn gpr_of_slot(i: int) -> Register {
    if i == 0 {
        Register::R12
    } else if i == 1 {
        Register::R13
    } else if i == 2 {
        Register::R14
    } else {
        Register::R15
    }
}

/// The allocatable floating-point register of pool slot `i`: XMM10 through
/// XMM13, in preference order, leaving XMM0..XMM9 for argument passing and
/// scratch.
pub open spec fn fpr_of_slot(i: int) -> XMMRegister {
    if i == 0 {
        XMMRegister::XMM10
    } else if i == 1 {
        XMMRegister::XMM11
    } else if i == 2 {
        XMMRegister::XMM12
    } else {
        XMMRegister::XMM13
    }
}

/// The pool slot an allocatable general-purpose register occupies, if any.
pub open spec fn gpr_slot_of(r: Register) -> Option<int> {
    match r {
        Register::R12 => Some(0int),
        Register::R13 => Some(1int),
        Register::R14 => Some(2int),
        Register::R15 => Some(3int),
        _ => None,
    }
}

/// The pool slot an allocatable floating-point register occupies, if any.
pub open spec fn fpr_slot_of(x: XMMRegister) -> Option<int> {
    match x {
        XMMRegister::XMM10 => Some(0int),
        XMMRegister::XMM11 => Some(1int),
        XMMRegister::XMM12 => Some(2int),
        XMMRegister::XMM13 => Some(3int),
        _ => None,
    }
}

/// The set of allocatable general-purpose registers.
pub open spec fn allocatable_gprs() -> Set<Register> {
    Set::new(|r: Register| exists|i: int| 0 <= i < 4 && gpr_of_slot(i) == r)
}

/// The set of allocatable floating-point registers.
pub open spec fn allocatable_fprs() -> Set<XMMRegister> {
    Set::new(|x: XMMRegister| exists|i: int| 0 <= i < 4 && fpr_of_slot(i) == x)
}

/// A function under construction.
#[derive(Debug)]
pub struct Function {
    pub name: String,
    pub linkage: Linkage,
    pub sink: Sink,
    /// Occupancy of the allocatable general-purpose registers, one flag per
    /// pool slot.
    pub gpr_slots: Vec<bool>,
    /// Occupancy of the allocatable floating-point registers.
    pub fpr_slots: Vec<bool>,
    /// The location and kind of each value handle; `None` once killed.
    pub values: Vec<Option<(ValueData, Kind)>>,
    /// Declared variables: caller-chosen index, kind, and frame offset.
    pub variables: Vec<(u32, Kind, i32)>,
    /// The running frame size in bytes.
    pub localsize: i32,
    /// The relocations recorded for outgoing calls.
    pub fixups: Vec<CallFixup>,
}

impl Function {
    /// The value handle `v` is live.
    pub open spec fn alive(self, v: int) -> bool {
        0 <= v < self.values@.len() && self.values@[v] is Some
    }

    /// The location of live value `v`.
    pub open spec fn val_loc(self, v: int) -> ValueData {
        self.values@[v].unwrap().0
    }

    /// The kind of live value `v`.
    pub open spec fn val_kind(self, v: int) -> Kind {
        self.values@[v].unwrap().1
    }

    /// The set of used general-purpose registers: those whose pool slot is
    /// occupied.
    pub open spec fn used_gprs(self) -> Set<Register> {
        Set::new(
            |r: Register|
                exists|i: int| 0 <= i < 4 && gpr_of_slot(i) == r && self.gpr_slots@[i],
        )
    }

    /// The set of free general-purpose registers.
    pub open spec fn free_gprs(self) -> Set<Register> {
        Set::new(
            |r: Register|
                exists|i: int| 0 <= i < 4 && gpr_of_slot(i) == r && !self.gpr_slots@[i],
        )
    }

    /// The set of used floating-point registers.
    pub open spec fn used_fprs(self) -> Set<XMMRegister> {
        Set::new(
            |x: XMMRegister|
                exists|i: int| 0 <= i < 4 && fpr_of_slot(i) == x && self.fpr_slots@[i],
        )
    }

    /// The set of free floating-point registers.
    pub open spec fn free_fprs(self) -> Set<XMMRegister> {
        Set::new(
            |x: XMMRegister|
                exists|i: int| 0 <= i < 4 && fpr_of_slot(i) == x && !self.fpr_slots@[i],
        )
    }

    /// The builder's invariant: the sink is well formed, the register pool
    /// flags exist, and the frame is bounded.
    pub open spec fn wf(self) -> bool {
        &&& self.sink.wf()
        &&& self.gpr_slots@.len() == 4
        &&& self.fpr_slots@.len() == 4
        &&& 0 <= self.localsize <= FRAME_LIMIT
    }

    /// The code has only been appended to, and the labels, jumps and data
    /// segment of the sink, as well as the function's identity, are
    /// untouched.
    pub open spec fn code_extended(pre: Function, post: Function) -> bool {
        &&& post.sink.data@.len() >= pre.sink.data@.len()
        &&& forall|i: int|
            0 <= i < pre.sink.data@.len() ==> post.sink.data@[i] == pre.sink.data@[i]
        &&& post.sink.labels@ == pre.sink.labels@
        &&& post.sink.jumps@ == pre.sink.jumps@
        &&& post.sink.dseg == pre.sink.dseg
        &&& post.name@ == pre.name@
    }

    /// The value, variable, fixup and register-pool state is untouched.
    pub open spec fn tables_unchanged(pre: Function, post: Function) -> bool {
        &&& post.values@ == pre.values@
        &&& post.variables@ == pre.variables@
        &&& post.fixups@ == pre.fixups@
        &&& post.gpr_slots@ == pre.gpr_slots@
        &&& post.fpr_slots@ == pre.fpr_slots@
        &&& post.localsize == pre.localsize
    }

    /// A fresh function shell with the prologue already emitted:
    /// `push RBP; mov RBP, RSP`.
    pub fn new(name: &str, linkage: Linkage) -> (r: Function)
        ensures
            r.wf(),
            r.name@ == name@,
            r.linkage == linkage,
            r.sink.data@ == seq![0x55u8, 0x48u8, 0x89u8, 0xe5u8],
            r.sink.labels@.len() == 0,
            r.sink.jumps@.len() == 0,
            r.values@.len() == 0,
            r.variables@.len() == 0,
            r.fixups@.len() == 0,
            r.localsize == 0,
            r.free_gprs() == allocatable_gprs(),
            r.free_fprs() == allocatable_fprs(),
    {
        let mut sink = Sink::new();
        sink.emit_prolog();
        let mut gpr_slots: Vec<bool> = Vec::new();
        let mut fpr_slots: Vec<bool> = Vec::new();
        let mut i: usize = 0;
        while i < 4
            invariant
                i <= 4,
                gpr_slots@.len() == i,
                fpr_slots@.len() == i,
                forall|j: int| 0 <= j < i ==> !gpr_slots@[j] && !fpr_slots@[j],
            decreases 4 - i,
        {
            gpr_slots.push(false);
            fpr_slots.push(false);
            i = i + 1;
        }
        let r = Function {
            name: name.to_owned(),
            linkage,
            sink,
            gpr_slots,
            fpr_slots,
            values: Vec::new(),
            variables: Vec::new(),
            localsize: 0,
            fixups: Vec::new(),
        };
        proof {
            assert(r.sink.data@ =~= seq![0x55u8, 0x48u8, 0x89u8, 0xe5u8]);
            assert(r.free_gprs() =~= allocatable_gprs());
            assert(r.free_fprs() =~= allocatable_fprs());
        }
        r
    }

    /// The function's linkage.
    pub fn linkage(&self) -> (r: &Linkage)
        ensures
            r == &self.linkage,
    {
        &self.linkage
    }

    /// The function's sink, for direct emission.
    pub fn sink(&mut self) -> (r: &mut Sink)
        ensures
            *r == old(self).sink,
            final(self).sink == *final(r),
            final(self).linkage == old(self).linkage,
            final(self).values@ == old(self).values@,
            final(self).variables@ == old(self).variables@,
            final(self).fixups@ == old(self).fixups@,
            final(self).gpr_slots@ == old(self).gpr_slots@,
            final(self).fpr_slots@ == old(self).fpr_slots@,
            final(self).localsize == old(self).localsize,
            final(self).name@ == old(self).name@,
    {
        &mut self.sink
    }

    /// The location and kind of a live value.
    pub fn get_value_data(&self, v: Value) -> (r: (ValueData, Kind))
        requires
            self.alive(v.0 as int),
        ensures
            r == self.values@[v.0 as int].unwrap(),
    {
        match self.values[v.0 as usize] {
            Some(d) => d,
            None => unreached(),
        }
    }

    /// Bumps the frame by one naturally aligned slot of the given kind and
    /// returns the new frame size, which is also the slot's distance below
    /// RBP.
    pub fn allocate(&mut self, t: Kind) -> (r: i32)
        requires
            old(self).wf(),
            old(self).localsize + 16 <= FRAME_LIMIT,
        ensures
            final(self).wf(),
            final(self).localsize == spec_align(
                old(self).localsize + t.spec_to_machine().spec_size(),
                t.spec_to_machine().spec_size() as int,
            ),
            old(self).localsize < final(self).localsize <= old(self).localsize + 16,
            r == final(self).localsize,
            final(self).sink == old(self).sink,
            final(self).values@ == old(self).values@,
            final(self).variables@ == old(self).variables@,
            final(self).fixups@ == old(self).fixups@,
            final(self).gpr_slots@ == old(self).gpr_slots@,
            final(self).fpr_slots@ == old(self).fpr_slots@,
            final(self).name@ == old(self).name@,
    {
        let size = t.to_machine().size() as i32;
        let new_offset = crate::util::align(self.localsize + size, size);
        self.localsize = new_offset;
        new_offset
    }

    /// The first free pool slot, if any: the allocation policy scans the
    /// preference order and takes the lowest free slot.
    pub open spec fn first_free(slots: Seq<bool>) -> Option<int> {
        if !slots[0] {
            Some(0)
        } else if !slots[1] {
            Some(1)
        } else if !slots[2] {
            Some(2)
        } else if !slots[3] {
            Some(3)
        } else {
            None
        }
    }

    /// Allocates a location for a value of the given kind: the first free
    /// register of the matching class, or a fresh frame slot when the class
    /// is exhausted.
    pub(crate) fn allocate_value_loc(&mut self, kind: Kind) -> (loc: ValueData)
        requires
            old(self).wf(),
            old(self).localsize + 16 <= FRAME_LIMIT,
        ensures
            final(self).wf(),
            final(self).sink == old(self).sink,
            final(self).values@ == old(self).values@,
            final(self).variables@ == old(self).variables@,
            final(self).fixups@ == old(self).fixups@,
            final(self).name@ == old(self).name@,
            kind.spec_is_int() ==> match Self::first_free(old(self).gpr_slots@) {
                Some(i) => {
                    &&& loc == ValueData::Gpr(gpr_of_slot(i))
                    &&& final(self).gpr_slots@ == old(self).gpr_slots@.update(i, true)
                    &&& final(self).fpr_slots@ == old(self).fpr_slots@
                    &&& final(self).localsize == old(self).localsize
                },
                None => {
                    &&& loc == ValueData::Stack((0 - final(self).localsize) as i32)
                    &&& final(self).gpr_slots@ == old(self).gpr_slots@
                    &&& final(self).fpr_slots@ == old(self).fpr_slots@
                    &&& old(self).localsize < final(self).localsize
                    &&& final(self).localsize <= old(self).localsize + 16
                },
            },
            !kind.spec_is_int() ==> match Self::first_free(old(self).fpr_slots@) {
                Some(i) => {
                    &&& loc == ValueData::Fpr(fpr_of_slot(i))
                    &&& final(self).fpr_slots@ == old(self).fpr_slots@.update(i, true)
                    &&& final(self).gpr_slots@ == old(self).gpr_slots@
                    &&& final(self).localsize == old(self).localsize
                },
                None => {
                    &&& loc == ValueData::Stack((0 - final(self).localsize) as i32)
                    &&& final(self).gpr_slots@ == old(self).gpr_slots@
                    &&& final(self).fpr_slots@ == old(self).fpr_slots@
                    &&& old(self).localsize < final(self).localsize
                    &&& final(self).localsize <= old(self).localsize + 16
                },
            },
            loc is Stack ==> -final(self).localsize <= loc->Stack_0 < 0,
    {
        if kind.is_int() {
            if !self.gpr_slots[0] {
                self.gpr_slots.set(0, true);
                return ValueData::Gpr(Register::R12);
            } else if !self.gpr_slots[1] {
                self.gpr_slots.set(1, true);
                return ValueData::Gpr(Register::R13);
            } else if !self.gpr_slots[2] {
                self.gpr_slots.set(2, true);
                return ValueData::Gpr(Register::R14);
            } else if !self.gpr_slots[3] {
                self.gpr_slots.set(3, true);
                return ValueData::Gpr(Register::R15);
            }
            let size = self.allocate(kind);
            ValueData::Stack(-size)
        } else {
            if !self.fpr_slots[0] {
                self.fpr_slots.set(0, true);
                return ValueData::Fpr(XMMRegister::XMM10);
            } else if !self.fpr_slots[1] {
                self.fpr_slots.set(1, true);
                return ValueData::Fpr(XMMRegister::XMM11);
            } else if !self.fpr_slots[2] {
                self.fpr_slots.set(2, true);
                return ValueData::Fpr(XMMRegister::XMM12);
            } else if !self.fpr_slots[3] {
                self.fpr_slots.set(3, true);
                return ValueData::Fpr(XMMRegister::XMM13);
            }
            let size = self.allocate(kind);
            ValueData::Stack(-size)
        }
    }

    /// Kills a value: removes it from the table and, when it held one of
    /// the allocatable registers, returns that register's pool slot to the
    /// free half, so that the used/free partition of the pool again counts
    /// only live values' registers. Returns whether a register or frame
    /// slot was released; the frame itself keeps its size, since slots are
    /// never reused.
    pub(crate) fn kill(&mut self, v: Value) -> (r: bool)
        requires
            old(self).wf(),
            old(self).alive(v.0 as int),
        ensures
            final(self).wf(),
            final(self).values@ == old(self).values@.update(v.0 as int, None::<(ValueData, Kind)>),
            final(self).variables@ == old(self).variables@,
            final(self).fixups@ == old(self).fixups@,
            final(self).sink == old(self).sink,
            final(self).localsize == old(self).localsize,
            final(self).name@ == old(self).name@,
            match old(self).val_loc(v.0 as int) {
                ValueData::Gpr(reg) => {
                    &&& final(self).fpr_slots@ == old(self).fpr_slots@
                    &&& match gpr_slot_of(reg) {
                        Some(i) => final(self).gpr_slots@ == old(self).gpr_slots@.update(
                            i,
                            false,
                        ) && r == true,
                        None => final(self).gpr_slots@ == old(self).gpr_slots@ && r == false,
                    }
                },
                ValueData::Fpr(x) => {
                    &&& final(self).gpr_slots@ == old(self).gpr_slots@
                    &&& match fpr_slot_of(x) {
                        Some(i) => final(self).fpr_slots@ == old(self).fpr_slots@.update(
                            i,
                            false,
                        ) && r == true,
                        None => final(self).fpr_slots@ == old(self).fpr_slots@ && r == false,
                    }
                },
                ValueData::Stack(_) => {
                    &&& final(self).gpr_slots@ == old(self).gpr_slots@
                    &&& final(self).fpr_slots@ == old(self).fpr_slots@
                    &&& r == true
                },
            },
    {
        let (loc, _kind) = self.get_value_data(v);
        self.values.set(v.0 as usize, None);
        match loc {
            ValueData::Gpr(reg) => {
                match reg {
                    Register::R12 => {
                        self.gpr_slots.set(0, false);
                        true
                    },
                    Register::R13 => {
                        self.gpr_slots.set(1, false);
                        true
                    },
                    Register::R14 => {
                        self.gpr_slots.set(2, false);
                        true
                    },
                    Register::R15 => {
                        self.gpr_slots.set(3, false);
                        true
                    },
                    _ => false,
                }
            },
            ValueData::Fpr(x) => {
                match x {
                    XMMRegister::XMM10 => {
                        self.fpr_slots.set(0, false);
                        true
                    },
                    XMMRegister::XMM11 => {
                        self.fpr_slots.set(1, false);
                        true
                    },
                    XMMRegister::XMM12 => {
                        self.fpr_slots.set(2, false);
                        true
                    },
                    XMMRegister::XMM13 => {
                        self.fpr_slots.set(3, false);
                        true
                    },
                    _ => false,
                }
            },
            ValueData::Stack(_off) => true,
        }
    }
}

/// The allocatable general-purpose register of a pool slot, as executable
/// code.
pub fn slot_gpr(i: usize) -> (r: Register)
    requires
        i < 4,
    ensures
        r == gpr_of_slot(i as int),
{
    if i == 0 {
        Register::R12
    } else if i == 1 {
        Register::R13
    } else if i == 2 {
        Register::R14
    } else {
        Register::R15
    }
}
/// The fresh-value effects shared by every operation that produces a value:
/// the result handle is the next free id, it is live with the given kind,
/// and every other table entry is untouched.
pub open spec fn fresh_value(pre: Function, post: Function, v: Value, k: Kind) -> bool {
    &&& v.0 == pre.values@.len()
    &&& post.values@.len() == pre.values@.len() + 1
    &&& post.alive(v.0 as int)
    &&& post.val_kind(v.0 as int) == k
    &&& forall|w: int|
        0 <= w < pre.values@.len() ==> post.values@[w] == pre.values@[w]
    &&& post.variables@ == pre.variables@
    &&& post.fixups@ == pre.fixups@
}

impl Function {
    /// Allocates a location and registers a fresh value of the given kind in
    /// it.
    #[verifier::rlimit(50)]
    pub(crate) fn new_value(&mut self, kind: Kind) -> (r: (Value, ValueData))
        requires
            old(self).wf(),
            old(self).localsize + 16 <= FRAME_LIMIT,
            old(self).values@.len() < 0xffff_ffff,
        ensures
            final(self).wf(),
            fresh_value(*old(self), *final(self), r.0, kind),
            final(self).val_loc(r.0.0 as int) == r.1,
            final(self).sink == old(self).sink,
            final(self).name@ == old(self).name@,
            final(self).localsize <= old(self).localsize + 16,
            kind.spec_is_int() ==> !(r.1 is Fpr),
            !kind.spec_is_int() ==> !(r.1 is Gpr),
            r.1 is Gpr ==> r.1->Gpr_0 != Register::RIP,
    {
        let loc = self.allocate_value_loc(kind);
        let v = Value(self.values.len() as u32);
        self.values.push(Some((loc, kind)));
        (v, loc)
    }

}

} // verus!
