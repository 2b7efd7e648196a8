//! The code sink: a growing byte buffer with little-endian put helpers, a
//! label table, and a forward-jump fixup list. Emitting a jump to a bound
//! label writes its rel32 displacement at once; a jump to an unbound label
//! writes four zero bytes and records a fixup, and `fix_forward_jumps`
//! patches every such slot once all labels are bound.

use crate::dseg::DSeg;
use crate::util::{le32_of, u32_of_i32};
use vstd::prelude::*;

verus! {

/// The code buffer never grows beyond this many bytes, so that every rel32
/// displacement and RIP-relative offset stays inside a signed 32-bit range.
pub const CODE_LIMIT: usize = 0x3fff_0000;

/// A recorded forward jump: the buffer offset `at` of a four-byte
/// displacement slot, and the label index `to` it waits for.
#[derive(Clone, Copy, Debug, PartialEq, Eq, Structural)]
pub struct ForwardJump {
    pub at: usize,
    pub to: usize,
}

/// The code sink.
#[derive(Debug)]
pub struct Sink {
    pub data: Vec<u8>,
    pub labels: Vec<Option<usize>>,
    pub jumps: Vec<ForwardJump>,
    pub dseg: DSeg,
}

/// `post` is `pre` with `bytes` appended to the code buffer and everything
/// else unchanged.
pub open spec fn emits(pre: Sink, post: Sink, bytes: Seq<u8>) -> bool {
    &&& post.data@ == pre.data@ + bytes
    &&& post.labels@ == pre.labels@
    &&& post.jumps@ == pre.jumps@
    &&& post.dseg == pre.dseg
}

/// The four displacement bytes that a jump to `lbl` writes when the slot
/// begins at `pos` (so the next instruction begins at `pos + 4`): the
/// two's-complement rel32 for a bound label, four zero bytes otherwise.
pub open spec fn label_disp_bytes(labels: Seq<Option<usize>>, pos: int, lbl: int) -> Seq<u8> {
    match labels[lbl] {
        Some(target) => le32_of(u32_of_i32(target - (pos + 4))),
        None => le32_of(0),
    }
}

/// `post` is `pre` with the opcode bytes `opc` and a displacement for `lbl`
/// appended; when `lbl` was still unbound, a forward jump was recorded for
/// the displacement slot.
pub open spec fn jump_emitted(pre: Sink, post: Sink, opc: Seq<u8>, lbl: int) -> bool {
    &&& post.data@ == pre.data@ + opc + label_disp_bytes(
        pre.labels@,
        pre.data@.len() + opc.len() as int,
        lbl,
    )
    &&& post.labels@ == pre.labels@
    &&& post.dseg == pre.dseg
    &&& post.jumps@ == if pre.labels@[lbl] is Some {
        pre.jumps@
    } else {
        pre.jumps@.push(
            ForwardJump { at: (pre.data@.len() + opc.len()) as usize, to: lbl as usize },
        )
    }
}

/// Appending bytes to a well-formed sink leaves it well formed, as long as
/// the buffer stays within bounds: labels and jumps are untouched and every
/// recorded offset still lies inside the (longer) buffer.
pub proof fn lemma_append_keeps_wf(pre: Sink)
    ensures
        forall|post: Sink, bytes: Seq<u8>|
            pre.wf() && #[trigger] emits(pre, post, bytes) && post.data@.len() <= CODE_LIMIT
                ==> post.wf(),
{
}


impl Sink {
    /// The buffer is within bounds; every recorded jump slot lies inside the
    /// emitted code, waits for an existing label, and (once that label is
    /// bound) jumps forward; jump slots never overlap; every bound label
    /// points into the emitted code; the data segment is well formed.
    pub open spec fn wf(self) -> bool {
        &&& self.data@.len() <= CODE_LIMIT
        &&& self.dseg.wf()
        &&& forall|i: int|
            0 <= i < self.jumps@.len() ==> {
                let j = #[trigger] self.jumps@[i];
                &&& j.at + 4 <= self.data@.len()
                &&& j.to < self.labels@.len()
                &&& (self.labels@[j.to as int] is Some ==> j.at + 4
                    <= self.labels@[j.to as int].unwrap())
            }
        &&& forall|i: int|
            0 < i < self.jumps@.len() ==> (#[trigger] self.jumps@[i]).at >= self.jumps@[i - 1].at
                + 4
        &&& forall|i: int|
            0 <= i < self.labels@.len() && self.labels@[i] is Some ==> (#[trigger] self.labels@[i]).unwrap()
                <= self.data@.len()
    }

    /// Any two recorded jump slots, in order, do not overlap.
    pub proof fn lemma_jumps_apart(self, j: int, i: int)
        requires
            self.wf(),
            0 <= j < i < self.jumps@.len(),
        ensures
            self.jumps@[j].at + 4 <= self.jumps@[i].at,
        decreases i - j,
    {
        if j < i - 1 {
            self.lemma_jumps_apart(j, i - 1);
        }
    }

    /// An empty sink.
    pub fn new() -> (r: Sink)
        ensures
            r.wf(),
            r.data@.len() == 0,
            r.labels@.len() == 0,
            r.jumps@.len() == 0,
            r.dseg.spec_entries().len() == 0,
            r.dseg.spec_size() == 0,
    {
        Sink { data: Vec::new(), labels: Vec::new(), jumps: Vec::new(), dseg: DSeg::new() }
    }

    /// A sink over an existing code buffer, with no labels and no jumps.
    pub fn new_from_buffer(buff: Vec<u8>) -> (r: Sink)
        requires
            buff@.len() <= CODE_LIMIT,
        ensures
            r.wf(),
            r.data@ == buff@,
            r.labels@.len() == 0,
            r.jumps@.len() == 0,
    {
        Sink { data: buff, labels: Vec::new(), jumps: Vec::new(), dseg: DSeg::new() }
    }

    /// The bytes emitted so far.
    pub fn data(&self) -> (r: &Vec<u8>)
        ensures
            r@ == self.data@,
    {
        &self.data
    }

    /// The number of bytes emitted so far.
    pub fn size(&self) -> (r: usize)
        ensures
            r == self.data@.len(),
    {
        self.data.len()
    }

    /// The number of bytes emitted so far.
    pub fn pos(&self) -> (r: usize)
        ensures
            r == self.data@.len(),
    {
        self.data.len()
    }

    /// The data segment.
    pub fn dseg(&self) -> (r: &DSeg)
        ensures
            r == &self.dseg,
    {
        &self.dseg
    }

    /// The data segment, for appending constants.
    pub fn dseg_mut(&mut self) -> (r: &mut DSeg)
        ensures
            *r == old(self).dseg,
            final(self).dseg == *final(r),
            final(self).data@ == old(self).data@,
            final(self).labels@ == old(self).labels@,
            final(self).jumps@ == old(self).jumps@,
    {
        &mut self.dseg
    }

    /// Appends one byte.
    pub fn put(&mut self, b: u8)
        requires
            old(self).data@.len() + 1 <= CODE_LIMIT,
        ensures
            emits(*old(self), *final(self), seq![b]),
    {
        self.data.push(b);
        proof {
            assert(self.data@ =~= old(self).data@ + seq![b]);
        }
    }

    /// Appends one byte; the name the higher layers use.
    pub fn emit(&mut self, byte: u8)
        requires
            old(self).data@.len() + 1 <= CODE_LIMIT,
        ensures
            emits(*old(self), *final(self), seq![byte]),
    {
        self.put(byte);
    }

    /// Appends the four little-endian bytes of `v`.
    pub fn put_4(&mut self, v: u32)
        requires
            old(self).data@.len() + 4 <= CODE_LIMIT,
        ensures
            emits(*old(self), *final(self), le32_of(v)),
    {
        self.data.push((v % 0x100) as u8);
        self.data.push(((v / 0x100) % 0x100) as u8);
        self.data.push(((v / 0x1_0000) % 0x100) as u8);
        self.data.push(((v / 0x100_0000) % 0x100) as u8);
        proof {
            assert(self.data@ =~= old(self).data@ + le32_of(v));
        }
    }

    /// Appends the four little-endian bytes of `v`; the 32-bit emit name.
    pub fn emit32(&mut self, v: u32)
        requires
            old(self).data@.len() + 4 <= CODE_LIMIT,
        ensures
            emits(*old(self), *final(self), le32_of(v)),
    {
        self.put_4(v);
    }

    /// Appends the eight little-endian bytes of `v`.
    pub fn put_8(&mut self, v: u64)
        requires
            old(self).data@.len() + 8 <= CODE_LIMIT,
        ensures
            emits(*old(self), *final(self), crate::util::le64_of(v)),
    {
        self.data.push((v % 0x100) as u8);
        self.data.push(((v / 0x100) % 0x100) as u8);
        self.data.push(((v / 0x1_0000) % 0x100) as u8);
        self.data.push(((v / 0x100_0000) % 0x100) as u8);
        self.data.push(((v / 0x1_0000_0000) % 0x100) as u8);
        self.data.push(((v / 0x100_0000_0000) % 0x100) as u8);
        self.data.push(((v / 0x1_0000_0000_0000) % 0x100) as u8);
        self.data.push(((v / 0x100_0000_0000_0000) % 0x100) as u8);
        proof {
            assert(self.data@ =~= old(self).data@ + crate::util::le64_of(v));
        }
    }

    /// Appends the eight little-endian bytes of `v`; the 64-bit emit name.
    pub fn emit64(&mut self, v: u64)
        requires
            old(self).data@.len() + 8 <= CODE_LIMIT,
        ensures
            emits(*old(self), *final(self), crate::util::le64_of(v)),
    {
        self.put_8(v);
    }

    /// Appends a whole byte slice.
    pub fn put_slice(&mut self, s: &[u8])
        requires
            old(self).data@.len() + s@.len() <= CODE_LIMIT,
        ensures
            emits(*old(self), *final(self), s@),
    {
        let mut i: usize = 0;
        while i < s.len()
            invariant
                old(self).data@.len() + s@.len() <= CODE_LIMIT,
                i <= s@.len(),
                emits(*old(self), *self, s@.subrange(0, i as int)),
            decreases s@.len() - i,
        {
            self.put(s[i]);
            proof {
                assert(self.data@ =~= old(self).data@ + s@.subrange(0, i + 1 as int));
            }
            i = i + 1;
        }
        proof {
            assert(s@.subrange(0, s@.len() as int) =~= s@);
        }
    }

    /// Overwrites the four bytes at `pos` with the little-endian image of
    /// `value`, leaving all other bytes in place.
    pub fn emit_u32_at(&mut self, pos: usize, value: u32)
        requires
            old(self).wf(),
            pos + 4 <= old(self).data@.len(),
        ensures
            final(self).wf(),
            final(self).data@.len() == old(self).data@.len(),
            final(self).data@.subrange(pos as int, pos + 4) == le32_of(value),
            forall|i: int|
                0 <= i < old(self).data@.len() && !(pos <= i < pos + 4)
                    ==> final(self).data@[i] == old(self).data@[i],
            final(self).labels@ == old(self).labels@,
            final(self).jumps@ == old(self).jumps@,
            final(self).dseg == old(self).dseg,
    {
        let bytes_0: u8 = (value % 0x100) as u8;
        let bytes_1: u8 = ((value / 0x100) % 0x100) as u8;
        let bytes_2: u8 = ((value / 0x1_0000) % 0x100) as u8;
        let bytes_3: u8 = ((value / 0x100_0000) % 0x100) as u8;
        self.data.set(pos, bytes_0);
        self.data.set(pos + 1, bytes_1);
        self.data.set(pos + 2, bytes_2);
        self.data.set(pos + 3, bytes_3);
        proof {
            assert(self.data@.subrange(pos as int, pos + 4) =~= le32_of(value));
        }
    }

    /// Creates a fresh, unbound label and returns its index.
    pub fn create_label(&mut self) -> (idx: usize)
        requires
            old(self).wf(),
        ensures
            final(self).wf(),
            idx == old(self).labels@.len(),
            final(self).labels@ == old(self).labels@.push(None::<usize>),
            final(self).data@ == old(self).data@,
            final(self).jumps@ == old(self).jumps@,
            final(self).dseg == old(self).dseg,
    {
        let idx = self.labels.len();
        self.labels.push(None);
        idx
    }

    /// Binds label `lbl` to the current end of the buffer. A label may be
    /// bound only once.
    pub fn bind_label(&mut self, lbl: usize)
        requires
            old(self).wf(),
            lbl < old(self).labels@.len(),
            old(self).labels@[lbl as int] is None,
        ensures
            final(self).wf(),
            final(self).labels@ == old(self).labels@.update(
                lbl as int,
                Some(old(self).data@.len() as usize),
            ),
            final(self).data@ == old(self).data@,
            final(self).jumps@ == old(self).jumps@,
            final(self).dseg == old(self).dseg,
    {
        let here = self.data.len();
        self.labels.set(lbl, Some(here));
    }

    /// Writes the four-byte displacement for a jump to `lbl` whose slot
    /// begins here: the rel32 to a bound label, or four zero bytes and a
    /// recorded forward jump for an unbound one.
    #[verifier::rlimit(50)]
    pub fn emit_label(&mut self, lbl: usize)
        requires
            old(self).wf(),
            lbl < old(self).labels@.len(),
            old(self).data@.len() + 4 <= CODE_LIMIT,
        ensures
            final(self).wf(),
            jump_emitted(*old(self), *final(self), Seq::<u8>::empty(), lbl as int),
    {
        proof {
            lemma_append_keeps_wf(*old(self));
        }
        let bound = self.labels[lbl];
        match bound {
            Some(target) => {
                // The target of a bound label lies at or before the current
                // position, so the displacement is never positive.
                let current: usize = self.data.len() + 4;
                let diff: i64 = target as i64 - current as i64;
                let diff32: i32 = diff as i32;
                self.put_4(crate::util::to_u32_2c(diff32));
                proof {
                    assert(old(self).data@ + Seq::<u8>::empty() =~= old(self).data@);
                    assert(self.data@ =~= old(self).data@ + Seq::<u8>::empty() + label_disp_bytes(
                        old(self).labels@,
                        old(self).data@.len() as int,
                        lbl as int,
                    ));
                }
            },
            None => {
                let pos = self.data.len();
                self.put_4(0);
                self.jumps.push(ForwardJump { at: pos, to: lbl });
                proof {
                    assert(le32_of(u32_of_i32(0)) =~= le32_of(0));
                    assert(old(self).data@ + Seq::<u8>::empty() =~= old(self).data@);
                    assert(self.data@ =~= old(self).data@ + Seq::<u8>::empty() + label_disp_bytes(
                        old(self).labels@,
                        old(self).data@.len() as int,
                        lbl as int,
                    ));
                }
            },
        }
    }

    /// True when every label that a recorded forward jump waits for has
    /// been bound.
    pub open spec fn all_jumps_bound(self) -> bool {
        forall|i: int|
            0 <= i < self.jumps@.len() ==> self.labels@[(#[trigger] self.jumps@[i]).to as int]
                is Some
    }

    /// Patches every recorded forward-jump slot with the rel32 displacement
    /// to its now-bound target: the four bytes at `at` become the
    /// little-endian two's complement of `target - at - 4`, and all bytes
    /// outside the slots stay as they were.
    #[verifier::rlimit(50)]
    pub fn fix_forward_jumps(&mut self)
        requires
            old(self).wf(),
            old(self).all_jumps_bound(),
        ensures
            final(self).wf(),
            final(self).data@.len() == old(self).data@.len(),
            final(self).labels@ == old(self).labels@,
            final(self).jumps@ == old(self).jumps@,
            final(self).dseg == old(self).dseg,
            forall|i: int|
                0 <= i < final(self).jumps@.len() ==> {
                    let j = #[trigger] final(self).jumps@[i];
                    final(self).data@.subrange(j.at as int, j.at + 4) == le32_of(
                        u32_of_i32(
                            final(self).labels@[j.to as int].unwrap() - j.at - 4,
                        ),
                    )
                },
            forall|i: int|
                0 <= i < old(self).data@.len() && (forall|k: int|
                    0 <= k < old(self).jumps@.len() ==> !((#[trigger] old(self).jumps@[k]).at <= i
                        < old(self).jumps@[k].at + 4)) ==> final(self).data@[i] == old(
                    self,
                ).data@[i],
    {
        let n = self.jumps.len();
        let mut k: usize = 0;
        while k < n
            invariant
                self.wf(),
                self.all_jumps_bound(),
                n == self.jumps@.len(),
                k <= n,
                self.data@.len() == old(self).data@.len(),
                self.labels@ == old(self).labels@,
                self.jumps@ == old(self).jumps@,
                self.dseg == old(self).dseg,
                forall|i: int|
                    0 <= i < k ==> {
                        let j = #[trigger] self.jumps@[i];
                        self.data@.subrange(j.at as int, j.at + 4) == le32_of(
                            u32_of_i32(self.labels@[j.to as int].unwrap() - j.at - 4),
                        )
                    },
                forall|i: int|
                    0 <= i < self.data@.len() && (forall|t: int|
                        0 <= t < self.jumps@.len() ==> !((#[trigger] self.jumps@[t]).at <= i
                            < self.jumps@[t].at + 4)) ==> self.data@[i] == old(self).data@[i],
            decreases n - k,
        {
            let jmp = self.jumps[k];
            let target = match self.labels[jmp.to] {
                Some(t) => t,
                None => unreached(),
            };
            // The label was bound after the jump slot was emitted, so the
            // displacement is non-negative and fits in 32 bits.
            let diff: usize = target - jmp.at - 4;
            let ghost data_before = self.data@;
            self.emit_u32_at(jmp.at, diff as u32);
            proof {
                let jk = self.jumps@[k as int];
                assert(u32_of_i32(self.labels@[jk.to as int].unwrap() - jk.at - 4) == diff as u32);
                assert forall|i: int| 0 <= i < k + 1 implies {
                    let j = #[trigger] self.jumps@[i];
                    self.data@.subrange(j.at as int, j.at + 4) == le32_of(
                        u32_of_i32(self.labels@[j.to as int].unwrap() - j.at - 4),
                    )
                } by {
                    let j = self.jumps@[i];
                    if i < k {
                        self.lemma_jumps_apart(i, k as int);
                        assert(self.data@.subrange(j.at as int, j.at + 4) =~= data_before.subrange(
                            j.at as int,
                            j.at + 4,
                        ));
                    } else {
                        assert(self.data@.subrange(j.at as int, j.at + 4) =~= le32_of(
                            diff as u32,
                        ));
                    }
                }
            }
            k = k + 1;
        }
    }
}

} // verus!
