//! The data segment: an append-only pool of scalar constants that is laid
//! out immediately before the code, so that the emitted code can reach each
//! constant with a RIP-relative load. Floating-point constants are held as
//! their IEEE bit patterns; addresses as plain 64-bit numbers.
//!
//! Each insert aligns the running size to the value's natural alignment and
//! records the displacement of the value *from the end of the segment*. The
//! finished image writes every entry at `size - disp`, so a load placed
//! right after the segment finds the value `disp` bytes before its base.

use crate::util::{le32_of, le64_of, spec_align, to_u32_2c, u32_of_i32};
use vstd::prelude::*;

verus! {

/// The data segment never grows beyond this many bytes, so that
/// displacements and RIP-relative offsets stay inside a signed 32-bit range.
pub const DSEG_LIMIT: i32 = 0x3fff_0000;

/// A constant held in the data segment.
#[derive(Clone, Copy, Debug, PartialEq, Eq, Structural)]
pub enum DataValue {
    /// A 32-bit integer.
    Int(i32),
    /// The bit pattern of a 32-bit float.
    Float(u32),
    /// The bit pattern of a 64-bit float.
    Double(u64),
    /// A host address.
    Ptr(u64),
}

impl DataValue {
    /// The little-endian image of the value.
    pub open spec fn bytes(self) -> Seq<u8> {
        match self {
            DataValue::Int(v) => le32_of(u32_of_i32(v as int)),
            DataValue::Float(bits) => le32_of(bits),
            DataValue::Double(bits) => le64_of(bits),
            DataValue::Ptr(p) => le64_of(p),
        }
    }

    /// The size of the value in bytes, which is also its natural alignment.
    pub open spec fn spec_size(self) -> i32 {
        match self {
            DataValue::Int(_) => 4,
            DataValue::Float(_) => 4,
            DataValue::Double(_) => 8,
            DataValue::Ptr(_) => 8,
        }
    }

    /// The size of the value in bytes.
    pub fn size(&self) -> (r: i32)
        ensures
            r == self.spec_size(),
            r == self.bytes().len(),
    {
        match self {
            DataValue::Int(_) => 4,
            DataValue::Float(_) => 4,
            DataValue::Double(_) => 8,
            DataValue::Ptr(_) => 8,
        }
    }

    /// Writes the little-endian image of the value.
    pub fn to_bytes(&self) -> (r: Vec<u8>)
        ensures
            r@ == self.bytes(),
    {
        let mut out: Vec<u8> = Vec::new();
        match self {
            DataValue::Int(v) => {
                push_le32(&mut out, to_u32_2c(*v));
            },
            DataValue::Float(bits) => {
                push_le32(&mut out, *bits);
            },
            DataValue::Double(bits) => {
                push_le64(&mut out, *bits);
            },
            DataValue::Ptr(p) => {
                push_le64(&mut out, *p);
            },
        }
        out
    }
}

/// Appends the four little-endian bytes of `x`.
pub fn push_le32(out: &mut Vec<u8>, x: u32)
    ensures
        final(out)@ == old(out)@ + le32_of(x),
{
    out.push((x % 0x100) as u8);
    out.push(((x / 0x100) % 0x100) as u8);
    out.push(((x / 0x1_0000) % 0x100) as u8);
    out.push(((x / 0x100_0000) % 0x100) as u8);
    proof {
        assert(out@ =~= old(out)@ + le32_of(x));
    }
}

/// Appends the eight little-endian bytes of `x`.
pub fn push_le64(out: &mut Vec<u8>, x: u64)
    ensures
        final(out)@ == old(out)@ + le64_of(x),
{
    out.push((x % 0x100) as u8);
    out.push(((x / 0x100) % 0x100) as u8);
    out.push(((x / 0x1_0000) % 0x100) as u8);
    out.push(((x / 0x100_0000) % 0x100) as u8);
    out.push(((x / 0x1_0000_0000) % 0x100) as u8);
    out.push(((x / 0x100_0000_0000) % 0x100) as u8);
    out.push(((x / 0x1_0000_0000_0000) % 0x100) as u8);
    out.push(((x / 0x100_0000_0000_0000) % 0x100) as u8);
    proof {
        assert(out@ =~= old(out)@ + le64_of(x));
    }
}

/// One constant of the pool together with its displacement from the end of
/// the segment.
#[derive(Clone, Copy, Debug, PartialEq, Eq, Structural)]
pub struct Entry {
    pub disp: i32,
    pub value: DataValue,
}

/// The constant pool.
#[derive(Debug)]
pub struct DSeg {
    pub entries: Vec<Entry>,
    pub size: i32,
}

impl DSeg {
    /// Every entry fits inside the segment, displacements grow with the
    /// entry order, and consecutive entries leave room for one another, so
    /// the finished image holds each value unclobbered.
    pub open spec fn wf(self) -> bool {
        &&& 0 <= self.size <= DSEG_LIMIT
        &&& forall|i: int|
            0 <= i < self.entries@.len() ==> {
                &&& (#[trigger] self.entries@[i]).value.spec_size()
                    <= self.entries@[i].disp
                &&& self.entries@[i].disp <= self.size
            }
        &&& forall|i: int|
            0 < i < self.entries@.len() ==> (#[trigger] self.entries@[i]).disp
                - self.entries@[i].value.spec_size() >= self.entries@[i - 1].disp
    }

    /// The displacements of any two entries, in order, keep their whole
    /// values apart: the later entry ends at or below where the earlier
    /// one begins in the image.
    pub proof fn lemma_entries_apart(self, j: int, i: int)
        requires
            self.wf(),
            0 <= j < i < self.entries@.len(),
        ensures
            self.entries@[i].disp - self.entries@[i].value.spec_size() >= self.entries@[j].disp,
        decreases i - j,
    {
        if j < i - 1 {
            self.lemma_entries_apart(j, i - 1);
        }
    }

    /// An empty pool.
    pub fn new() -> (r: DSeg)
        ensures
            r.wf(),
            r.entries@.len() == 0,
            r.spec_size() == 0,
    {
        DSeg { entries: Vec::new(), size: 0 }
    }

    /// The running size of the pool in bytes.
    pub open spec fn spec_size(self) -> i32 {
        self.size
    }

    /// The entries inserted so far, in insertion order.
    pub open spec fn spec_entries(self) -> Seq<Entry> {
        self.entries@
    }

    /// The running size of the pool in bytes.
    pub fn size(&self) -> (r: i32)
        ensures
            r == self.spec_size(),
    {
        self.size
    }

    /// Appends one value: aligns the running size to the value's natural
    /// alignment, then places the value there. Returns the displacement of
    /// the value from the end of the segment.
    fn add_value(&mut self, v: DataValue) -> (disp: i32)
        requires
            old(self).wf(),
            old(self).spec_size() + 16 <= DSEG_LIMIT,
        ensures
            final(self).wf(),
            disp == final(self).spec_size(),
            final(self).spec_size() == spec_align(
                old(self).spec_size() + v.spec_size(),
                v.spec_size() as int,
            ),
            final(self).spec_entries() == old(self).spec_entries().push(
                Entry { disp, value: v },
            ),
            old(self).spec_size() < final(self).spec_size() <= old(self).spec_size() + 16,
    {
        let size = v.size();
        self.size = crate::util::align(self.size + size, size);
        let entry = Entry { disp: self.size, value: v };
        self.entries.push(entry);
        self.size
    }

    /// Appends a 32-bit integer constant; returns its displacement.
    pub fn add_int(&mut self, value: i32) -> (disp: i32)
        requires
            old(self).wf(),
            old(self).spec_size() + 16 <= DSEG_LIMIT,
        ensures
            final(self).wf(),
            disp == final(self).spec_size(),
            final(self).spec_entries() == old(self).spec_entries().push(
                Entry { disp, value: DataValue::Int(value) },
            ),
            disp == spec_align(old(self).spec_size() + 4, 4),
            old(self).spec_size() < final(self).spec_size() <= old(self).spec_size() + 16,
    {
        self.add_value(DataValue::Int(value))
    }

    /// Appends a 32-bit float constant, given as its bit pattern; returns
    /// its displacement.
    pub fn add_float(&mut self, bits: u32) -> (disp: i32)
        requires
            old(self).wf(),
            old(self).spec_size() + 16 <= DSEG_LIMIT,
        ensures
            final(self).wf(),
            disp == final(self).spec_size(),
            final(self).spec_entries() == old(self).spec_entries().push(
                Entry { disp, value: DataValue::Float(bits) },
            ),
            disp == spec_align(old(self).spec_size() + 4, 4),
            old(self).spec_size() < final(self).spec_size() <= old(self).spec_size() + 16,
    {
        self.add_value(DataValue::Float(bits))
    }

    /// Appends a 64-bit float constant, given as its bit pattern; returns
    /// its displacement.
    pub fn add_double(&mut self, bits: u64) -> (disp: i32)
        requires
            old(self).wf(),
            old(self).spec_size() + 16 <= DSEG_LIMIT,
        ensures
            final(self).wf(),
            disp == final(self).spec_size(),
            final(self).spec_entries() == old(self).spec_entries().push(
                Entry { disp, value: DataValue::Double(bits) },
            ),
            disp == spec_align(old(self).spec_size() + 8, 8),
            old(self).spec_size() < final(self).spec_size() <= old(self).spec_size() + 16,
    {
        self.add_value(DataValue::Double(bits))
    }

    /// Appends a host address; returns its displacement.
    pub fn add_addr(&mut self, value: u64) -> (disp: i32)
        requires
            old(self).wf(),
            old(self).spec_size() + 16 <= DSEG_LIMIT,
        ensures
            final(self).wf(),
            disp == final(self).spec_size(),
            final(self).spec_entries() == old(self).spec_entries().push(
                Entry { disp, value: DataValue::Ptr(value) },
            ),
            disp == spec_align(old(self).spec_size() + 8, 8),
            old(self).spec_size() < final(self).spec_size() <= old(self).spec_size() + 16,
    {
        self.add_value(DataValue::Ptr(value))
    }

    /// Appends a host address unless an equal address is already pooled; in
    /// that case returns the displacement of the existing entry.
    pub fn add_addr_reuse(&mut self, value: u64) -> (disp: i32)
        requires
            old(self).wf(),
            old(self).spec_size() + 16 <= DSEG_LIMIT,
        ensures
            final(self).wf(),
            if exists|i: int|
                0 <= i < old(self).spec_entries().len() && (#[trigger] old(
                    self,
                ).spec_entries()[i]).value == DataValue::Ptr(value) {
                *final(self) == *old(self) && exists|i: int|
                    {
                        &&& 0 <= i < old(self).spec_entries().len()
                        &&& (#[trigger] old(self).spec_entries()[i]).value == DataValue::Ptr(
                            value,
                        )
                        &&& disp == old(self).spec_entries()[i].disp
                        &&& forall|j: int|
                            0 <= j < i ==> (#[trigger] old(self).spec_entries()[j]).value
                                != DataValue::Ptr(value)
                    }
            } else {
                &&& disp == final(self).spec_size()
                &&& disp == spec_align(old(self).spec_size() + 8, 8)
                &&& final(self).spec_entries() == old(self).spec_entries().push(
                    Entry { disp, value: DataValue::Ptr(value) },
                )
                &&& old(self).spec_size() < final(self).spec_size() <= old(self).spec_size()
                    + 16
            },
    {
        let mut i: usize = 0;
        while i < self.entries.len()
            invariant
                *self == *old(self),
                self.wf(),
                self.spec_size() + 16 <= DSEG_LIMIT,
                i <= self.entries@.len(),
                forall|j: int|
                    0 <= j < i ==> (#[trigger] self.entries@[j]).value != DataValue::Ptr(value),
            decreases self.entries@.len() - i,
        {
            let e = self.entries[i];
            match e.value {
                DataValue::Ptr(p) => {
                    if p == value {
                        return e.disp;
                    }
                },
                _ => {},
            }
            i = i + 1;
        }
        self.add_addr(value)
    }

    /// Rounds the running size up to a multiple of `size`.
    pub fn align(&mut self, size: i32) -> (r: i32)
        requires
            old(self).wf(),
            0 < size <= 16,
            old(self).spec_size() + 16 <= DSEG_LIMIT,
        ensures
            final(self).wf(),
            final(self).spec_entries() == old(self).spec_entries(),
            final(self).spec_size() == spec_align(old(self).spec_size() as int, size as int),
            r == final(self).spec_size(),
            old(self).spec_size() <= final(self).spec_size() < old(self).spec_size() + size,
            final(self).spec_size() % size == 0,
    {
        self.size = crate::util::align(self.size, size);
        self.size
    }

    /// The finished image of the pool: `size` bytes, zero where no entry
    /// lies, and the little-endian bytes of each entry written `disp` bytes
    /// before the end.
    pub fn finish(&self) -> (img: Vec<u8>)
        requires
            self.wf(),
        ensures
            img@.len() == self.spec_size(),
            forall|i: int|
                0 <= i < self.spec_entries().len() ==> {
                    let e = #[trigger] self.spec_entries()[i];
                    img@.subrange(
                        self.spec_size() - e.disp,
                        self.spec_size() - e.disp + e.value.spec_size(),
                    ) == e.value.bytes()
                },
    {
        let total: usize = self.size as usize;
        let mut img: Vec<u8> = Vec::new();
        // Zero fill.
        while img.len() < total
            invariant
                img@.len() <= total,
            decreases total - img@.len(),
        {
            img.push(0u8);
        }
        let ghost size = self.size as int;
        let mut k: usize = 0;
        while k < self.entries.len()
            invariant
                self.wf(),
                img@.len() == self.spec_size(),
                k <= self.spec_entries().len(),
                total == self.spec_size(),
                size == self.spec_size(),
                forall|i: int|
                    0 <= i < k ==> {
                        let e = #[trigger] self.spec_entries()[i];
                        img@.subrange(
                            size - e.disp,
                            size - e.disp + e.value.spec_size(),
                        ) == e.value.bytes()
                    },
            decreases self.spec_entries().len() - k,
        {
            let e = self.entries[k];
            let bytes = e.value.to_bytes();
            let at: usize = (self.size - e.disp) as usize;
            let ghost img_before = img@;
            write_at(&mut img, at, &bytes);
            proof {
                let ek = self.spec_entries()[k as int];
                assert(img@.subrange(
                    size - ek.disp,
                    size - ek.disp + ek.value.spec_size(),
                ) =~= ek.value.bytes());
                assert forall|i: int| 0 <= i < k implies {
                    let e2 = #[trigger] self.spec_entries()[i];
                    img@.subrange(
                        size - e2.disp,
                        size - e2.disp + e2.value.spec_size(),
                    ) == e2.value.bytes()
                } by {
                    let e2 = self.spec_entries()[i];
                    self.lemma_entries_apart(i, k as int);
                    // Entry k was written wholly below the range of entry i.
                    assert(at + bytes@.len() <= size - e2.disp);
                    assert(img@.subrange(
                        size - e2.disp,
                        size - e2.disp + e2.value.spec_size(),
                    ) =~= img_before.subrange(
                        size - e2.disp,
                        size - e2.disp + e2.value.spec_size(),
                    ));
                }
            }
            k = k + 1;
        }
        img
    }
}

/// Overwrites `dest[at .. at + src.len()]` with `src`, leaving every other
/// byte unchanged.
pub fn write_at(dest: &mut Vec<u8>, at: usize, src: &Vec<u8>)
    requires
        at + src@.len() <= old(dest)@.len(),
    ensures
        final(dest)@.len() == old(dest)@.len(),
        forall|i: int| 0 <= i < at ==> final(dest)@[i] == old(dest)@[i],
        forall|i: int|
            at <= i < at + src@.len() ==> final(dest)@[i] == src@[i - at],
        forall|i: int|
            at + src@.len() <= i < old(dest)@.len() ==> final(dest)@[i] == old(dest)@[i],
{
    let mut k: usize = 0;
    while k < src.len()
        invariant
            at + src@.len() <= dest@.len(),
            k <= src@.len(),
            dest@.len() == old(dest)@.len(),
            forall|i: int| 0 <= i < at ==> dest@[i] == old(dest)@[i],
            forall|i: int| at <= i < at + k ==> dest@[i] == src@[i - at],
            forall|i: int| at + k <= i < dest@.len() ==> dest@[i] == old(dest)@[i],
        decreases src@.len() - k,
    {
        let n = dest.len();
        assert(at + k < n);
        dest.set(at + k, src[k]);
        k = k + 1;
    }
}

} // verus!
