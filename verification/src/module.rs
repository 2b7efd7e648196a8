//! The module and linker: a set of named functions, their finalization into
//! flat memory images (data segment first, code after it), and the patching
//! of the eight-byte absolute call-site immediates once every callee's entry
//! address is known.
//!
//! The library never maps executable memory itself: the host allocates a
//! block per function, reports the base addresses, and copies the finished
//! images out. Addresses are plain 64-bit numbers throughout.

use crate::abi::Linkage;
use crate::function::Function;
use crate::util::le64_of;
use vstd::prelude::*;

verus! {

/// One finalized allocation: the base of the block, the entry point of the
/// code (the base plus the data-segment size), the end of the block, and
/// its total size.
#[derive(Clone, Copy, Debug, PartialEq, Eq, Structural)]
pub struct Memory {
    pub start: u64,
    pub end: u64,
    pub pointer: u64,
    pub size: usize,
}

impl Memory {
    /// Wraps a bare host address, as used for members defined outside the
    /// module: every field is the address itself and the size is a filler.
    pub fn new(ptr: u64) -> (r: Memory)
        ensures
            r == (Memory { start: ptr, end: ptr, pointer: ptr, size: 0xdead }),
    {
        Memory { start: ptr, end: ptr, pointer: ptr, size: 0xdead }
    }

    /// The entry address.
    pub fn start(&self) -> (r: u64)
        ensures
            r == self.start,
    {
        self.start
    }

    /// The end of the block.
    pub fn end(&self) -> (r: u64)
        ensures
            r == self.end,
    {
        self.end
    }

    /// The base of the block.
    pub fn ptr(&self) -> (r: u64)
        ensures
            r == self.pointer,
    {
        self.pointer
    }

    /// The size of the block in bytes.
    pub fn size(&self) -> (r: usize)
        ensures
            r == self.size,
    {
        self.size
    }
}

/// The first entry of `data` whose name reads `name`, if any.
pub open spec fn find_mem(data: Seq<(String, Memory)>, name: Seq<char>) -> Option<Memory>
    decreases data.len(),
{
    if data.len() == 0 {
        None
    } else if data[0].0@ == name {
        Some(data[0].1)
    } else {
        find_mem(data.drop_first(), name)
    }
}

/// The first image record whose name reads `name`, if any: its entry
/// offset and bytes.
pub open spec fn find_image(
    images: Seq<(String, usize, Vec<u8>)>,
    name: Seq<char>,
) -> Option<(usize, Seq<u8>)>
    decreases images.len(),
{
    if images.len() == 0 {
        None
    } else if images[0].0@ == name {
        Some((images[0].1, images[0].2@))
    } else {
        find_image(images.drop_first(), name)
    }
}

/// `post` is `pre` with the eight bytes at `at` replaced by the
/// little-endian image of `addr` and nothing else changed.
pub open spec fn patched_at(pre: Seq<u8>, post: Seq<u8>, at: int, addr: u64) -> bool {
    &&& post.len() == pre.len()
    &&& post.subrange(at, at + 8) == le64_of(addr)
    &&& forall|i: int| 0 <= i < pre.len() && !(at <= i < at + 8) ==> post[i] == pre[i]
}

/// An image named `fname` exists (taking the first such record) and the
/// eight-byte slot `pos` bytes into its code lies inside its bytes.
pub open spec fn patchable(
    images: Seq<(String, usize, Vec<u8>)>,
    fname: Seq<char>,
    pos: int,
) -> bool {
    exists|j: int|
        {
            &&& 0 <= j < images.len()
            &&& (#[trigger] images[j]).0@ == fname
            &&& (forall|k: int| 0 <= k < j ==> images[k].0@ != fname)
            &&& images[j].1 + pos + 8 <= images[j].2@.len()
        }
}

/// The two image tables agree on names, entry offsets and byte counts;
/// only byte contents may differ. Patching preserves this relation, and it
/// preserves `patchable`.
pub open spec fn images_shape_eq(
    pre: Seq<(String, usize, Vec<u8>)>,
    post: Seq<(String, usize, Vec<u8>)>,
) -> bool {
    &&& post.len() == pre.len()
    &&& forall|j: int| #![trigger post[j]] #![trigger pre[j]]
        0 <= j < pre.len() ==> post[j].0@ == pre[j].0@ && post[j].1 == pre[j].1
            && post[j].2@.len() == pre[j].2@.len()
}

/// Shape-equal image tables are patchable at exactly the same slots.
#[verifier::spinoff_prover]
#[verifier::rlimit(100)]
pub proof fn lemma_shape_eq_patchable(
    pre: Seq<(String, usize, Vec<u8>)>,
    post: Seq<(String, usize, Vec<u8>)>,
    fname: Seq<char>,
    pos: int,
)
    requires
        images_shape_eq(pre, post),
    ensures
        patchable(post, fname, pos) == patchable(pre, fname, pos),
{
    if patchable(pre, fname, pos) {
        let j = choose|j: int|
            {
                &&& 0 <= j < pre.len()
                &&& (#[trigger] pre[j]).0@ == fname
                &&& (forall|k: int| 0 <= k < j ==> pre[k].0@ != fname)
                &&& pre[j].1 + pos + 8 <= pre[j].2@.len()
            };
        assert(post[j].0@ == fname && post[j].1 + pos + 8 <= post[j].2@.len());
        assert(forall|k: int| 0 <= k < j ==> (#[trigger] post[k]).0@ != fname);
        assert(patchable(post, fname, pos));
    }
    if patchable(post, fname, pos) {
        let j = choose|j: int|
            {
                &&& 0 <= j < post.len()
                &&& (#[trigger] post[j]).0@ == fname
                &&& (forall|k: int| 0 <= k < j ==> post[k].0@ != fname)
                &&& post[j].1 + pos + 8 <= post[j].2@.len()
            };
        assert(pre[j].0@ == fname && pre[j].1 + pos + 8 <= pre[j].2@.len());
        assert(forall|k: int| 0 <= k < j ==> (#[trigger] pre[k]).0@ != fname);
        assert(patchable(pre, fname, pos));
    }
}

/// Every recorded call site of every function resolves in the member table
/// and falls inside its function's image.
pub open spec fn all_fixups_patchable(
    functions: Seq<Function>,
    images: Seq<(String, usize, Vec<u8>)>,
    data: Seq<(String, Memory)>,
) -> bool {
    forall|i: int, k: int|
        0 <= i < functions.len() && 0 <= k < (#[trigger] functions[i]).fixups@.len() ==> {
            let fx = #[trigger] functions[i].fixups@[k];
            &&& find_mem(data, fx.name@) is Some
            &&& patchable(images, functions[i].name@, fx.pos as int)
        }
}

/// A name resolves to exactly one record: looking a name up twice in the
/// same finalized table gives the same result, so the entry pointer a
/// caller sees never changes once the module is finished.
pub proof fn lemma_finalized_lookup_deterministic(
    data: Seq<(String, Memory)>,
    name: Seq<char>,
    r1: Option<Memory>,
    r2: Option<Memory>,
)
    requires
        r1 == find_mem(data, name),
        r2 == find_mem(data, name),
    ensures
        r1 == r2,
{
}

/// Overwrites the eight bytes at `at` with the little-endian image of
/// `addr`, leaving every other byte of the code image in place. This is the
/// relocation write: `at` is the position of the immediate of a
/// `movabs RAX, imm64` that precedes an indirect call.
#[verifier::spinoff_prover]
#[verifier::rlimit(50)]
pub fn patch_call_site(img: &mut Vec<u8>, at: usize, addr: u64)
    requires
        at + 8 <= old(img)@.len(),
    ensures
        final(img)@.len() == old(img)@.len(),
        final(img)@.subrange(at as int, at + 8) == le64_of(addr),
        forall|i: int|
            0 <= i < old(img)@.len() && !(at <= i < at + 8) ==> final(img)@[i] == old(img)@[i],
{
    let n = img.len();
    assert(at + 8 <= n);
    img.set(at, (addr % 0x100) as u8);
    img.set(at + 1, ((addr / 0x100) % 0x100) as u8);
    img.set(at + 2, ((addr / 0x1_0000) % 0x100) as u8);
    img.set(at + 3, ((addr / 0x100_0000) % 0x100) as u8);
    img.set(at + 4, ((addr / 0x1_0000_0000) % 0x100) as u8);
    img.set(at + 5, ((addr / 0x100_0000_0000) % 0x100) as u8);
    img.set(at + 6, ((addr / 0x1_0000_0000_0000) % 0x100) as u8);
    img.set(at + 7, ((addr / 0x100_0000_0000_0000) % 0x100) as u8);
    proof {
        assert(img@.subrange(at as int, at + 8) =~= le64_of(addr));
    }
}

/// Finalizes one function into its flat memory image: patches every
/// forward jump, aligns the data segment to sixteen bytes, and lays the
/// segment out in front of the code. Returns the image and the entry
/// offset, which is the aligned data-segment size.
#[verifier::spinoff_prover]
#[verifier::rlimit(50)]
pub fn finalize_function(f: &mut Function) -> (r: (Vec<u8>, usize))
    requires
        old(f).wf(),
        old(f).sink.all_jumps_bound(),
        old(f).sink.dseg.spec_size() + 16 <= crate::dseg::DSEG_LIMIT,
    ensures
        final(f).wf(),
        r.1 == final(f).sink.dseg.spec_size(),
        r.1 % 16 == 0,
        r.0@.len() == r.1 + final(f).sink.data@.len(),
        // The code occupies the image after the data segment.
        r.0@.subrange(r.1 as int, r.0@.len() as int) == final(f).sink.data@,
        // Every pooled constant sits at its displacement before the entry.
        forall|i: int|
            0 <= i < final(f).sink.dseg.spec_entries().len() ==> {
                let e = #[trigger] final(f).sink.dseg.spec_entries()[i];
                r.0@.subrange(r.1 - e.disp, r.1 - e.disp + e.value.spec_size())
                    == e.value.bytes()
            },
        // The code bytes are the old ones with only forward-jump slots
        // rewritten.
        final(f).sink.data@.len() == old(f).sink.data@.len(),
        final(f).sink.jumps@ == old(f).sink.jumps@,
        final(f).sink.labels@ == old(f).sink.labels@,
        forall|i: int|
            0 <= i < final(f).sink.jumps@.len() ==> {
                let j = #[trigger] final(f).sink.jumps@[i];
                final(f).sink.data@.subrange(j.at as int, j.at + 4) == crate::util::le32_of(
                    crate::util::u32_of_i32(
                        final(f).sink.labels@[j.to as int].unwrap() - j.at - 4,
                    ),
                )
            },
        final(f).name@ == old(f).name@,
        final(f).fixups@ == old(f).fixups@,
        final(f).linkage == old(f).linkage,
{
    f.sink.fix_forward_jumps();
    let sink = f.sink();
    let dseg = sink.dseg_mut();
    let entry = dseg.align(16);
    let entry_off: usize = entry as usize;
    let mut img = f.sink.dseg.finish();
    let ghost dimg = img@;
    let mut k: usize = 0;
    let n = f.sink.data.len();
    while k < n
        invariant
            n == f.sink.data@.len(),
            k <= n,
            img@.len() == dimg.len() + k,
            img@.subrange(0, dimg.len() as int) == dimg,
            img@.subrange(dimg.len() as int, img@.len() as int) == f.sink.data@.subrange(
                0,
                k as int,
            ),
        decreases n - k,
    {
        let b = f.sink.data[k];
        img.push(b);
        proof {
            assert(img@.subrange(0, dimg.len() as int) =~= dimg);
            assert(img@.subrange(dimg.len() as int, img@.len() as int) =~= f.sink.data@.subrange(
                0,
                k + 1,
            ));
        }
        k = k + 1;
    }
    proof {
        assert(f.sink.data@.subrange(0, n as int) =~= f.sink.data@);
        assert forall|i: int| 0 <= i < f.sink.dseg.spec_entries().len() implies {
            let e = #[trigger] f.sink.dseg.spec_entries()[i];
            img@.subrange(entry_off - e.disp, entry_off - e.disp + e.value.spec_size())
                == e.value.bytes()
        } by {
            let e = f.sink.dseg.spec_entries()[i];
            assert(dimg.subrange(entry_off - e.disp, entry_off - e.disp + e.value.spec_size())
                == e.value.bytes());
            assert(img@.subrange(entry_off - e.disp, entry_off - e.disp + e.value.spec_size())
                =~= dimg.subrange(entry_off - e.disp, entry_off - e.disp + e.value.spec_size()));
        }
    }
    (img, entry_off)
}

/// A module: the functions it owns, the finalized images of its local
/// functions, and the table of resolved members.
#[derive(Debug)]
pub struct Module {
    pub functions: Vec<Function>,
    pub images: Vec<(String, usize, Vec<u8>)>,
    pub data: Vec<(String, Memory)>,
}

impl Module {
    /// An empty module.
    pub fn new() -> (r: Module)
        ensures
            r.functions@.len() == 0,
            r.images@.len() == 0,
            r.data@.len() == 0,
    {
        Module { functions: Vec::new(), images: Vec::new(), data: Vec::new() }
    }

    /// True when some already-added function carries the given name.
    pub open spec fn has_function(self, name: Seq<char>) -> bool {
        exists|i: int| 0 <= i < self.functions@.len() && (#[trigger] self.functions@[i]).name@
            == name
    }

    /// Adds a function; a name may be added only once, and a duplicate is
    /// rejected with the offending name.
    pub fn add_function(&mut self, f: Function) -> (r: Result<(), String>)
        ensures
            r is Ok <==> !old(self).has_function(f.name@),
            r is Ok ==> final(self).functions@ == old(self).functions@.push(f),
            r is Err ==> *final(self) == *old(self) && r->Err_0@ == f.name@,
            final(self).images@ == old(self).images@,
            final(self).data@ == old(self).data@,
    {
        let mut i: usize = 0;
        while i < self.functions.len()
            invariant
                *self == *old(self),
                i <= self.functions@.len(),
                forall|j: int|
                    0 <= j < i ==> (#[trigger] self.functions@[j]).name@ != f.name@,
            decreases self.functions@.len() - i,
        {
            if self.functions[i].name == f.name {
                let dup = f.name.clone();
                return Err(dup);
            }
            i = i + 1;
        }
        self.functions.push(f);
        Ok(())
    }

    /// A reference to the named function.
    pub fn get_func(&self, fname: &String) -> (r: Option<&Function>)
        ensures
            match r {
                Some(f) => exists|i: int|
                    0 <= i < self.functions@.len() && (#[trigger] self.functions@[i]).name@
                        == fname@ && f == &self.functions@[i],
                None => !self.has_function(fname@),
            },
    {
        let mut i: usize = 0;
        while i < self.functions.len()
            invariant
                i <= self.functions@.len(),
                forall|j: int|
                    0 <= j < i ==> (#[trigger] self.functions@[j]).name@ != fname@,
            decreases self.functions@.len() - i,
        {
            if self.functions[i].name == *fname {
                return Some(&self.functions[i]);
            }
            i = i + 1;
        }
        None
    }

    /// The finalized record of the named member.
    pub fn get_data(&self, n: &String) -> (r: Option<Memory>)
        ensures
            r == find_mem(self.data@, n@),
    {
        let mut i: usize = 0;
        proof {
            assert(self.data@.skip(0) =~= self.data@);
        }
        while i < self.data.len()
            invariant
                i <= self.data@.len(),
                find_mem(self.data@, n@) == find_mem(self.data@.skip(i as int), n@),
            decreases self.data@.len() - i,
        {
            proof {
                assert(self.data@.skip(i as int)[0] == self.data@[i as int]);
                assert(self.data@.skip(i as int).drop_first() =~= self.data@.skip(i + 1));
            }
            if self.data[i].0 == *n {
                return Some(self.data[i].1);
            }
            i = i + 1;
        }
        None
    }

    /// The entry pointer and block size of a finalized member. After
    /// `finish`, the result depends only on the module's resolved table, so
    /// any number of calls returns the same pointer.
    pub fn get_finalized_function(&self, name: &String) -> (r: Option<(u64, usize)>)
        ensures
            r == match find_mem(self.data@, name@) {
                Some(m) => Some((m.start, m.size)),
                None => None::<(u64, usize)>,
            },
    {
        match self.get_data(name) {
            Some(m) => Some((m.start(), m.size())),
            None => None,
        }
    }

    /// The finished image of the named local function, together with its
    /// entry offset: the first recorded image of that name.
    pub fn get_image(&self, name: &String) -> (r: Option<(usize, &Vec<u8>)>)
        ensures
            match r {
                Some(p) => find_image(self.images@, name@) == Some((p.0, p.1@)),
                None => find_image(self.images@, name@) is None,
            },
    {
        let mut i: usize = 0;
        proof {
            assert(self.images@.skip(0) =~= self.images@);
        }
        while i < self.images.len()
            invariant
                i <= self.images@.len(),
                find_image(self.images@, name@) == find_image(
                    self.images@.skip(i as int),
                    name@,
                ),
            decreases self.images@.len() - i,
        {
            proof {
                assert(self.images@.skip(i as int)[0] == self.images@[i as int]);
                assert(self.images@.skip(i as int).drop_first() =~= self.images@.skip(i + 1));
            }
            if self.images[i].0 == *name {
                return Some((self.images[i].1, &self.images[i].2));
            }
            i = i + 1;
        }
        None
    }

    /// Rewrites an import to its host-resolved address: the host alone can
    /// ask the platform's dynamic loader for a symbol, and reports the
    /// address here; the member then finalizes like any other known-address
    /// member. Acts on the first function of the given name; returns
    /// whether an import was rewritten.
    #[verifier::spinoff_prover]
    #[verifier::rlimit(100)]
    pub fn resolve_import(&mut self, name: &String, addr: u64) -> (r: bool)
        ensures
            final(self).data@ == old(self).data@,
            final(self).images@ == old(self).images@,
            final(self).functions@.len() == old(self).functions@.len(),
            r ==> exists|i: int|
                {
                    &&& 0 <= i < old(self).functions@.len()
                    &&& (#[trigger] old(self).functions@[i]).name@ == name@
                    &&& (forall|k: int|
                        0 <= k < i ==> old(self).functions@[k].name@ != name@)
                    &&& (old(self).functions@[i].linkage is Import || old(
                        self,
                    ).functions@[i].linkage is DynamicImport)
                    &&& final(self).functions@[i].linkage == Linkage::Extern(addr)
                    &&& final(self).functions@[i].name@ == name@
                    &&& final(self).functions@[i].sink == old(self).functions@[i].sink
                    &&& final(self).functions@[i].fixups@ == old(self).functions@[i].fixups@
                    &&& (forall|k: int|
                        0 <= k < old(self).functions@.len() && k != i
                            ==> final(self).functions@[k] == old(self).functions@[k])
                },
            !r ==> final(self).functions@ == old(self).functions@,
    {
        let n = self.functions.len();
        let mut i: usize = 0;
        while i < n
            invariant
                n == self.functions@.len(),
                i <= n,
                self.functions@ == old(self).functions@,
                self.data@ == old(self).data@,
                self.images@ == old(self).images@,
                forall|k: int|
                    0 <= k < i ==> (#[trigger] self.functions@[k]).name@ != name@,
            decreases n - i,
        {
            if self.functions[i].name == *name {
                let is_import = match &self.functions[i].linkage {
                    Linkage::Import(_) => true,
                    Linkage::DynamicImport(_) => true,
                    _ => false,
                };
                if is_import {
                    let fref = &mut self.functions[i];
                    fref.linkage = Linkage::Extern(addr);
                    return true;
                }
                return false;
            }
            i = i + 1;
        }
        false
    }

    /// Finalizes the module: lays every local function out at the host's
    /// chosen base address (entry at base plus data-segment size), records
    /// bare addresses for members defined outside the module, and then
    /// patches every recorded call site with the callee's eight-byte entry
    /// address. An unresolved callee name aborts with that name.
    #[verifier::spinoff_prover]
    #[verifier::rlimit(100)]
    pub fn finish(&mut self, bases: &Vec<u64>) -> (r: Result<(), String>)
        requires
            bases@.len() == old(self).functions@.len(),
            forall|i: int|
                0 <= i < old(self).functions@.len() ==> {
                    let f = #[trigger] old(self).functions@[i];
                    &&& f.wf()
                    &&& f.sink.all_jumps_bound()
                    &&& f.sink.dseg.spec_size() + 16 <= crate::dseg::DSEG_LIMIT
                    &&& (f.linkage is Local || f.linkage is Extern)
                    &&& (forall|k: int|
                        0 <= k < f.fixups@.len() ==> (#[trigger] f.fixups@[k]).pos + 8
                            <= f.sink.data@.len())
                },
            forall|i: int| 0 <= i < bases@.len() ==> #[trigger] bases@[i]
                < 0xffff_0000_0000_0000,
            old(self).images@.len() == 0,
            old(self).data@.len() == 0,
        ensures
            final(self).functions@.len() == old(self).functions@.len(),
            r is Ok ==> {
                &&& final(self).data@.len() == old(self).functions@.len()
                &&& all_fixups_patchable(
                    final(self).functions@,
                    final(self).images@,
                    final(self).data@,
                )
                &&& forall|k: int|
                    0 <= k < old(self).functions@.len() ==> {
                        let lk = old(self).functions@[k].linkage;
                        let f = #[trigger] final(self).functions@[k];
                        let m = final(self).data@[k].1;
                        &&& final(self).data@[k].0@ == old(self).functions@[k].name@
                        &&& (lk is Extern ==> m == (Memory {
                            start: lk->Extern_0,
                            end: lk->Extern_0,
                            pointer: lk->Extern_0,
                            size: 0xdead,
                        }))
                        &&& (lk is Local ==> {
                            &&& m.pointer == bases@[k]
                            &&& m.start == bases@[k] + f.sink.dseg.spec_size()
                            &&& m.size == f.sink.dseg.spec_size() + f.sink.data@.len()
                            &&& m.end == bases@[k] + m.size
                        })
                    }
            },
    {
        let n = self.functions.len();
        let mut i: usize = 0;
        // Lay out every member.
        while i < n
            invariant
                n == self.functions@.len(),
                bases@.len() == n,
                i <= n,
                forall|k: int|
                    0 <= k < n ==> {
                        let f = #[trigger] self.functions@[k];
                        &&& (k >= i ==> f == old(self).functions@[k])
                        &&& f.name@ == old(self).functions@[k].name@
                        &&& f.fixups@ == old(self).functions@[k].fixups@
                    },
                forall|k: int|
                    i <= k < n ==> {
                        let f = #[trigger] self.functions@[k];
                        &&& f.wf()
                        &&& f.sink.all_jumps_bound()
                        &&& f.sink.dseg.spec_size() + 16 <= crate::dseg::DSEG_LIMIT
                        &&& (f.linkage is Local || f.linkage is Extern)
                        &&& (forall|t: int|
                            0 <= t < f.fixups@.len() ==> (#[trigger] f.fixups@[t]).pos + 8
                                <= f.sink.data@.len())
                    },
                forall|k: int| 0 <= k < n ==> #[trigger] bases@[k] < 0xffff_0000_0000_0000,
                self.data@.len() == i,
                forall|k: int|
                    0 <= k < n ==> (#[trigger] self.functions@[k]).linkage == old(
                        self,
                    ).functions@[k].linkage,
                forall|k: int|
                    0 <= k < i ==> {
                        let f = #[trigger] self.functions@[k];
                        let lk = old(self).functions@[k].linkage;
                        let m = self.data@[k].1;
                        &&& self.data@[k].0@ == old(self).functions@[k].name@
                        &&& (lk is Extern ==> m == (Memory {
                            start: lk->Extern_0,
                            end: lk->Extern_0,
                            pointer: lk->Extern_0,
                            size: 0xdead,
                        }))
                        &&& (lk is Local ==> {
                            &&& m.pointer == bases@[k]
                            &&& m.start == bases@[k] + f.sink.dseg.spec_size()
                            &&& m.size == f.sink.dseg.spec_size() + f.sink.data@.len()
                            &&& m.end == bases@[k] + m.size
                        })
                    },
            decreases n - i,
        {
            let is_local = match &self.functions[i].linkage {
                Linkage::Local => true,
                Linkage::Extern(_) => false,
                _ => unreached(),
            };
            if is_local {
                let fref = &mut self.functions[i];
                let (img, entry_off) = finalize_function(fref);
                let name = self.functions[i].name.clone();
                let base = bases[i];
                let total = img.len();
                let mem = Memory {
                    pointer: base,
                    start: base + entry_off as u64,
                    end: base + total as u64,
                    size: total,
                };
                let name2 = name.clone();
                self.images.push((name, entry_off, img));
                self.data.push((name2, mem));
                proof {
                    assert(self.data@[i as int].0@ == old(self).functions@[i as int].name@);
                    assert(self.data@[i as int].1.start == bases@[i as int] + self.functions@[
                        i as int
                    ].sink.dseg.spec_size());
                }
            } else {
                let p = match &self.functions[i].linkage {
                    Linkage::Extern(p) => *p,
                    _ => unreached(),
                };
                let name = self.functions[i].name.clone();
                self.data.push((name, Memory::new(p)));
                proof {
                    assert(self.data@[i as int].0@ == old(self).functions@[i as int].name@);
                }
            }
            i = i + 1;
        }
        let ghost laid = *self;
        let r = self.fix_calls();
        proof {
            if r is Ok {
                assert forall|a: int, k: int|
                    0 <= a < self.functions@.len() && 0 <= k < (
                    #[trigger] self.functions@[a]).fixups@.len() implies {
                    let fx = #[trigger] self.functions@[a].fixups@[k];
                    &&& find_mem(self.data@, fx.name@) is Some
                    &&& patchable(self.images@, self.functions@[a].name@, fx.pos as int)
                } by {
                    let fx = self.functions@[a].fixups@[k];
                    lemma_shape_eq_patchable(
                        laid.images@,
                        self.images@,
                        self.functions@[a].name@,
                        fx.pos as int,
                    );
                }
            }
        }
        r
    }

    /// Patches one recorded call site: in the first image of the given
    /// name, writes the callee's entry address over the eight bytes that
    /// start `pos` bytes into the code (which itself starts at the image's
    /// entry offset). Returns whether a slot was written; nothing else in
    /// the module changes, and no other image byte changes.
    #[verifier::spinoff_prover]
    #[verifier::rlimit(100)]
    fn patch_named_image(&mut self, fname: &String, pos: usize, addr: u64) -> (r: bool)
        ensures
            final(self).functions@ == old(self).functions@,
            final(self).data@ == old(self).data@,
            images_shape_eq(old(self).images@, final(self).images@),
            r == patchable(old(self).images@, fname@, pos as int),
            r ==> exists|j: int|
                {
                    &&& 0 <= j < old(self).images@.len()
                    &&& (#[trigger] old(self).images@[j]).0@ == fname@
                    &&& (forall|k: int|
                        0 <= k < j ==> old(self).images@[k].0@ != fname@)
                    &&& patched_at(
                        old(self).images@[j].2@,
                        final(self).images@[j].2@,
                        old(self).images@[j].1 + pos,
                        addr,
                    )
                    &&& (forall|k: int|
                        0 <= k < old(self).images@.len() && k != j
                            ==> final(self).images@[k] == old(self).images@[k])
                },
            !r ==> final(self).images@ == old(self).images@,
    {
        let ni = self.images.len();
        let mut j: usize = 0;
        while j < ni
            invariant
                ni == self.images@.len(),
                self.images@ == old(self).images@,
                j <= ni,
                self.functions@ == old(self).functions@,
                self.data@ == old(self).data@,
                forall|k: int| 0 <= k < j ==> (#[trigger] self.images@[k]).0@ != fname@,
            decreases ni - j,
        {
            if self.images[j].0 == *fname {
                let entry_off = self.images[j].1;
                let iname = self.images[j].0.clone();
                let mut img = crate::util::copy_vec(&self.images[j].2);
                if entry_off <= img.len() {
                    let room = img.len() - entry_off;
                    if pos <= room && room - pos >= 8 {
                        patch_call_site(&mut img, entry_off + pos, addr);
                        self.images.set(j, (iname, entry_off, img));
                        proof {
                            assert(patchable(old(self).images@, fname@, pos as int));
                            assert(patched_at(
                                old(self).images@[j as int].2@,
                                self.images@[j as int].2@,
                                old(self).images@[j as int].1 + pos,
                                addr,
                            ));
                        }
                        return true;
                    }
                }
                proof {
                    assert(!patchable(old(self).images@, fname@, pos as int)) by {
                        if patchable(old(self).images@, fname@, pos as int) {
                            let t = choose|t: int|
                                {
                                    &&& 0 <= t < old(self).images@.len()
                                    &&& (#[trigger] old(self).images@[t]).0@ == fname@
                                    &&& (forall|k: int|
                                        0 <= k < t ==> old(self).images@[k].0@ != fname@)
                                    &&& old(self).images@[t].1 + pos + 8 <= old(
                                        self,
                                    ).images@[t].2@.len()
                                };
                            assert(t == j);
                        }
                    }
                }
                return false;
            }
            j = j + 1;
        }
        proof {
            assert(!patchable(old(self).images@, fname@, pos as int)) by {
                if patchable(old(self).images@, fname@, pos as int) {
                    let t = choose|t: int|
                        {
                            &&& 0 <= t < old(self).images@.len()
                            &&& (#[trigger] old(self).images@[t]).0@ == fname@
                            &&& (forall|k: int|
                                0 <= k < t ==> old(self).images@[k].0@ != fname@)
                            &&& old(self).images@[t].1 + pos + 8 <= old(
                                self,
                            ).images@[t].2@.len()
                        };
                }
            }
        }
        false
    }

    /// Patches every recorded call site: for each fixup of each function,
    /// writes the callee's entry address over the eight-byte immediate
    /// inside the caller's image, at the image's entry offset plus the
    /// fixup's code offset. Succeeds exactly when every callee name
    /// resolves and every slot lies inside its caller's image; the name of
    /// the first failing callee (or of a caller whose image lacks the
    /// slot) comes back as the error. Images keep their names, entry
    /// offsets and sizes; functions and the member table are untouched.
    #[verifier::spinoff_prover]
    #[verifier::rlimit(100)]
    pub fn fix_calls(&mut self) -> (r: Result<(), String>)
        ensures
            final(self).functions@ == old(self).functions@,
            final(self).data@ == old(self).data@,
            images_shape_eq(old(self).images@, final(self).images@),
            r is Ok <==> all_fixups_patchable(
                old(self).functions@,
                old(self).images@,
                old(self).data@,
            ),
    {
        let n = self.functions.len();
        let mut i: usize = 0;
        while i < n
            invariant
                n == self.functions@.len(),
                i <= n,
                self.functions@ == old(self).functions@,
                self.data@ == old(self).data@,
                images_shape_eq(old(self).images@, self.images@),
                forall|a: int, k: int|
                    0 <= a < i && 0 <= k < (#[trigger] self.functions@[a]).fixups@.len()
                        ==> {
                        let fx = #[trigger] self.functions@[a].fixups@[k];
                        &&& find_mem(self.data@, fx.name@) is Some
                        &&& patchable(old(self).images@, self.functions@[a].name@, fx.pos as int)
                    },
            decreases n - i,
        {
            let nf = self.functions[i].fixups.len();
            let mut k: usize = 0;
            while k < nf
                invariant
                    n == self.functions@.len(),
                    i < n,
                    nf == self.functions@[i as int].fixups@.len(),
                    k <= nf,
                    self.functions@ == old(self).functions@,
                    self.data@ == old(self).data@,
                    images_shape_eq(old(self).images@, self.images@),
                    forall|a: int, t: int|
                        0 <= a < i && 0 <= t < (#[trigger] self.functions@[a]).fixups@.len()
                            ==> {
                            let fx = #[trigger] self.functions@[a].fixups@[t];
                            &&& find_mem(self.data@, fx.name@) is Some
                            &&& patchable(
                                old(self).images@,
                                self.functions@[a].name@,
                                fx.pos as int,
                            )
                        },
                    forall|t: int|
                        0 <= t < k ==> {
                            let fx = (#[trigger] self.functions@[i as int].fixups@[t]);
                            &&& find_mem(self.data@, fx.name@) is Some
                            &&& patchable(
                                old(self).images@,
                                self.functions@[i as int].name@,
                                fx.pos as int,
                            )
                        },
                decreases nf - k,
            {
                let callee = self.functions[i].fixups[k].name.clone();
                let target = match self.get_data(&callee) {
                    Some(m) => m.start,
                    None => {
                        return Err(callee);
                    },
                };
                let fname = self.functions[i].name.clone();
                let pos = self.functions[i].fixups[k].pos;
                let ghost pre_images = self.images@;
                let patched = self.patch_named_image(&fname, pos, target);
                proof {
                    lemma_shape_eq_patchable(
                        old(self).images@,
                        pre_images,
                        fname@,
                        pos as int,
                    );
                }
                if !patched {
                    return Err(fname);
                }
                k = k + 1;
            }
            i = i + 1;
        }
        Ok(())
    }
}

} // verus!
