//! An in-memory x86-64 code generator: an assembler that emits raw machine
//! code into a byte buffer, a function builder that lowers a small typed IR
//! to instructions, and a module linker that lays functions out in memory
//! images and patches absolute call-site immediates.
//!
//! The library itself never touches executable memory: it produces byte
//! images and patch offsets as plain data, and states in its contracts
//! exactly which bytes each operation appends.

pub mod dseg;
pub mod abi;
pub mod callconv;
pub mod emit;
pub mod flow;
pub mod function;
pub mod laws;
pub mod lower;
pub mod module;
pub mod ops;
pub mod registers;
pub mod sink;
pub mod types;
pub mod util;

use vstd::prelude::*;

verus! {

/// A reference to a densely numbered entity (a value, a variable, an
/// instruction): a thin wrapper around an index.
pub trait EntityRef: Sized {
    /// The index this entity stands for.
    spec fn spec_index(self) -> int;

    /// Wrap an index.
    fn new(idx: usize) -> (r: Self)
        requires
            idx <= u32::MAX,
        ensures
            r.spec_index() == idx,
    ;

    /// Unwrap the index.
    fn index(self) -> (r: usize)
        ensures
            r == self.spec_index(),
    ;
}

/// A handle for a value produced by the function builder.
#[derive(Clone, Copy, Debug, PartialEq, Eq, Structural)]
pub struct Value(pub u32);

/// A handle for a declared local variable of the function builder.
#[derive(Clone, Copy, Debug, PartialEq, Eq, Structural)]
pub struct Variable(pub u32);

impl EntityRef for Value {
    open spec fn spec_index(self) -> int {
        self.0 as int
    }

    fn new(idx: usize) -> (r: Self) {
        Value(idx as u32)
    }

    fn index(self) -> (r: usize) {
        self.0 as usize
    }
}

impl EntityRef for Variable {
    open spec fn spec_index(self) -> int {
        self.0 as int
    }

    fn new(idx: usize) -> (r: Self) {
        Variable(idx as u32)
    }

    fn index(self) -> (r: usize) {
        self.0 as usize
    }
}

} // verus!
