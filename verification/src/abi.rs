//! Linkage of module members and the parameter descriptor of a function
//! signature. A host address carried by `Extern` linkage is held as a plain
//! 64-bit number.

use crate::types::Kind;
use vstd::prelude::*;

verus! {

/// One parameter of a function signature.
#[derive(Clone, Copy, Debug, PartialEq, Eq, Structural)]
pub struct Param {
    pub kind: Kind,
}

impl Param {
    /// A parameter of the given kind.
    pub fn new(kind: Kind) -> (r: Param)
        ensures
            r == (Param { kind }),
    {
        Param { kind }
    }
}

/// Where a module member's definition lives.
#[derive(Debug)]
pub enum Linkage {
    /// Declared outside of the module, to be resolved by name.
    Import(String),
    /// Defined in the module.
    Local,
    /// Defined at a known host address.
    Extern(u64),
    /// Declared in a dynamic library, to be resolved by name.
    DynamicImport(String),
    /// Declared in a statically linked library; never finalized here.
    StaticImport,
}

impl Linkage {
    /// True for the dynamic-library import variant.
    pub fn is_dynamic(&self) -> (r: bool)
        ensures
            r == (self is DynamicImport),
    {
        match self {
            Linkage::DynamicImport(_) => true,
            _ => false,
        }
    }

    /// True for the by-name import variant.
    pub fn is_import(&self) -> (r: bool)
        ensures
            r == (self is Import),
    {
        match self {
            Linkage::Import(_) => true,
            _ => false,
        }
    }

    /// True for the known-address variant.
    pub fn is_extern(&self) -> (r: bool)
        ensures
            r == (self is Extern),
    {
        match self {
            Linkage::Extern(_) => true,
            _ => false,
        }
    }
}

} // verus!
