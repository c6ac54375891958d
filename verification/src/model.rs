//! Value types for the engine's results.
//!
//! Every foreign record the engine hands to a callback is copied into these
//! owned types during the callback; nothing here borrows from the engine.

use vstd::prelude::*;

verus! {

/// The category of storage an address belongs to, as the engine classifies
/// it: constants, processor-visible storage (registers, memory), internal
/// temporaries, and the engine's bookkeeping spaces.
#[derive(Clone, Copy, Debug, PartialEq, Eq, Structural)]
pub enum SpaceType {
    Constant,
    Processor,
    SpaceBase,
    Internal,
    Fspec,
    Iop,
    Join,
}

/// The numeric code the engine uses for each space category.
pub open spec fn spec_space_type_code(t: SpaceType) -> u32 {
    match t {
        SpaceType::Constant => 0,
        SpaceType::Processor => 1,
        SpaceType::SpaceBase => 2,
        SpaceType::Internal => 3,
        SpaceType::Fspec => 4,
        SpaceType::Iop => 5,
        SpaceType::Join => 6,
    }
}

impl SpaceType {
    /// Decode the engine's numeric space-category code. Exactly the codes
    /// 0 through 6 denote a category; everything else is rejected.
    pub fn from_code(code: u32) -> (r: Option<SpaceType>)
        ensures
            r is Some <==> code <= 6,
            r matches Some(t) ==> spec_space_type_code(t) == code,
    {
        match code {
            0 => Some(SpaceType::Constant),
            1 => Some(SpaceType::Processor),
            2 => Some(SpaceType::SpaceBase),
            3 => Some(SpaceType::Internal),
            4 => Some(SpaceType::Fspec),
            5 => Some(SpaceType::Iop),
            6 => Some(SpaceType::Join),
            _ => None,
        }
    }

    /// The numeric code of this category, the inverse of `from_code`.
    pub fn code(&self) -> (r: u32)
        ensures
            r == spec_space_type_code(*self),
    {
        match self {
            SpaceType::Constant => 0,
            SpaceType::Processor => 1,
            SpaceType::SpaceBase => 2,
            SpaceType::Internal => 3,
            SpaceType::Fspec => 4,
            SpaceType::Iop => 5,
            SpaceType::Join => 6,
        }
    }
}

/// A micro-operation opcode, by the engine's numeric code. The set of codes
/// is fixed by the engine; this library carries them through unchanged.
#[derive(Clone, Copy, Debug, PartialEq, Eq, Structural)]
pub struct Opcode {
    pub code: u32,
}

/// A named address space: a category of address plus the engine's name for
/// it. Reconstructed per result, never interned.
#[derive(Clone, Debug)]
pub struct AddrSpace {
    pub name: String,
    pub ty: SpaceType,
}

/// A reference to `size` bytes of storage at `offset` within `space`.
#[derive(Clone, Debug)]
pub struct VarnodeData {
    pub space: AddrSpace,
    pub offset: u64,
    pub size: u32,
}

impl VarnodeData {
    /// A varnode that denotes real storage has a positive size.
    pub open spec fn is_storage(&self) -> bool {
        self.size > 0
    }
}

/// One micro-operation: the address of the machine instruction it came from
/// (several micro-operations may share one address), its opcode, its input
/// operands in the engine's order, and its optional output operand.
#[derive(Clone, Debug)]
pub struct PCode {
    pub address: u64,
    pub opcode: Opcode,
    pub vars: Vec<VarnodeData>,
    pub outvar: Option<VarnodeData>,
}

/// One disassembled instruction: its address, its mnemonic, and the engine's
/// rendered operand text.
#[derive(Clone, Debug)]
pub struct Instruction {
    pub address: u64,
    pub mnemonic: String,
    pub body: String,
}

} // verus!
