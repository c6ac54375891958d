//! The sinks the engine's callbacks feed during one decode call.
//!
//! Each sink is a pure accumulator: the engine invokes it once per decoded
//! unit, and the sink appends an owned copy of the record in callback order.
//! Ordering is significant and preserved exactly.

use vstd::prelude::*;
use crate::model::{Instruction, Opcode, PCode, VarnodeData};

verus! {

/// Accumulates micro-operations in the order the engine emits them.
pub struct PCodeEmit {
    pub pcodes: Vec<PCode>,
}

impl PCodeEmit {
    /// An empty sink, ready for one decode call.
    pub fn new() -> (r: PCodeEmit)
        ensures
            r.pcodes@ == Seq::<PCode>::empty(),
    {
        PCodeEmit { pcodes: Vec::new() }
    }

    /// Receive one micro-operation record: append it after everything
    /// received so far, leaving earlier records untouched.
    pub fn dump(
        &mut self,
        address: u64,
        opcode: Opcode,
        outvar: Option<VarnodeData>,
        vars: Vec<VarnodeData>,
    )
        ensures
            final(self).pcodes@ == old(self).pcodes@.push(
                (PCode { address, opcode, vars, outvar }),
            ),
    {
        self.pcodes.push(PCode { address, opcode, vars, outvar });
    }
}

/// Accumulates disassembled instructions in the order the engine emits them.
pub struct AssemblyEmit {
    pub insts: Vec<Instruction>,
}

impl AssemblyEmit {
    /// An empty sink, ready for one decode call.
    pub fn new() -> (r: AssemblyEmit)
        ensures
            r.insts@ == Seq::<Instruction>::empty(),
    {
        AssemblyEmit { insts: Vec::new() }
    }

    /// Receive one disassembled instruction: append it after everything
    /// received so far, leaving earlier records untouched.
    pub fn dump(&mut self, address: u64, mnemonic: String, body: String)
        ensures
            final(self).insts@ == old(self).insts@.push(
                (Instruction { address, mnemonic, body }),
            ),
    {
        self.insts.push(Instruction { address, mnemonic, body });
    }
}

} // verus!
