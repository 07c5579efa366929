use vstd::prelude::*;

verus! {

/// A synchronous exception raised by an instruction that the core cannot complete.
#[derive(Clone, Copy, Debug, PartialEq, Eq, Structural)]
pub enum Exception {
    /// Unknown opcode or function code, or a CSR access the current mode may not make.
    IllegalInstruction,
    /// The target of a jump or taken branch is not a multiple of four.
    InstructionAddressMisaligned,
    /// The instruction fetch would read past the end of memory.
    InstructionAccessFault,
    /// A load addressed bytes outside memory.
    LoadAccessFault,
    /// A store addressed bytes outside memory.
    StoreAccessFault,
}

} // verus!
