//! A ready-made execution environment: a processor over a vector memory.

use crate::csr::CSR_NUM;
use crate::exception::Exception;
use crate::memory::VectorMemory;
use crate::processor::{Mode, Processor};
use vstd::prelude::*;

verus! {

/// Struct to set up and hold execution environment.
pub struct Emulator {
    processor: Processor<VectorMemory>,
}

impl Emulator {
    /// The processor that the emulator holds.
    pub closed spec fn processor(&self) -> Processor<VectorMemory> {
        self.processor
    }

    /// An emulator whose processor is in its initial state over a memory of
    /// length zero.
    pub fn new() -> (r: Self)
        ensures
            r.processor().pc == 0,
            r.processor().regs@ == Seq::new(32, |i: int| 0u32),
            r.processor().csr@ == Seq::new(CSR_NUM as nat, |i: int| 0u32),
            r.processor().mode == Mode::Machine,
            !r.processor().has_jumped,
            r.processor().mem@.len() == 0,
    {
        let memory: Vec<u8> = Vec::new();
        let memory = VectorMemory::from(memory);
        let processor = Processor::new(memory);
        Self { processor }
    }

    /// Runs the processor until a tick fails, and returns the exception
    /// that ended the run, or `None` after `u64::MAX` ticks have completed
    /// without one.
    ///
    /// The state left is one that completed ticks reach from the state
    /// before. Where an exception is returned, it is the one with which a
    /// tick in the state left fails; `None` is returned only after exactly
    /// `u64::MAX` completed ticks.
    pub fn execute(&mut self) -> (r: Option<Exception>)
        ensures
            exists|n: nat|
                n <= u64::MAX && old(self).processor().runs_to(&final(self).processor(), n),
            r matches Some(e) ==> final(self).processor().tick_trap() == Some(e),
            r is None ==> old(self).processor().runs_to(
                &final(self).processor(),
                u64::MAX as nat,
            ),
    {
        self.processor.execute()
    }
}

} // verus!
