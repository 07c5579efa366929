//! The control and status register file, with the privilege and read-only
//! rules that its addresses encode.

use crate::bits::{field, get_bits};
use crate::exception::Exception;
use crate::processor::Mode;
use vstd::prelude::*;

pub mod address;

verus! {

/// The number of control and status registers.
pub const CSR_NUM: usize = 4096;

/// The lowest mode code that may access `addr`: bits 8 and 9 of the address.
pub open spec fn required_mode(addr: usize) -> u32 {
    field(addr as u32, 8, 10)
}

/// Whether `addr` names a read-only register: bits 10 and 11 are both set.
pub open spec fn read_only(addr: usize) -> bool {
    field(addr as u32, 10, 12) == 0b11
}

/// Whether an access to `addr` in `mode` is allowed: the address names a
/// register and the mode is at least the one the address asks for.
pub open spec fn permitted(addr: usize, mode: Mode) -> bool {
    addr < CSR_NUM && mode.spec_code() >= required_mode(addr)
}

/// The 4096 control and status registers.
#[derive(Debug)]
pub struct Csr {
    registers: [u32; 4096],
}

impl View for Csr {
    type V = Seq<u32>;

    closed spec fn view(&self) -> Seq<u32> {
        self.registers@
    }
}

impl Csr {
    /// A register file with every register zero.
    pub fn new() -> (r: Self)
        ensures
            r@.len() == CSR_NUM,
            forall|i: int| 0 <= i < CSR_NUM ==> r@[i] == 0,
    {
        Self { registers: [0; 4096] }
    }

    /// The view always holds one entry for each register.
    pub proof fn lemma_len(&self)
        ensures
            self@.len() == CSR_NUM,
    {
    }

    /// Accepts the addresses that name a register.
    fn is_valid_addr(addr: usize) -> (r: Result<(), Exception>)
        ensures
            r == if addr < CSR_NUM {
                Ok::<(), Exception>(())
            } else {
                Err(Exception::IllegalInstruction)
            },
    {
        if addr >= CSR_NUM {
            Err(Exception::IllegalInstruction)
        } else {
            Ok(())
        }
    }

    /// Accepts the modes that are at least the one that `addr` asks for.
    fn is_valid_mode(addr: usize, mode: Mode) -> (r: Result<(), Exception>)
        requires
            addr < CSR_NUM,
        ensures
            r == if mode.spec_code() >= required_mode(addr) {
                Ok::<(), Exception>(())
            } else {
                Err(Exception::IllegalInstruction)
            },
    {
        if mode.code() < get_bits(addr as u32, 8, 10) {
            Err(Exception::IllegalInstruction)
        } else {
            Ok(())
        }
    }

    /// Reads the register at `addr` in `mode`.
    ///
    /// The access fails with `IllegalInstruction` exactly when it is not
    /// permitted.
    pub fn read(&self, addr: usize, mode: Mode) -> (r: Result<u32, Exception>)
        ensures
            r == if permitted(addr, mode) {
                Ok::<u32, Exception>(self@[addr as int])
            } else {
                Err(Exception::IllegalInstruction)
            },
    {
        Self::is_valid_addr(addr)?;
        Self::is_valid_mode(addr, mode)?;
        Ok(self.registers[addr])
    }

    /// Writes `value` to the register at `addr` in `mode`.
    ///
    /// The access fails with `IllegalInstruction` exactly when it is not
    /// permitted, and then changes nothing. A permitted write to a read-only
    /// register succeeds and changes nothing.
    pub fn write(&mut self, addr: usize, value: u32, mode: Mode) -> (r: Result<(), Exception>)
        ensures
            r == if permitted(addr, mode) {
                Ok::<(), Exception>(())
            } else {
                Err(Exception::IllegalInstruction)
            },
            final(self)@ == if permitted(addr, mode) && !read_only(addr) {
                old(self)@.update(addr as int, value)
            } else {
                old(self)@
            },
    {
        Self::is_valid_addr(addr)?;
        Self::is_valid_mode(addr, mode)?;
        // If the CSR is readonly, the write is ignored.
        if get_bits(addr as u32, 10, 12) == 0b11 {
            return Ok(());
        }
        self.registers[addr] = value;
        Ok(())
    }
}

impl Clone for Csr {
    fn clone(&self) -> (r: Self)
        ensures
            r@ == self@,
    {
        Self { registers: self.registers }
    }
}

impl Default for Csr {
    fn default() -> (r: Self)
        ensures
            r@.len() == CSR_NUM,
            forall|i: int| 0 <= i < CSR_NUM ==> r@[i] == 0,
    {
        Self::new()
    }
}

} // verus!
