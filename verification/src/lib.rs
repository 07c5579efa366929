//! An interpreting emulator core for the RV32I base integer instruction set
//! with the Zicsr extension and a minimal privilege-mode distinction.

pub mod bits;
pub mod csr;
pub mod decode;
pub mod emulator;
pub mod exception;
pub mod memory;
pub mod processor;
