//! A RISC-V (RV32I/M/A, partial privileged architecture) instruction-set
//! interpreter: it fetches, decodes, and executes machine code against a
//! simulated memory bus and register file.
//!
//! The execution core — decoder, typed instruction-operand model, execute
//! dispatch, CSR subsystem with privilege enforcement, trap engine, and the
//! atomic memory-ordering primitives — is verified: every public operation
//! carries a contract over a mathematical view of the machine state.

pub mod bus;
pub mod csr;
pub mod exception;
pub mod interpreter;
pub mod loader;
pub mod mmu;
pub mod mstatus;
pub mod riscv_core;
pub mod rv32a;
pub mod rv32i;
pub mod rv32m;
pub mod rv32privileged;
pub mod rv32zicrs;
pub mod uart_16550;
pub mod word;
