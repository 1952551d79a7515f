//! A bit-exact interpreter for the SM83 (Game Boy) CPU instruction subset:
//! registers and packed flags, a flat 64 KiB memory bus, a two-table opcode
//! decoder, and an executor with hardware-accurate flag semantics.

pub mod alu;
pub mod cpu;
pub mod decode;
pub mod laws;
pub mod memory;
pub mod reg;
pub mod semantics;
