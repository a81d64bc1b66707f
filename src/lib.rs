//! A minimal 8-bit CPU: register file with status flags, a sparse memory
//! device, and a bus-mode CPU that exchanges one byte per two-phase cycle.

pub mod types;
pub mod flag;
pub mod state;
pub mod memory;
pub mod bus;

pub use types::{Address, Byte, Data, Flags, Word, DATA_WIDTH};
pub use flag::{Flag, Status};
pub use state::CpuState;
pub use memory::{CheapoMemory, Memory};
pub use bus::{BusMode, Cpu};
