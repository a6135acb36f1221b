//! A software model of the MOS 6502: the CPU, the bus it talks over, the
//! devices on that bus and the two-phase clock that counts bus cycles.

pub mod debugger;
pub mod hardware;
pub mod text;
pub mod types;
