//! Memory-mapped I/O subsystem of a simple 8-bit home computer: an
//! address-decoding bus that routes byte-granular reads and writes to RAM and
//! ROM storage banks and to two stateful peripheral interface registers (a
//! keyboard input port and a character-terminal output port).

pub mod bus;
pub mod errors;
pub mod keyboard;
pub mod laws;
pub mod screen;
