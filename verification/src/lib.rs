//! Register-level control of a single GPIO pin.
//!
//! The pin lives behind a memory-mapped page of 32-bit hardware registers.
//! Everything that can be verified is here: the bit arithmetic that edits
//! register fields, a simulated register bank with the hardware's
//! set/clear/level semantics, the decisions of the mapping sequence, and the
//! driver's state machine. The raw device access itself (open, mmap,
//! volatile reads and writes, sleeping between blinks) stays outside the
//! library and consumes these functions' results.

pub mod bank;
pub mod bits;
pub mod driver;
pub mod mapper;
