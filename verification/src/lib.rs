//! A blocking diagnostic text console for a serial line, written as a set of
//! verified decision procedures.
//!
//! The crate never touches a peripheral. Every operation that has to wait for
//! the transmitter is a small state machine: it names the next attempt to make
//! on the line, is told what that attempt came to, and answers with the next
//! attempt or with the final result. Whoever owns the peripheral runs the
//! busy-retry loop around it, and runs it with interrupts masked.
//!
//! * [`line`]: what one non-blocking attempt can answer, and the fixed line
//!   settings of the console.
//! * [`transfer`]: the blocking write and flush of the port adapter.
//! * [`wire`]: what reaches the line while such an operation runs, for every
//!   behaviour of the line.
//! * [`cell`]: the single console slot and its lock discipline.
//! * [`serial`]: bringing the console up.
//! * [`print`]: `print` and `println` on top of cell and transfer.
//! * [`fault`]: the last message of the fault hook, and the halt.

pub mod line;
pub mod transfer;
pub mod wire;
pub mod cell;
pub mod serial;
pub mod print;
pub mod fault;

pub use serial::init_serial;
