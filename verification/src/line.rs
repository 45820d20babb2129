//! The byte-stream capability as the console sees it.

use vstd::prelude::*;

verus! {

/// What a single non-blocking attempt on the line came to.
///
/// `T` is what a successful attempt yields: `()` for a write or a flush, the
/// received byte for a read. `E` is the error type of the serial capability;
/// the console hands such an error on exactly as it got it.
#[derive(Clone, Copy, Debug, PartialEq, Eq)]
pub enum Poll<T, E> {
    /// The hardware did what was asked.
    Ready(T),
    /// The hardware is busy; nothing happened and the attempt may be repeated.
    WouldBlock,
    /// The hardware reported a transfer error.
    Failed(E),
}

/// Whether a parity bit travels with each byte.
#[derive(Clone, Copy, Debug, PartialEq, Eq, Structural)]
pub enum Parity {
    Excluded,
    Included,
}

/// The settings of the serial line.
#[derive(Clone, Copy, Debug, PartialEq, Eq, Structural)]
pub struct LineConfig {
    /// Bits per second.
    pub baud: u32,
    pub parity: Parity,
}

/// The speed of the console line, in bits per second.
pub const CONSOLE_BAUD: u32 = 115200;

/// The one configuration the console runs with: 115200 baud, no parity.
pub fn console_line() -> (cfg: LineConfig)
    ensures
        cfg.baud == 115200,
        cfg.parity == Parity::Excluded,
{
    LineConfig { baud: CONSOLE_BAUD, parity: Parity::Excluded }
}

} // verus!
