//! Bringing the console up on a serial peripheral.

use vstd::prelude::*;
use crate::cell::ConsoleCell;
use crate::line::{console_line, LineConfig, Parity};

verus! {

/// Opens the serial port with the console's line settings and installs it in
/// the console cell.
///
/// `open` stands for the peripheral. It is handed the settings, 115200 baud
/// without parity, and answers with the port that it opened with them, or
/// with the reason why the peripheral would not let itself be set up as a
/// port. That reason is handed on as it is, and the cell stays untouched. On
/// success the new port goes to the cell as in [`ConsoleCell::init`]: it is
/// the console's port from now on, and one that the cell held before is
/// replaced and handed back, unflushed.
///
/// Not to be called from inside a locked block.
pub fn init_serial<P, C, F: FnOnce(LineConfig) -> Result<P, C>>(
    cell: &mut ConsoleCell<P>,
    open: F,
) -> (r: Result<Option<P>, C>)
    requires
        !(old(cell)@ is Held),
        call_requires(open, (LineConfig { baud: 115200, parity: Parity::Excluded },)),
    ensures
        match r {
            Ok(displaced) => exists|port: P|
                {
                    &&& #[trigger] call_ensures(
                        open,
                        (LineConfig { baud: 115200, parity: Parity::Excluded },),
                        Ok::<P, C>(port),
                    )
                    &&& final(cell)@ == old(cell)@.installed(port)
                    &&& displaced == old(cell)@.displaced(port)
                },
            Err(refusal) => {
                &&& final(cell)@ == old(cell)@
                &&& call_ensures(
                    open,
                    (LineConfig { baud: 115200, parity: Parity::Excluded },),
                    Err::<P, C>(refusal),
                )
            },
        },
{
    match open(console_line()) {
        Ok(port) => Ok(cell.init(port)),
        Err(refusal) => Err(refusal),
    }
}

} // verus!
