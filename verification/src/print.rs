//! `print` and `println`: a text on the console, out in full before the call
//! returns.
//!
//! A print is one locked block. It takes the port out of the console cell,
//! writes the text, waits for the transmitter to drain, and puts the port
//! back. While the block lasts the port is in the block and nowhere else, so
//! no other print gets between its bytes. A failed write or flush ends the
//! block at once and is reported as [`Finished::Aborted`], on which the
//! calling context gives up: there is no second channel to complain on.
//!
//! `println` is the same print with a line end owed afterwards. The line end
//! is a print of its own, in a locked block of its own.

use vstd::prelude::*;
use vstd::slice::slice_to_vec;
use vstd::string::StringSliceAdditionalSpecFns;
use crate::cell::{CellView, ConsoleCell};
use crate::line::Poll;
use crate::transfer::{start, write_all_and_flush, Step, StepView};
use crate::wire::{run, wire, wire_follows_text};

verus! {

/// Carriage return.
pub const CR: u8 = 13;

/// Line feed.
pub const LF: u8 = 10;

/// The line end that `println` adds: carriage return, line feed.
pub open spec fn line_end() -> Seq<u8> {
    seq![CR, LF]
}

/// A print inside its locked block.
#[derive(Debug)]
pub struct Locked<P, E> {
    /// The console's port, out of the cell for as long as the block lasts.
    pub port: P,
    /// The write and flush that the block is there for.
    pub step: Step<E>,
    /// Whether the caller asked for a line end after this text.
    pub line_end_owed: bool,
}

/// How a locked block ended.
#[derive(Debug, PartialEq, Eq)]
pub enum Finished<E> {
    /// The text is out and the call returns.
    Returned,
    /// The text is out; the line end is printed next, by
    /// [`print_line_end`].
    LineEndOwed,
    /// The write or the flush failed with this error. The calling context
    /// aborts, and a line end that was owed is not printed.
    Aborted(E),
}

/// What a block that ended with `result` reports.
pub open spec fn finished<E>(result: Result<(), E>, line_end_owed: bool) -> Finished<E> {
    match result {
        Err(e) => Finished::Aborted(e),
        Ok(_) => if line_end_owed {
            Finished::LineEndOwed
        } else {
            Finished::Returned
        },
    }
}

fn lock_and_start<P, E>(cell: &mut ConsoleCell<P>, bytes: Vec<u8>, line_end_owed: bool) -> (block:
    Locked<P, E>)
    requires
        old(cell)@ is Ready,
    ensures
        old(cell)@ == CellView::Ready(block.port),
        final(cell)@ == CellView::<P>::Held,
        block.step@ == start::<E>(bytes@, true),
        block.step@ is Pending,
        block.line_end_owed == line_end_owed,
{
    let port = cell.acquire();
    Locked { port, step: write_all_and_flush(bytes), line_end_owed }
}

/// Opens the locked block of `print(text)`.
///
/// The console must be initialised and free: printing before `init` is a
/// programming error with no recovery.
pub fn print<P, E>(cell: &mut ConsoleCell<P>, text: &str) -> (block: Locked<P, E>)
    requires
        old(cell)@ is Ready,
    ensures
        old(cell)@ == CellView::Ready(block.port),
        final(cell)@ == CellView::<P>::Held,
        block.step@ == start::<E>(text.spec_bytes(), true),
        block.step@ is Pending,
        !block.line_end_owed,
{
    lock_and_start(cell, slice_to_vec(text.as_bytes()), false)
}

/// Opens the locked block of `println(text)`: that of `print(text)`, with
/// the line end owed when it is done.
pub fn println<P, E>(cell: &mut ConsoleCell<P>, text: &str) -> (block: Locked<P, E>)
    requires
        old(cell)@ is Ready,
    ensures
        old(cell)@ == CellView::Ready(block.port),
        final(cell)@ == CellView::<P>::Held,
        block.step@ == start::<E>(text.spec_bytes(), true),
        block.step@ is Pending,
        block.line_end_owed,
{
    lock_and_start(cell, slice_to_vec(text.as_bytes()), true)
}

/// Opens the locked block that prints the line end of a `println`.
pub fn print_line_end<P, E>(cell: &mut ConsoleCell<P>) -> (block: Locked<P, E>)
    requires
        old(cell)@ is Ready,
    ensures
        old(cell)@ == CellView::Ready(block.port),
        final(cell)@ == CellView::<P>::Held,
        block.step@ == start::<E>(line_end(), true),
        block.step@ is Pending,
        !block.line_end_owed,
{
    let mut bytes: Vec<u8> = Vec::new();
    bytes.push(CR);
    bytes.push(LF);
    assert(bytes@ =~= line_end());
    lock_and_start(cell, bytes, false)
}

/// Closes a locked block.
///
/// A block whose write and flush have returned puts the port back, frees the
/// cell and reports how it ended. A block that is still pending is handed
/// back as it is, and the cell stays held: the lock is not given up before
/// the text is out.
pub fn finish<P, E>(cell: &mut ConsoleCell<P>, block: Locked<P, E>) -> (r: Result<
    Finished<E>,
    Locked<P, E>,
>)
    requires
        old(cell)@ is Held,
    ensures
        match block.step@ {
            StepView::Done(result) => final(cell)@ == CellView::Ready(block.port) && r == Ok::<
                Finished<E>,
                Locked<P, E>,
            >(finished(result, block.line_end_owed)),
            StepView::Pending(_) => final(cell)@ == old(cell)@ && r == Err::<
                Finished<E>,
                Locked<P, E>,
            >(block),
        },
{
    let Locked { port, step, line_end_owed } = block;
    match step {
        Step::Pending(transfer) => Err(
            Locked { port, step: Step::Pending(transfer), line_end_owed },
        ),
        Step::Done(result) => {
            cell.release(port);
            Ok(
                match result {
                    Err(e) => Finished::Aborted(e),
                    Ok(_) => if line_end_owed {
                        Finished::LineEndOwed
                    } else {
                        Finished::Returned
                    },
                },
            )
        },
    }
}

/// What `println` puts on the wire is what `print` puts there for the same
/// text, followed by exactly one line end. This holds for every text, the
/// empty one too, and however long the line kept each of the calls waiting.
pub proof fn println_is_print_and_line_end<E>(
    text: Seq<u8>,
    text_block: Seq<Poll<(), E>>,
    line_end_block: Seq<Poll<(), E>>,
    print_alone: Seq<Poll<(), E>>,
)
    requires
        run(start::<E>(text, true), text_block) == StepView::<E>::Done(Ok(())),
        run(start::<E>(line_end(), true), line_end_block) == StepView::<E>::Done(Ok(())),
        run(start::<E>(text, true), print_alone) == StepView::<E>::Done(Ok(())),
    ensures
        wire(start::<E>(text, true), print_alone) == text,
        wire(start::<E>(text, true), text_block) + wire(
            start::<E>(line_end(), true),
            line_end_block,
        ) == wire(start::<E>(text, true), print_alone) + line_end(),
        wire(start::<E>(text, true), text_block) + wire(
            start::<E>(line_end(), true),
            line_end_block,
        ) == text + seq![13u8, 10u8],
{
    wire_follows_text(text, true, text_block);
    wire_follows_text(line_end(), true, line_end_block);
    wire_follows_text(text, true, print_alone);
}

} // verus!
