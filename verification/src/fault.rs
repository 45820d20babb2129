//! The fault hook: a last message on the console, and the halt.
//!
//! The hook runs when the program cannot go on. It moves one way only, from
//! [`FaultHook::Running`] through [`FaultHook::Faulting`] to
//! [`FaultHook::Halted`]. On entry it asks the console cell for the port
//! without insisting: a console that was never initialised, or that the
//! faulting context itself holds, means no message, not a second fault. With
//! the port in hand it writes the description and a line end and flushes, and
//! whatever goes wrong on the way is ignored. It ends by emptying the cell
//! and halting. Nothing in it waits for anything but the transmitter.

use vstd::prelude::*;
use vstd::slice::slice_to_vec;
use vstd::string::StringSliceAdditionalSpecFns;
use crate::cell::{CellView, ConsoleCell};
use crate::line::Poll;
use crate::print::{line_end, CR, LF};
use crate::transfer::{write_all, Request, Step, StepView, Transfer, TransferView};
use crate::wire::accepted;

verus! {

/// What is left to do of the last message.
#[derive(Debug)]
pub enum Stage {
    /// The text is being written.
    Writing(Transfer),
    /// The text is out, or its write failed; the flush is pending.
    Flushing,
    /// Nothing is left to do on the line.
    Idle,
}

/// A [`Stage`] as a mathematical value.
pub enum StageView {
    Writing(TransferView),
    Flushing,
    Idle,
}

/// The fault hook.
#[derive(Debug)]
pub enum FaultHook {
    /// No fault has happened.
    Running,
    /// The hook has been entered and is busy with its message.
    Faulting(Stage),
    /// The hook is done. The processor waits, and nothing follows.
    Halted,
}

/// A [`FaultHook`] as a mathematical value.
pub enum HookView {
    Running,
    Faulting(StageView),
    Halted,
}

impl View for Stage {
    type V = StageView;

    open spec fn view(&self) -> StageView {
        match *self {
            Stage::Writing(t) => StageView::Writing(t@),
            Stage::Flushing => StageView::Flushing,
            Stage::Idle => StageView::Idle,
        }
    }
}

impl View for FaultHook {
    type V = HookView;

    open spec fn view(&self) -> HookView {
        match *self {
            FaultHook::Running => HookView::Running,
            FaultHook::Faulting(stage) => HookView::Faulting(stage@),
            FaultHook::Halted => HookView::Halted,
        }
    }
}

/// The message for `description`: its bytes and a line end.
pub open spec fn message(description: Seq<u8>) -> Seq<u8> {
    description + line_end()
}

impl HookView {
    /// How far along its one way the hook is.
    pub open spec fn rank(self) -> nat {
        match self {
            HookView::Running => 0,
            HookView::Faulting(_) => 1,
            HookView::Halted => 2,
        }
    }

    /// A transfer that the hook carries is one in progress.
    pub open spec fn wf(self) -> bool {
        self matches HookView::Faulting(StageView::Writing(t)) ==> t.wf()
    }

    /// The hook on entry, when the console cell was found in `cell`.
    pub open spec fn entered<P>(self, cell: CellView<P>, description: Seq<u8>) -> HookView {
        match self {
            HookView::Running => if cell is Ready {
                HookView::Faulting(
                    StageView::Writing(
                        TransferView { text: message(description), sent: 0, drain: false },
                    ),
                )
            } else {
                HookView::Faulting(StageView::Idle)
            },
            _ => self,
        }
    }

    /// The attempt that the hook wants made on the line, if any.
    pub open spec fn request(self) -> Option<Request> {
        match self {
            HookView::Faulting(StageView::Writing(t)) => Some(t.request()),
            HookView::Faulting(StageView::Flushing) => Some(Request::Flush),
            _ => None,
        }
    }

    /// The hook after the answer `event` to that attempt. A failed write
    /// gives up the rest of the text and goes on to the flush; a failed
    /// flush counts as done.
    pub open spec fn advanced<E>(self, event: Poll<(), E>) -> HookView {
        match self {
            HookView::Faulting(StageView::Writing(t)) => match t.step(event) {
                StepView::Pending(u) => HookView::Faulting(StageView::Writing(u)),
                StepView::Done(_) => HookView::Faulting(StageView::Flushing),
            },
            HookView::Faulting(StageView::Flushing) => match event {
                Poll::WouldBlock => self,
                _ => HookView::Faulting(StageView::Idle),
            },
            _ => self,
        }
    }
}

impl FaultHook {
    /// The hook of a program that runs.
    pub fn new() -> (hook: FaultHook)
        ensures
            hook@ == HookView::Running,
    {
        FaultHook::Running
    }

    /// Enters the hook on a fault described by `description`.
    ///
    /// The hook asks the cell for the port once and takes what it gets. With
    /// the port it starts on the message; without it the cell is left
    /// exactly as it was and there is nothing to write. A hook that was
    /// entered before stays as it is and leaves the cell alone.
    pub fn enter<P>(self, cell: &mut ConsoleCell<P>, description: &str) -> (r: (
        FaultHook,
        Option<P>,
    ))
        ensures
            r.0@ == self@.entered(old(cell)@, description.spec_bytes()),
            self@ is Running ==> r.1 == old(cell)@.port() && final(cell)@ == old(cell)@.entered(),
            !(self@ is Running) ==> r.1 is None && final(cell)@ == old(cell)@,
    {
        match self {
            FaultHook::Running => match cell.try_acquire() {
                Some(port) => {
                    let mut bytes = slice_to_vec(description.as_bytes());
                    bytes.push(CR);
                    bytes.push(LF);
                    assert(bytes@ =~= message(description.spec_bytes()));
                    // The message ends with the line end, so it is never
                    // empty and its write is always pending here.
                    match write_all::<()>(bytes) {
                        Step::Pending(transfer) => (
                            FaultHook::Faulting(Stage::Writing(transfer)),
                            Some(port),
                        ),
                        Step::Done(_) => (FaultHook::Faulting(Stage::Flushing), Some(port)),
                    }
                },
                None => (FaultHook::Faulting(Stage::Idle), None),
            },
            other => (other, None),
        }
    }

    /// The attempt to make on the line now; `None` when the hook has nothing
    /// to write, or nothing more.
    pub fn request(&self) -> (r: Option<Request>)
        ensures
            r == self@.request(),
    {
        match self {
            FaultHook::Faulting(Stage::Writing(transfer)) => Some(transfer.request()),
            FaultHook::Faulting(Stage::Flushing) => Some(Request::Flush),
            _ => None,
        }
    }

    /// Takes the answer to the attempt that was due. Errors are not handed
    /// on to anyone: the hook is the last resort.
    pub fn advance<E>(self, event: Poll<(), E>) -> (hook: FaultHook)
        ensures
            hook@ == self@.advanced(event),
            hook@.rank() == self@.rank(),
    {
        match self {
            FaultHook::Faulting(Stage::Writing(transfer)) => match transfer.step(event) {
                Step::Pending(next) => FaultHook::Faulting(Stage::Writing(next)),
                Step::Done(_) => FaultHook::Faulting(Stage::Flushing),
            },
            FaultHook::Faulting(Stage::Flushing) => match event {
                Poll::WouldBlock => FaultHook::Faulting(Stage::Flushing),
                _ => FaultHook::Faulting(Stage::Idle),
            },
            other => other,
        }
    }

    /// Ends the hook: empties the console cell, whatever became of the
    /// message, drops the port, and halts.
    pub fn halt<P>(self, cell: &mut ConsoleCell<P>, port: Option<P>) -> (hook: FaultHook)
        ensures
            hook@ == HookView::Halted,
            final(cell)@ == CellView::<P>::Consumed,
    {
        let _ = cell.consume();
        FaultHook::Halted
    }
}

/// The hook once the line has given the answers `events` to its attempts.
pub open spec fn hook_run<E>(hook: HookView, events: Seq<Poll<(), E>>) -> HookView
    decreases events.len(),
{
    if events.len() == 0 {
        hook
    } else {
        hook_run(hook.advanced(events[0]), events.drop_first())
    }
}

/// The bytes that the hook gets on the wire against `events`.
pub open spec fn hook_wire<E>(hook: HookView, events: Seq<Poll<(), E>>) -> Seq<u8>
    decreases events.len(),
{
    if events.len() == 0 {
        Seq::empty()
    } else {
        let head = match hook.request() {
            Some(request) => accepted(request, events[0]),
            None => Seq::empty(),
        };
        head + hook_wire(hook.advanced(events[0]), events.drop_first())
    }
}

proof fn lemma_text_is_over<E>(hook: HookView, events: Seq<Poll<(), E>>)
    requires
        !(hook matches HookView::Faulting(StageView::Writing(_))),
    ensures
        hook_wire(hook, events) == Seq::<u8>::empty(),
        !(hook_run(hook, events) matches HookView::Faulting(StageView::Writing(_))),
        hook_run(hook, events).rank() == hook.rank(),
        !(hook matches HookView::Faulting(StageView::Flushing)) ==> hook_run(hook, events) == hook,
        hook == HookView::Faulting(StageView::Flushing) && events.len() > 0 && (forall|i: int|
            0 <= i < events.len() ==> #[trigger] events[i] is Ready) ==> hook_run(hook, events)
            == HookView::Faulting(StageView::Idle),
    decreases events.len(),
{
    if events.len() > 0 {
        let rest = events.drop_first();
        assert forall|i: int| 0 <= i < rest.len() implies rest[i] == events[i + 1] by {}
        lemma_text_is_over(hook.advanced(events[0]), rest);
        assert(Seq::<u8>::empty() + Seq::<u8>::empty() =~= Seq::<u8>::empty());
    }
}

proof fn lemma_text_in_progress<E>(t: TransferView, events: Seq<Poll<(), E>>)
    requires
        t.wf(),
    ensures
        ({
            let hook = HookView::Faulting(StageView::Writing(t));
            let w = hook_wire(hook, events);
            &&& t.sent + w.len() <= t.text.len()
            &&& w == t.text.subrange(t.sent as int, (t.sent + w.len()) as int)
            &&& hook_run(hook, events).rank() == 1
            &&& !t.drain && events.len() > t.text.len() - t.sent && (forall|i: int|
                0 <= i < events.len() ==> #[trigger] events[i] is Ready) ==> {
                &&& hook_run(hook, events) == HookView::Faulting(StageView::Idle)
                &&& t.sent + w.len() == t.text.len()
            }
        }),
    decreases events.len(),
{
    let hook = HookView::Faulting(StageView::Writing(t));
    if events.len() == 0 {
        assert(hook_wire(hook, events) =~= t.text.subrange(t.sent as int, t.sent as int));
    } else {
        let rest = events.drop_first();
        let head = accepted(t.request(), events[0]);
        assert forall|i: int| 0 <= i < rest.len() implies rest[i] == events[i + 1] by {}
        match t.step(events[0]) {
            StepView::Pending(u) => {
                lemma_text_in_progress(u, rest);
                let tail = hook_wire(HookView::Faulting(StageView::Writing(u)), rest);
                assert(head + tail =~= t.text.subrange(
                    t.sent as int,
                    (t.sent + head.len() + tail.len()) as int,
                ));
            },
            StepView::Done(_) => {
                lemma_text_is_over(HookView::Faulting(StageView::Flushing), rest);
                assert(head + Seq::<u8>::empty() =~= t.text.subrange(
                    t.sent as int,
                    (t.sent + head.len()) as int,
                ));
            },
        }
    }
}

/// The hook never goes back: once entered it is never running again, once
/// halted it stays halted, and no answer of the line moves it from one state
/// to another.
pub proof fn hook_goes_one_way<P, E>(
    hook: HookView,
    cell: CellView<P>,
    description: Seq<u8>,
    events: Seq<Poll<(), E>>,
)
    requires
        hook.wf(),
    ensures
        hook.entered(cell, description).rank() >= hook.rank(),
        hook.entered(cell, description).rank() >= 1,
        hook_run(hook, events).rank() == hook.rank(),
{
    match hook {
        HookView::Faulting(StageView::Writing(t)) => {
            lemma_text_in_progress(t, events);
        },
        _ => {
            lemma_text_is_over(hook, events);
        },
    }
}

/// A fault while the console is held, or was never initialised, logs
/// nothing and does not wait: the hook asks for no attempt on the line, no
/// answer from the line changes that, and the cell is as it was until the
/// halt empties it.
pub proof fn fault_without_console_is_silent<P, E>(
    cell: CellView<P>,
    description: Seq<u8>,
    events: Seq<Poll<(), E>>,
)
    requires
        !(cell is Ready),
    ensures
        cell.port() is None,
        cell.entered() == cell,
        HookView::Running.entered(cell, description) == HookView::Faulting(StageView::Idle),
        HookView::Running.entered(cell, description).request() is None,
        hook_run(HookView::Running.entered(cell, description), events) == HookView::Faulting(
            StageView::Idle,
        ),
        hook_wire(HookView::Running.entered(cell, description), events) == Seq::<u8>::empty(),
{
    lemma_text_is_over(HookView::Faulting(StageView::Idle), events);
}

/// With the console in hand the hook puts a beginning of its message on the
/// wire, in order and at most once, whatever the line does; on a line that
/// accepts every attempt the whole message is out, and flushed, after one
/// answer per byte and one more.
pub proof fn fault_message_on_the_wire<P, E>(
    cell: CellView<P>,
    description: Seq<u8>,
    events: Seq<Poll<(), E>>,
)
    requires
        cell is Ready,
    ensures
        hook_wire(HookView::Running.entered(cell, description), events).len() <= message(
            description,
        ).len(),
        hook_wire(HookView::Running.entered(cell, description), events) == message(
            description,
        ).take(hook_wire(HookView::Running.entered(cell, description), events).len() as int),
        events.len() > message(description).len() && (forall|i: int|
            0 <= i < events.len() ==> #[trigger] events[i] is Ready) ==> {
            &&& hook_run(HookView::Running.entered(cell, description), events)
                == HookView::Faulting(StageView::Idle)
            &&& hook_wire(HookView::Running.entered(cell, description), events) == message(
                description,
            )
        },
{
    let t = TransferView { text: message(description), sent: 0, drain: false };
    lemma_text_in_progress(t, events);
    let w = hook_wire(HookView::Running.entered(cell, description), events);
    assert(message(description).subrange(0, w.len() as int) =~= message(description).take(
        w.len() as int,
    ));
    assert(message(description).take(message(description).len() as int) =~= message(
        description,
    ));
}

} // verus!
