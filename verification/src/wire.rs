//! What reaches the serial line while a blocking operation runs.
//!
//! The line is modelled by the answers it gives, one per attempt, in order. A
//! byte is on the wire exactly when the attempt that offered it was answered
//! `Ready`; a `WouldBlock` or an error leaves the wire as it was. Over this
//! model the module states what the blocking write and flush guarantee for
//! every behaviour of the line, and [`replay`] runs an operation against a
//! recorded behaviour.

use vstd::prelude::*;
use crate::line::Poll;
use crate::transfer::{start, Request, Step, StepView, TransferView};

verus! {

/// What the answer `event` to `request` puts on the wire.
pub open spec fn accepted<E>(request: Request, event: Poll<(), E>) -> Seq<u8> {
    match (request, event) {
        (Request::Write(b), Poll::Ready(_)) => seq![b],
        _ => Seq::empty(),
    }
}

/// Where the operation stands once the line has given the answers `events`.
/// Answers that come after the operation has returned are not looked at.
pub open spec fn run<E>(s: StepView<E>, events: Seq<Poll<(), E>>) -> StepView<E>
    decreases events.len(),
{
    if events.len() == 0 {
        s
    } else {
        match s {
            StepView::Done(_) => s,
            StepView::Pending(t) => run(t.step(events[0]), events.drop_first()),
        }
    }
}

/// The bytes that reach the wire while the operation runs against `events`.
pub open spec fn wire<E>(s: StepView<E>, events: Seq<Poll<(), E>>) -> Seq<u8>
    decreases events.len(),
{
    if events.len() == 0 {
        Seq::empty()
    } else {
        match s {
            StepView::Done(_) => Seq::empty(),
            StepView::Pending(t) => accepted(t.request(), events[0]) + wire(
                t.step(events[0]),
                events.drop_first(),
            ),
        }
    }
}

/// Whether the line answered a flush of the operation with `Ready` while it
/// ran against `events`: its word that everything handed over has left the
/// transmitter.
pub open spec fn drained<E>(s: StepView<E>, events: Seq<Poll<(), E>>) -> bool
    decreases events.len(),
{
    if events.len() == 0 {
        false
    } else {
        match s {
            StepView::Done(_) => false,
            StepView::Pending(t) => (t.request() == Request::Flush && events[0] is Ready)
                || drained(t.step(events[0]), events.drop_first()),
        }
    }
}

/// The line never reports an error in `events`.
pub open spec fn faultless<E>(events: Seq<Poll<(), E>>) -> bool {
    forall|i: int| 0 <= i < events.len() ==> !(#[trigger] events[i] is Failed)
}

/// The line answers nothing but `WouldBlock` in `events`.
pub open spec fn stalled<E>(events: Seq<Poll<(), E>>) -> bool {
    forall|i: int| 0 <= i < events.len() ==> #[trigger] events[i] is WouldBlock
}

/// `e` is the first error that the line reports in `events`.
pub open spec fn first_failure<E>(events: Seq<Poll<(), E>>, e: E) -> bool {
    exists|i: int|
        0 <= i < events.len() && #[trigger] events[i] == Poll::<(), E>::Failed(e) && faultless(
            events.take(i),
        )
}

/// How a transfer in progress fares against any behaviour of the line: the
/// wire gets the next bytes of the text and nothing else, and the transfer
/// has advanced by exactly as many.
proof fn lemma_run_pending<E>(t: TransferView, events: Seq<Poll<(), E>>)
    requires
        t.wf(),
    ensures
        ({
            let w = wire(StepView::<E>::Pending(t), events);
            let end = run(StepView::<E>::Pending(t), events);
            &&& t.sent + w.len() <= t.text.len()
            &&& w == t.text.subrange(t.sent as int, (t.sent + w.len()) as int)
            &&& end.wf()
            &&& end matches StepView::Pending(u) ==> u == (TransferView {
                text: t.text,
                sent: t.sent + w.len(),
                drain: t.drain,
            })
            &&& end == StepView::<E>::Done(Ok(())) ==> t.sent + w.len() == t.text.len()
            &&& end matches StepView::Done(Err(e)) ==> first_failure(events, e)
            &&& faultless(events) ==> !(end matches StepView::Done(Err(_)))
            &&& stalled(events) ==> end == StepView::<E>::Pending(t) && w.len() == 0
            &&& t.drain ==> (end == StepView::<E>::Done(Ok(())) <==> drained(
                StepView::<E>::Pending(t),
                events,
            ))
            &&& !t.drain ==> !drained(StepView::<E>::Pending(t), events)
        }),
    decreases events.len(),
{
    let s = StepView::<E>::Pending(t);
    if events.len() == 0 {
        assert(wire(s, events) =~= t.text.subrange(t.sent as int, t.sent as int));
    } else {
        let rest = events.drop_first();
        let head = accepted(t.request(), events[0]);
        assert(wire(s, events) == head + wire(t.step(events[0]), rest));
        assert(run(s, events) == run(t.step(events[0]), rest));
        assert(drained(s, events) == ((t.request() == Request::Flush && events[0] is Ready)
            || drained(t.step(events[0]), rest)));
        assert forall|i: int| 0 <= i < rest.len() implies rest[i] == events[i + 1] by {}
        match t.step(events[0]) {
            StepView::Pending(u) => {
                lemma_run_pending(u, rest);
                let tail = wire(StepView::<E>::Pending(u), rest);
                assert(head + tail =~= t.text.subrange(
                    t.sent as int,
                    (t.sent + head.len() + tail.len()) as int,
                ));
                let end = run(s, events);
                if let StepView::Done(Err(e)) = end {
                    let i = choose|i: int|
                        0 <= i < rest.len() && #[trigger] rest[i] == Poll::<(), E>::Failed(e)
                            && faultless(rest.take(i));
                    assert(events[i + 1] == Poll::<(), E>::Failed(e));
                    assert forall|j: int| 0 <= j < events.take(i + 1).len() implies !(
                    #[trigger] events.take(i + 1)[j] is Failed) by {
                        if j > 0 {
                            assert(rest.take(i)[j - 1] == events.take(i + 1)[j]);
                        }
                    }
                }
                if faultless(events) {
                    assert forall|i: int| 0 <= i < rest.len() implies !(
                    #[trigger] rest[i] is Failed) by {
                        assert(rest[i] == events[i + 1]);
                    }
                }
                if stalled(events) {
                    assert(events[0] is WouldBlock);
                    assert forall|i: int| 0 <= i < rest.len() implies #[trigger] rest[i]
                        is WouldBlock by {
                        assert(rest[i] == events[i + 1]);
                    }
                }
            },
            StepView::Done(r) => {
                assert(run(StepView::<E>::Done(r), rest) == StepView::<E>::Done(r));
                assert(wire(StepView::<E>::Done(r), rest) =~= Seq::<u8>::empty());
                assert(!drained(StepView::<E>::Done(r), rest));
                assert(head + Seq::<u8>::empty() =~= t.text.subrange(
                    t.sent as int,
                    (t.sent + head.len()) as int,
                ));
                if let Err(e) = r {
                    assert(events[0] == Poll::<(), E>::Failed(e));
                    assert(events.take(0).len() == 0);
                }
                if faultless(events) {
                    assert(!(events[0] is Failed));
                }
                if stalled(events) {
                    assert(events[0] is WouldBlock);
                }
            },
        }
    }
}

/// Whatever the line does, the wire carries a beginning of the text: its
/// bytes in order, none twice, none out of place, nothing else. Once the
/// operation has returned successfully the wire carries the whole text; while
/// it is pending it has handed over exactly what is on the wire.
pub proof fn wire_follows_text<E>(text: Seq<u8>, drain: bool, events: Seq<Poll<(), E>>)
    ensures
        wire(start::<E>(text, drain), events).len() <= text.len(),
        wire(start::<E>(text, drain), events) == text.take(
            wire(start::<E>(text, drain), events).len() as int,
        ),
        run(start::<E>(text, drain), events) == StepView::<E>::Done(Ok(())) ==> wire(
            start::<E>(text, drain),
            events,
        ) == text,
        run(start::<E>(text, drain), events) matches StepView::Pending(t) ==> t.text == text
            && t.drain == drain && t.sent == wire(start::<E>(text, drain), events).len(),
{
    let t = TransferView { text, sent: 0, drain };
    if t.wf() {
        lemma_run_pending(t, events);
        assert(text.subrange(0, wire(start::<E>(text, drain), events).len() as int) =~= text.take(
            wire(start::<E>(text, drain), events).len() as int,
        ));
        assert(text.take(text.len() as int) =~= text);
    } else {
        assert(wire(start::<E>(text, drain), events) =~= text);
        assert(text.take(0) =~= text);
    }
}

/// The operation ends in an error only with the first error that the line
/// reported, handed on as it came; a line that reports none never makes it
/// fail.
pub proof fn first_error_is_handed_on<E>(text: Seq<u8>, drain: bool, events: Seq<Poll<(), E>>)
    ensures
        run(start::<E>(text, drain), events) matches StepView::Done(Err(e)) ==> first_failure(
            events,
            e,
        ),
        faultless(events) ==> !(run(start::<E>(text, drain), events) matches StepView::Done(
            Err(_),
        )),
{
    let t = TransferView { text, sent: 0, drain };
    if t.wf() {
        lemma_run_pending(t, events);
    }
}

/// An operation that ends with a flush does not return while the line only
/// answers `WouldBlock`, however long that lasts: it stays where it started
/// and nothing reaches the wire.
pub proof fn stalled_line_never_returns<E>(text: Seq<u8>, events: Seq<Poll<(), E>>)
    requires
        stalled(events),
    ensures
        run(start::<E>(text, true), events) == start::<E>(text, true),
        run(start::<E>(text, true), events) is Pending,
        wire(start::<E>(text, true), events).len() == 0,
{
    let t = TransferView { text, sent: 0, drain: true };
    lemma_run_pending(t, events);
}

/// An operation that ends with a flush returns successfully exactly when the
/// line has answered that flush with `Ready`, and not before; by that time
/// the whole text is on the wire.
pub proof fn returns_once_drained<E>(text: Seq<u8>, events: Seq<Poll<(), E>>)
    ensures
        run(start::<E>(text, true), events) == StepView::<E>::Done(Ok(())) <==> drained(
            start::<E>(text, true),
            events,
        ),
        drained(start::<E>(text, true), events) ==> wire(start::<E>(text, true), events) == text,
        !drained(start::<E>(text, false), events),
{
    lemma_run_pending(TransferView { text, sent: 0, drain: true }, events);
    wire_follows_text(text, true, events);
    let t = TransferView { text, sent: 0, drain: false };
    if t.wf() {
        lemma_run_pending(t, events);
    }
}

/// A flush returns successfully only on an answer `Ready` from the line: the
/// answer to the last attempt it made.
pub proof fn flush_returns_on_ready<E>(events: Seq<Poll<(), E>>)
    requires
        run(start::<E>(Seq::empty(), true), events) == StepView::<E>::Done(Ok(())),
    ensures
        exists|i: int|
            0 <= i < events.len() && #[trigger] events[i] is Ready && stalled(events.take(i)),
    decreases events.len(),
{
    let t = TransferView { text: Seq::<u8>::empty(), sent: 0, drain: true };
    let s = StepView::<E>::Pending(t);
    assert(events.len() > 0);
    let rest = events.drop_first();
    assert(run(s, events) == run(t.step(events[0]), rest));
    match events[0] {
        Poll::Ready(_) => {
            assert(events.take(0).len() == 0);
        },
        Poll::WouldBlock => {
            flush_returns_on_ready(rest);
            let i = choose|i: int|
                0 <= i < rest.len() && #[trigger] rest[i] is Ready && stalled(rest.take(i));
            assert(events[i + 1] == rest[i]);
            assert forall|j: int| 0 <= j < events.take(i + 1).len() implies #[trigger] events.take(
                i + 1,
            )[j] is WouldBlock by {
                if j > 0 {
                    assert(rest.take(i)[j - 1] == events.take(i + 1)[j]);
                }
            }
        },
        Poll::Failed(e) => {
            assert(run(StepView::<E>::Done(Err(e)), rest) == StepView::<E>::Done(Err(e)));
        },
    }
}

/// On a line that accepts every attempt at once, the operation has returned
/// successfully after one answer per byte, and one more for the flush.
pub proof fn willing_line_completes<E>(text: Seq<u8>, drain: bool, events: Seq<Poll<(), E>>)
    requires
        forall|i: int| 0 <= i < events.len() ==> #[trigger] events[i] is Ready,
        events.len() >= text.len() + (if drain { 1nat } else { 0nat }),
    ensures
        run(start::<E>(text, drain), events) == StepView::<E>::Done(Ok(())),
        wire(start::<E>(text, drain), events) == text,
{
    let t = TransferView { text, sent: 0, drain };
    if t.wf() {
        lemma_willing(t, events);
    }
    wire_follows_text(text, drain, events);
}

proof fn lemma_willing<E>(t: TransferView, events: Seq<Poll<(), E>>)
    requires
        t.wf(),
        forall|i: int| 0 <= i < events.len() ==> #[trigger] events[i] is Ready,
        events.len() >= t.text.len() - t.sent + (if t.drain { 1nat } else { 0nat }),
    ensures
        run(StepView::<E>::Pending(t), events) == StepView::<E>::Done(Ok(())),
    decreases events.len(),
{
    let rest = events.drop_first();
    assert(events.len() > 0);
    assert forall|i: int| 0 <= i < rest.len() implies #[trigger] rest[i] is Ready by {
        assert(rest[i] == events[i + 1]);
    }
    match t.step(events[0]) {
        StepView::Pending(u) => {
            lemma_willing(u, rest);
        },
        StepView::Done(r) => {
            assert(run(StepView::<E>::Done(r), rest) == StepView::<E>::Done(r));
        },
    }
}

/// Runs an operation against a recorded behaviour of the line, and collects
/// what reaches the wire.
pub fn replay<E: Copy>(step: Step<E>, events: &[Poll<(), E>]) -> (r: (Step<E>, Vec<u8>))
    ensures
        r.0@ == run(step@, events@),
        r.1@ == wire(step@, events@),
{
    let ghost origin = step@;
    let mut cur = step;
    let mut out: Vec<u8> = Vec::new();
    let mut i: usize = 0;
    assert(events@.skip(0) =~= events@);
    assert(out@ + wire(cur@, events@) =~= wire(cur@, events@));
    while i < events.len()
        invariant
            i <= events.len(),
            run(origin, events@) == run(cur@, events@.skip(i as int)),
            wire(origin, events@) == out@ + wire(cur@, events@.skip(i as int)),
        decreases events.len() - i,
    {
        let ghost here = events@.skip(i as int);
        let ghost before = out@;
        assert(here.len() > 0 && here[0] == events@[i as int]);
        assert(here.drop_first() =~= events@.skip(i + 1));
        cur =
        match cur {
            Step::Done(r) => {
                assert(run(StepView::<E>::Done(r), here.drop_first()) == StepView::<E>::Done(r));
                assert(wire(StepView::<E>::Done(r), here.drop_first()) =~= Seq::<u8>::empty());
                Step::Done(r)
            },
            Step::Pending(t) => {
                let event = events[i];
                let request = t.request();
                match (request, event) {
                    (Request::Write(b), Poll::Ready(_)) => {
                        out.push(b);
                    },
                    _ => {},
                }
                assert(out@ =~= before + accepted(t@.request(), event));
                let next = t.step(event);
                assert(before + wire(StepView::<E>::Pending(t@), here) =~= out@ + wire(
                    next@,
                    here.drop_first(),
                ));
                next
            },
        };
        i += 1;
    }
    assert(events@.skip(events@.len() as int).len() == 0);
    assert(out@ + Seq::<u8>::empty() =~= out@);
    (cur, out)
}

} // verus!
