//! The blocking operations of the port adapter: writing a text and flushing.
//!
//! A [`Transfer`] is one such operation in progress. It names the attempt to
//! make on the transmitter ([`Transfer::request`]), and [`Transfer::step`]
//! takes what the attempt came to: on `WouldBlock` the same attempt is due
//! again, on success the next one, and the first hardware error ends the
//! operation with exactly that error. The caller's loop around it is the
//! busy-retry loop; nothing here bounds how often it turns.

use vstd::prelude::*;
use vstd::slice::slice_to_vec;
use vstd::string::StringSliceAdditionalSpecFns;
use crate::line::Poll;

verus! {

/// An attempt to make on the transmitter.
#[derive(Clone, Copy, Debug, PartialEq, Eq, Structural)]
pub enum Request {
    /// Offer this byte to the transmitter.
    Write(u8),
    /// Ask whether everything handed over so far has left the transmitter.
    Flush,
}

/// A blocking operation that still has something to do.
#[derive(Debug)]
pub struct Transfer {
    text: Vec<u8>,
    next: usize,
    drain: bool,
}

/// A [`Transfer`] as a mathematical value.
pub struct TransferView {
    /// The bytes to hand to the transmitter, in order.
    pub text: Seq<u8>,
    /// How many of them the transmitter has accepted.
    pub sent: nat,
    /// Whether the operation ends by waiting for the transmitter to drain.
    pub drain: bool,
}

/// Where a blocking operation stands.
#[derive(Debug)]
pub enum Step<E> {
    /// An attempt is due; the transfer says which.
    Pending(Transfer),
    /// The operation has returned, with this result.
    Done(Result<(), E>),
}

/// A [`Step`] as a mathematical value.
pub enum StepView<E> {
    Pending(TransferView),
    Done(Result<(), E>),
}

impl TransferView {
    /// A transfer in progress always has an attempt left to make.
    pub open spec fn wf(self) -> bool {
        &&& self.sent <= self.text.len()
        &&& self.sent == self.text.len() ==> self.drain
    }

    /// The attempt that is due: the next byte of the text, or, once the whole
    /// text is out, the flush.
    pub open spec fn request(self) -> Request {
        if self.sent < self.text.len() {
            Request::Write(self.text[self.sent as int])
        } else {
            Request::Flush
        }
    }

    /// The same transfer with one more byte accepted.
    pub open spec fn advanced(self) -> TransferView {
        TransferView { text: self.text, sent: self.sent + 1, drain: self.drain }
    }

    /// What the answer `event` to the due attempt leads to.
    pub open spec fn step<E>(self, event: Poll<(), E>) -> StepView<E> {
        match event {
            Poll::WouldBlock => StepView::Pending(self),
            Poll::Failed(e) => StepView::Done(Err(e)),
            Poll::Ready(_) => if self.sent < self.text.len() {
                settle(self.advanced())
            } else {
                StepView::Done(Ok(()))
            },
        }
    }
}

/// A transfer that has nothing left to do has returned successfully.
pub open spec fn settle<E>(t: TransferView) -> StepView<E> {
    if t.sent < t.text.len() || t.drain {
        StepView::Pending(t)
    } else {
        StepView::Done(Ok(()))
    }
}

/// The start of an operation that writes `text` and, if `drain` is set, waits
/// for the transmitter to drain.
pub open spec fn start<E>(text: Seq<u8>, drain: bool) -> StepView<E> {
    settle(TransferView { text, sent: 0, drain })
}

impl View for Transfer {
    type V = TransferView;

    closed spec fn view(&self) -> TransferView {
        TransferView { text: self.text@, sent: self.next as nat, drain: self.drain }
    }
}

impl<E> View for Step<E> {
    type V = StepView<E>;

    open spec fn view(&self) -> StepView<E> {
        match *self {
            Step::Pending(t) => StepView::Pending(t@),
            Step::Done(r) => StepView::Done(r),
        }
    }
}

impl<E> StepView<E> {
    pub open spec fn wf(self) -> bool {
        match self {
            StepView::Pending(t) => t.wf(),
            StepView::Done(_) => true,
        }
    }
}

impl Transfer {
    #[verifier::type_invariant]
    spec fn inv(&self) -> bool {
        &&& self.next <= self.text@.len()
        &&& self.next == self.text@.len() ==> self.drain
    }

    fn settle<E>(text: Vec<u8>, next: usize, drain: bool) -> (r: Step<E>)
        requires
            next <= text@.len(),
        ensures
            r@ == settle::<E>(TransferView { text: text@, sent: next as nat, drain }),
    {
        if next < text.len() || drain {
            Step::Pending(Transfer { text, next, drain })
        } else {
            Step::Done(Ok(()))
        }
    }

    /// The attempt that is due on the transmitter.
    pub fn request(&self) -> (r: Request)
        ensures
            self@.wf(),
            r == self@.request(),
    {
        proof {
            use_type_invariant(self);
        }
        if self.next < self.text.len() {
            Request::Write(self.text[self.next])
        } else {
            Request::Flush
        }
    }

    /// How many bytes of the text the transmitter has accepted.
    pub fn sent(&self) -> (n: usize)
        ensures
            self@.wf(),
            n == self@.sent,
    {
        proof {
            use_type_invariant(self);
        }
        self.next
    }

    /// Takes the answer to the due attempt.
    ///
    /// `WouldBlock` leaves the transfer as it is, so the same attempt is made
    /// again. An error ends the operation with that error. Success moves on
    /// to the next byte, to the flush, or to the successful end.
    pub fn step<E>(self, event: Poll<(), E>) -> (r: Step<E>)
        ensures
            self@.wf(),
            r@ == self@.step(event),
            r@.wf(),
    {
        proof {
            use_type_invariant(&self);
        }
        match event {
            Poll::WouldBlock => Step::Pending(self),
            Poll::Failed(e) => Step::Done(Err(e)),
            Poll::Ready(_) => {
                let Transfer { text, next, drain } = self;
                if next < text.len() {
                    Transfer::settle(text, next + 1, drain)
                } else {
                    Step::Done(Ok(()))
                }
            },
        }
    }
}

/// Starts the blocking write of `text`: its bytes, in order, each offered
/// until the transmitter accepts it. An empty text has returned at once.
pub fn write_str<E>(text: &str) -> (r: Step<E>)
    ensures
        r@ == start::<E>(text.spec_bytes(), false),
        r@.wf(),
{
    Transfer::settle(slice_to_vec(text.as_bytes()), 0, false)
}

/// Starts the blocking write of raw bytes.
pub fn write_all<E>(bytes: Vec<u8>) -> (r: Step<E>)
    ensures
        r@ == start::<E>(bytes@, false),
        r@.wf(),
{
    Transfer::settle(bytes, 0, false)
}

/// Starts the blocking write of raw bytes followed by a blocking flush, as
/// one operation.
pub fn write_all_and_flush<E>(bytes: Vec<u8>) -> (r: Step<E>)
    ensures
        r@ == start::<E>(bytes@, true),
        r@ is Pending,
        r@.wf(),
{
    Transfer::settle(bytes, 0, true)
}

/// Starts a blocking flush: it returns only once the transmitter reports that
/// its queue has drained, or an error.
pub fn flush<E>() -> (r: Step<E>)
    ensures
        r@ == start::<E>(Seq::empty(), true),
        r@.wf(),
{
    Transfer::settle(Vec::new(), 0, true)
}

} // verus!
