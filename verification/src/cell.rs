//! The console cell: the one slot that holds the console's port, and the lock
//! discipline around it.
//!
//! The cell is empty until [`ConsoleCell::init`] installs a port. A locked
//! block takes the port out of the slot for its duration, so a second context
//! that asks meanwhile finds the cell held: the blocking accessor may not be
//! called in that state, the best-effort accessor does nothing. The fault
//! hook ends by emptying the cell with [`ConsoleCell::consume`], and a cell
//! that was consumed stays empty for good.
//!
//! The cell does not mask interrupts itself. Its owner runs every call on it
//! inside a critical section; the cell decides what such a call finds.

use vstd::prelude::*;

verus! {

/// The console slot.
#[derive(Debug)]
pub struct ConsoleCell<P> {
    slot: Option<P>,
    held: bool,
    consumed: bool,
}

/// A [`ConsoleCell`] as a mathematical value.
pub enum CellView<P> {
    /// No port is installed.
    Empty,
    /// The port is installed and no context is using it.
    Ready(P),
    /// A context is inside a locked block and has the port.
    Held,
    /// The fault hook has emptied the cell. No port will be installed again.
    Consumed,
}

impl<P> CellView<P> {
    /// The port that a context could get hold of now.
    pub open spec fn port(self) -> Option<P> {
        match self {
            CellView::Ready(p) => Some(p),
            _ => None,
        }
    }

    /// The cell after `init(port)`.
    pub open spec fn installed(self, port: P) -> CellView<P> {
        match self {
            CellView::Consumed => CellView::Consumed,
            _ => CellView::Ready(port),
        }
    }

    /// The port that `init(port)` leaves outside the cell: the one that was
    /// installed before, or, where the cell takes no port any more, the one
    /// that was offered.
    pub open spec fn displaced(self, port: P) -> Option<P> {
        match self {
            CellView::Ready(before) => Some(before),
            CellView::Consumed => Some(port),
            _ => None,
        }
    }

    /// The cell after an attempt to enter a locked block.
    pub open spec fn entered(self) -> CellView<P> {
        match self {
            CellView::Ready(_) => CellView::Held,
            _ => self,
        }
    }

    /// The cell after the fault hook is done with it.
    pub open spec fn consumed(self) -> CellView<P> {
        CellView::Consumed
    }
}

impl<P> View for ConsoleCell<P> {
    type V = CellView<P>;

    closed spec fn view(&self) -> CellView<P> {
        if self.consumed {
            CellView::Consumed
        } else if self.held {
            CellView::Held
        } else {
            match self.slot {
                Some(p) => CellView::Ready(p),
                None => CellView::Empty,
            }
        }
    }
}

impl<P> ConsoleCell<P> {
    /// The cell as it is at start-up: empty.
    pub fn new() -> (cell: Self)
        ensures
            cell@ == CellView::<P>::Empty,
    {
        ConsoleCell { slot: None, held: false, consumed: false }
    }

    /// Whether a port is installed and free.
    pub fn is_ready(&self) -> (b: bool)
        ensures
            b == (self@ is Ready),
    {
        !self.consumed && !self.held && self.slot.is_some()
    }

    /// Whether a context is inside a locked block.
    pub fn is_held(&self) -> (b: bool)
        ensures
            b == (self@ is Held),
    {
        !self.consumed && self.held
    }

    /// Whether the fault hook has emptied the cell.
    pub fn is_consumed(&self) -> (b: bool)
        ensures
            b == (self@ is Consumed),
    {
        self.consumed
    }

    /// Installs `port` as the console's port.
    ///
    /// A port that was installed before is replaced without a word. It is
    /// handed back unflushed, and the cell will never lend it again: dropping
    /// it is all that is left to do with it. A consumed cell stays empty and
    /// hands `port` itself back.
    ///
    /// Not to be called from inside a locked block.
    pub fn init(&mut self, port: P) -> (displaced: Option<P>)
        requires
            !(old(self)@ is Held),
        ensures
            final(self)@ == old(self)@.installed(port),
            displaced == old(self)@.displaced(port),
    {
        if self.consumed {
            Some(port)
        } else {
            let displaced = self.slot.take();
            self.slot = Some(port);
            displaced
        }
    }

    /// Enters a locked block: takes the port for the calling context.
    ///
    /// The cell must hold a free port. To ask for the lock before `init` is a
    /// programming error with no recovery, and so is asking for it from
    /// inside a locked block.
    pub fn acquire(&mut self) -> (port: P)
        requires
            old(self)@ is Ready,
        ensures
            old(self)@ == CellView::Ready(port),
            final(self)@ == CellView::<P>::Held,
    {
        let port = self.slot.take().unwrap();
        self.held = true;
        port
    }

    /// Enters a locked block if that is possible right now.
    ///
    /// Yields the port exactly when one is installed and free. An empty cell
    /// and a held one are left as they are, and the caller goes without.
    pub fn try_acquire(&mut self) -> (port: Option<P>)
        ensures
            port == old(self)@.port(),
            final(self)@ == old(self)@.entered(),
    {
        if self.consumed || self.held {
            None
        } else {
            match self.slot.take() {
                Some(port) => {
                    self.held = true;
                    Some(port)
                },
                None => None,
            }
        }
    }

    /// Leaves the locked block and puts the port back.
    pub fn release(&mut self, port: P)
        requires
            old(self)@ is Held,
        ensures
            final(self)@ == CellView::Ready(port),
    {
        self.slot = Some(port);
        self.held = false;
    }

    /// Empties the cell for good, whatever state it is in, and hands out the
    /// port if it was installed and free. The fault hook ends with this call.
    pub fn consume(&mut self) -> (port: Option<P>)
        ensures
            port == old(self)@.port(),
            final(self)@ == old(self)@.consumed(),
    {
        let free = !self.consumed && !self.held;
        self.consumed = true;
        self.held = false;
        if free {
            self.slot.take()
        } else {
            self.slot = None;
            None
        }
    }

    /// Runs `f` on the port inside a locked block and hands on what it
    /// returns. The lock is held while `f` runs and released when it has
    /// returned; the port that `f` gives back is the one the cell holds
    /// afterwards.
    ///
    /// The cell must hold a free port, as for [`ConsoleCell::acquire`].
    pub fn with_lock<R, F: FnOnce(P) -> (P, R)>(&mut self, f: F) -> (r: R)
        requires
            old(self)@ is Ready,
            call_requires(f, (old(self)@->Ready_0,)),
        ensures
            final(self)@ is Ready,
            call_ensures(f, (old(self)@->Ready_0,), (final(self)@->Ready_0, r)),
    {
        let port = self.acquire();
        let (port, r) = f(port);
        self.release(port);
        r
    }

    /// Runs `f` on the port inside a locked block if the cell holds a free
    /// port right now, and does nothing at all otherwise.
    pub fn try_with_lock<R, F: FnOnce(P) -> (P, R)>(&mut self, f: F) -> (r: Option<R>)
        requires
            old(self)@ matches CellView::Ready(p) ==> call_requires(f, (p,)),
        ensures
            match old(self)@ {
                CellView::Ready(p) => r is Some && final(self)@ is Ready && call_ensures(
                    f,
                    (p,),
                    (final(self)@->Ready_0, r->Some_0),
                ),
                _ => r is None && final(self)@ == old(self)@,
            },
    {
        match self.try_acquire() {
            Some(port) => {
                let (port, r) = f(port);
                self.release(port);
                Some(r)
            },
            None => None,
        }
    }
}

/// Initialising twice leaves the second port in the cell and nothing of the
/// first: the first is handed back by the second call, and the next locked
/// block gets the second.
pub proof fn second_init_replaces_first<P>(cell: CellView<P>, first: P, second: P)
    requires
        !(cell is Held),
        !(cell is Consumed),
    ensures
        cell.installed(first).installed(second) == CellView::Ready(second),
        cell.installed(first).displaced(second) == Some(first),
        cell.installed(first).installed(second).port() == Some(second),
        cell.installed(first).installed(second).entered() == CellView::<P>::Held,
{
}

/// The lock has one holder at most: a cell that is held stays held when a
/// second context asks, and that context gets no port.
pub proof fn held_cell_admits_no_one<P>(cell: CellView<P>)
    requires
        cell is Held,
    ensures
        cell.port() is None,
        cell.entered() == cell,
{
}

/// Nothing is written after a fault: a consumed cell lends no port, and
/// neither a new `init` nor anything else brings it back to life.
pub proof fn consumed_cell_stays_empty<P>(cell: CellView<P>, port: P)
    ensures
        cell.consumed().port() is None,
        cell.consumed().entered() == CellView::<P>::Consumed,
        cell.consumed().installed(port) == CellView::<P>::Consumed,
        cell.consumed().displaced(port) == Some(port),
        cell.consumed().consumed() == CellView::<P>::Consumed,
{
}

/// A call on the cell, as far as the cell's state goes. Entering a locked
/// block is the same step whether the caller insists or only tries.
pub enum CellOp<P> {
    Init(P),
    Enter,
    Leave(P),
    Consume,
}

impl<P> CellView<P> {
    /// Whether the call may be made in this state: no `init` from inside a
    /// locked block, and no block left that nobody is in.
    pub open spec fn admits(self, op: CellOp<P>) -> bool {
        match op {
            CellOp::Init(_) => !(self is Held),
            CellOp::Leave(_) => self is Held,
            _ => true,
        }
    }

    /// The cell after the call.
    pub open spec fn after(self, op: CellOp<P>) -> CellView<P> {
        match op {
            CellOp::Init(port) => self.installed(port),
            CellOp::Enter => self.entered(),
            CellOp::Leave(port) => CellView::Ready(port),
            CellOp::Consume => self.consumed(),
        }
    }
}

/// Every call of the history `ops` may be made in the state it finds.
pub open spec fn lawful<P>(cell: CellView<P>, ops: Seq<CellOp<P>>) -> bool
    decreases ops.len(),
{
    ops.len() == 0 || (cell.admits(ops[0]) && lawful(cell.after(ops[0]), ops.drop_first()))
}

/// The cell after the history `ops`.
pub open spec fn after_all<P>(cell: CellView<P>, ops: Seq<CellOp<P>>) -> CellView<P>
    decreases ops.len(),
{
    if ops.len() == 0 {
        cell
    } else {
        after_all(cell.after(ops[0]), ops.drop_first())
    }
}

/// The number of contexts inside a locked block after the history `ops`,
/// counted from the calls: one more for each entry that got the port, one
/// less for each block that was left, none once the cell is consumed.
pub open spec fn holders<P>(cell: CellView<P>, ops: Seq<CellOp<P>>, so_far: int) -> int
    decreases ops.len(),
{
    if ops.len() == 0 {
        so_far
    } else {
        let now = match ops[0] {
            CellOp::Enter => if cell is Ready {
                so_far + 1
            } else {
                so_far
            },
            CellOp::Leave(_) => so_far - 1,
            CellOp::Consume => 0,
            CellOp::Init(_) => so_far,
        };
        holders(cell.after(ops[0]), ops.drop_first(), now)
    }
}

/// At every instant at most one context is inside a locked block, and the
/// cell is held exactly while one is. `so_far` is the number of contexts
/// inside a block when the history starts.
pub proof fn at_most_one_holder<P>(cell: CellView<P>, ops: Seq<CellOp<P>>, so_far: int)
    requires
        lawful(cell, ops),
        so_far == (if cell is Held { 1int } else { 0int }),
    ensures
        0 <= holders(cell, ops, so_far) <= 1,
        holders(cell, ops, so_far) == 1 <==> after_all(cell, ops) is Held,
    decreases ops.len(),
{
    if ops.len() > 0 {
        let next = cell.after(ops[0]);
        at_most_one_holder(next, ops.drop_first(), if next is Held { 1int } else { 0int });
    }
}

/// Once the cell is consumed no history brings a port back into it.
pub proof fn consumed_for_good<P>(ops: Seq<CellOp<P>>)
    requires
        lawful(CellView::<P>::Consumed, ops),
    ensures
        after_all(CellView::<P>::Consumed, ops) == CellView::<P>::Consumed,
    decreases ops.len(),
{
    if ops.len() > 0 {
        consumed_for_good(ops.drop_first());
    }
}

} // verus!
