use crate::guest::DisasException;
use crate::ir::op::TrapOp;
use std::collections::VecDeque;
use vstd::prelude::*;

/// Loading a guest ELF program into the guest address space.
pub mod loader;

verus! {

/// Ops generated before the translation flow is interrupted and a new block
/// started; a block may hold a few more, as it ends on an instruction boundary.
pub const DEFAULT_TB_SIZE: usize = 4096;

/// The guest PCs awaiting translation or execution, in order.
pub struct PendingQueue {
    q: VecDeque<usize>,
}

impl View for PendingQueue {
    type V = Seq<usize>;

    closed spec fn view(&self) -> Seq<usize> {
        self.q@
    }
}

/// The queue after a translated block's exit: a direct continuation runs
/// right after the block; known branch targets wait at the back, taken first.
pub open spec fn scheduled(q: Seq<usize>, e: DisasException) -> Seq<usize> {
    match e {
        DisasException::Continue(dest) => seq![q[0], dest] + q.subrange(1, q.len() as int),
        DisasException::Branch(Some(t), Some(n)) => q + seq![t, n],
        DisasException::Branch(Some(x), None) => q + seq![x],
        DisasException::Branch(None, Some(x)) => q + seq![x],
        _ => q,
    }
}

/// What the dispatch loop does after a trap.
#[derive(Debug, PartialEq, Eq)]
pub enum TrapOutcome {
    /// Go on with the queue.
    Resume,
    /// The trap's cause is handled by the backend, and the run ends.
    Fatal(TrapOp),
    /// The cause is not a trap cause.
    BadCause(u64),
}

impl PendingQueue {
    /// A queue holding the entry point.
    pub fn new(entry: usize) -> (r: PendingQueue)
        ensures
            r@ == seq![entry],
    {
        let mut q = VecDeque::new();
        q.push_back(entry);
        PendingQueue { q }
    }

    /// Number of pending PCs.
    pub fn len(&self) -> (r: usize)
        ensures
            r == self@.len(),
    {
        self.q.len()
    }

    /// The PC to run or translate next.
    pub fn front(&self) -> (r: Option<usize>)
        ensures
            self@.len() == 0 ==> r is None,
            self@.len() > 0 ==> r == Some(self@[0]),
    {
        if self.q.len() == 0 {
            None
        } else {
            Some(self.q[0])
        }
    }

    /// Drop the PC at the front, once its block has run.
    pub fn pop_front(&mut self) -> (r: Option<usize>)
        ensures
            old(self)@.len() == 0 ==> r is None && final(self)@ == old(self)@,
            old(self)@.len() > 0 ==> r == Some(old(self)@[0]) && final(self)@ == old(self)@.subrange(
                1,
                old(self)@.len() as int,
            ),
    {
        self.q.pop_front()
    }

    /// Put `pc` right after the front, so that it runs before the rest.
    fn insert_after_front(&mut self, pc: usize)
        requires
            old(self)@.len() > 0,
        ensures
            final(self)@ == seq![old(self)@[0], pc] + old(self)@.subrange(1, old(self)@.len() as int),
    {
        let waiting = self.q.pop_front().unwrap();
        self.q.push_front(pc);
        self.q.push_front(waiting);
        assert(self.q@ =~= seq![old(self)@[0], pc] + old(self)@.subrange(1, old(self)@.len() as int));
    }

    /// Schedule the blocks that follow the exit of the block at the front.
    pub fn schedule(&mut self, e: &DisasException)
        requires
            old(self)@.len() > 0,
        ensures
            final(self)@ == scheduled(old(self)@, *e),
    {
        match e {
            DisasException::Continue(dest) => {
                self.insert_after_front(*dest);
            },
            DisasException::Branch(Some(t), Some(n)) => {
                self.q.push_back(*t);
                self.q.push_back(*n);
                assert(self.q@ =~= old(self)@ + seq![*t, *n]);
            },
            DisasException::Branch(Some(x), None) | DisasException::Branch(None, Some(x)) => {
                self.q.push_back(*x);
                assert(self.q@ =~= old(self)@ + seq![*x]);
            },
            _ => {},
        }
    }

    /// Handle a trap from a running block with `cause` and `val`: a lookup
    /// splices `val` in right after the front, so that it runs before the
    /// rest; other causes end the run.
    pub fn handle_trap(&mut self, cause: u64, val: u64) -> (r: TrapOutcome)
        requires
            old(self)@.len() > 0,
        ensures
            cause == 0 ==> r is Resume && final(self)@ == seq![old(self)@[0], val as usize]
                + old(self)@.subrange(1, old(self)@.len() as int),
            1 <= cause <= 4 ==> (r matches TrapOutcome::Fatal(t) && t.spec_bits() == cause)
                && final(self)@ == old(self)@,
            cause > 4 ==> r == TrapOutcome::BadCause(cause) && final(self)@ == old(self)@,
    {
        match TrapOp::from_bits(cause) {
            Some(TrapOp::LookupTb) => {
                self.insert_after_front(val as usize);
                TrapOutcome::Resume
            },
            Some(t) => TrapOutcome::Fatal(t),
            None => TrapOutcome::BadCause(cause),
        }
    }
}

/// The error that ends the run after a block's exit, if any.
pub fn translation_error(e: &DisasException) -> (r: Option<String>)
    ensures
        r is Some <==> e is Unexpected,
        e matches DisasException::Unexpected(s) ==> r == Some(*s),
{
    match e {
        DisasException::Unexpected(s) => Some(s.clone()),
        _ => None,
    }
}

} // verus!
