//! The queue that carries updates from the background jobs to the window.
use vstd::prelude::*;

use crate::client::Update;

verus! {

/// Updates in the order they were sent, waiting for the window to take them.
pub struct UpdateQueue {
    items: Vec<Update>,
}

impl View for UpdateQueue {
    type V = Seq<Update>;

    closed spec fn view(&self) -> Seq<Update> {
        self.items@
    }
}

/// What a drain of a queue holding `q` hands out: all of it, oldest first.
pub open spec fn drain_taken(q: Seq<Update>) -> Seq<Update> {
    q
}

/// What a queue holds after a drain: nothing.
pub open spec fn drain_left(q: Seq<Update>) -> Seq<Update> {
    Seq::empty()
}

impl UpdateQueue {
    pub fn new() -> (r: UpdateQueue)
        ensures
            r@ == Seq::<Update>::empty(),
    {
        UpdateQueue { items: Vec::new() }
    }

    /// Adds an update behind all that are waiting.
    pub fn push(&mut self, update: Update)
        ensures
            final(self)@ == old(self)@.push(update),
    {
        self.items.push(update);
    }

    pub fn len(&self) -> (r: usize)
        ensures
            r == self@.len(),
    {
        self.items.len()
    }

    pub fn is_empty(&self) -> (r: bool)
        ensures
            r <==> self@.len() == 0,
    {
        self.items.len() == 0
    }

    /// Takes every waiting update, oldest first, without waiting for more.
    pub fn drain(&mut self) -> (r: Vec<Update>)
        ensures
            r@ == drain_taken(old(self)@),
            final(self)@ == drain_left(old(self)@),
    {
        let mut taken: Vec<Update> = Vec::new();
        std::mem::swap(&mut taken, &mut self.items);
        taken
    }
}

/// Draining is idempotent: a drain right after a drain, with nothing sent in
/// between, hands out nothing and leaves the queue empty.
pub proof fn lemma_drain_twice(q: Seq<Update>)
    ensures
        drain_taken(drain_left(q)) == Seq::<Update>::empty(),
        drain_left(drain_left(q)) == drain_left(q),
{
}

} // verus!
