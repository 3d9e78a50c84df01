//! The command sequencer: numbers commands as they are issued and hands them
//! to the host first in, first out.

use vstd::prelude::*;
use std::collections::VecDeque;
use crate::protocol::{Command, CommandKind, CommandKindView, CommandView};

verus! {

/// The sequencer as a counter and the commands not yet handed out, oldest
/// first.
pub struct QueueView {
    pub next_id: int,
    pub pending: Seq<CommandView>,
}

impl QueueView {
    /// How many commands have been handed to the host so far.
    pub open spec fn sent(self) -> int {
        self.next_id - self.pending.len()
    }

    /// The pending commands carry the identifiers that follow those already
    /// handed out, one after the other and without a gap.
    pub open spec fn wf(self) -> bool {
        &&& 0 <= self.sent()
        &&& self.next_id <= u64::MAX
        &&& forall|i: int|
            0 <= i < self.pending.len() ==> (#[trigger] self.pending[i]).id == self.sent() + i
    }

    /// The queue after one more command of the given kind is issued.
    pub open spec fn enqueue(self, kind: CommandKindView) -> QueueView {
        QueueView {
            next_id: self.next_id + 1,
            pending: self.pending.push(CommandView { id: self.next_id, kind }),
        }
    }

    /// The queue after several commands are issued in the given order.
    pub open spec fn enqueue_all(self, kinds: Seq<CommandKindView>) -> QueueView
        decreases kinds.len(),
    {
        if kinds.len() == 0 {
            self
        } else {
            self.enqueue_all(kinds.drop_last()).enqueue(kinds.last())
        }
    }

    /// The queue after the host took the oldest pending command, if there
    /// was one.
    pub open spec fn dequeue(self) -> QueueView {
        if self.pending.len() == 0 {
            self
        } else {
            QueueView { next_id: self.next_id, pending: self.pending.drop_first() }
        }
    }

    /// Whether `count` more identifiers can be issued.
    pub open spec fn has_room(self, count: int) -> bool {
        self.next_id + count <= u64::MAX
    }
}

/// Issuing a command keeps the numbering gapless.
pub proof fn lemma_enqueue_wf(q: QueueView, kind: CommandKindView)
    requires
        q.wf(),
        q.has_room(1),
    ensures
        q.enqueue(kind).wf(),
        q.enqueue(kind).sent() == q.sent(),
{
}

/// Handing out a command keeps the numbering gapless.
pub proof fn lemma_dequeue_wf(q: QueueView)
    requires
        q.wf(),
    ensures
        q.dequeue().wf(),
        q.pending.len() > 0 ==> q.dequeue().sent() == q.sent() + 1,
{
}

/// The commands that issuing `kinds` appends when the counter stands at
/// `next_id`.
pub open spec fn numbered(next_id: int, kinds: Seq<CommandKindView>) -> Seq<CommandView> {
    Seq::new(kinds.len(), |i: int| CommandView { id: next_id + i, kind: kinds[i] })
}

/// Issuing several commands appends one command per kind, numbered onward
/// from the counter, and keeps the numbering gapless.
pub proof fn lemma_enqueue_all(q: QueueView, kinds: Seq<CommandKindView>)
    requires
        q.wf(),
        q.has_room(kinds.len() as int),
    ensures
        q.enqueue_all(kinds).wf(),
        q.enqueue_all(kinds).next_id == q.next_id + kinds.len(),
        q.enqueue_all(kinds).sent() == q.sent(),
        q.enqueue_all(kinds).pending == q.pending + numbered(q.next_id, kinds),
    decreases kinds.len(),
{
    if kinds.len() > 0 {
        let front = kinds.drop_last();
        lemma_enqueue_all(q, front);
        lemma_enqueue_wf(q.enqueue_all(front), kinds.last());
        assert(q.enqueue_all(kinds).pending =~= q.pending + numbered(q.next_id, kinds));
    } else {
        assert(q.enqueue_all(kinds).pending =~= q.pending + numbered(q.next_id, kinds));
    }
}

/// The command sequencer.
pub struct Sequencer {
    next_id: u64,
    queue: VecDeque<Command>,
}

impl View for Sequencer {
    type V = QueueView;

    closed spec fn view(&self) -> QueueView {
        QueueView {
            next_id: self.next_id as int,
            pending: self.queue@.map_values(|c: Command| c@),
        }
    }
}

impl Sequencer {
    /// A sequencer that has issued nothing yet.
    pub fn new() -> (fresh: Sequencer)
        ensures
            fresh@ == (QueueView { next_id: 0, pending: Seq::empty() }),
            fresh@.wf(),
    {
        let fresh = Sequencer { next_id: 0, queue: VecDeque::new() };
        assert(fresh@.pending =~= Seq::empty());
        fresh
    }

    /// Issues a command: gives it the next identifier and appends it to the
    /// queue.
    pub fn enqueue(&mut self, kind: CommandKind)
        requires
            old(self)@.wf(),
            old(self)@.has_room(1),
        ensures
            final(self)@ == old(self)@.enqueue(kind@),
            final(self)@.wf(),
    {
        let command = Command { id: self.next_id, kind };
        self.queue.push_back(command);
        self.next_id = self.next_id + 1;
        assert(self@.pending =~= old(self)@.enqueue(kind@).pending);
    }

    /// Hands out the oldest pending command, or nothing when none is
    /// pending.
    pub fn dequeue(&mut self) -> (command: Option<Command>)
        requires
            old(self)@.wf(),
        ensures
            final(self)@ == old(self)@.dequeue(),
            final(self)@.wf(),
            match command {
                Some(c) => old(self)@.pending.len() > 0 && c@ == old(self)@.pending[0] && c.id
                    == old(self)@.sent(),
                None => old(self)@.pending.len() == 0,
            },
    {
        let command = self.queue.pop_front();
        assert(self@.pending =~= old(self)@.dequeue().pending);
        command
    }

    /// How many more identifiers can be issued.
    pub fn room(&self) -> (left: u64)
        ensures
            forall|count: int| self@.has_room(count) <==> count <= left,
    {
        u64::MAX - self.next_id
    }

    /// How many commands are pending.
    pub fn len(&self) -> (count: usize)
        ensures
            count == self@.pending.len(),
    {
        self.queue.len()
    }
}

} // verus!
