//! The queue between request producers and the playback worker: pending
//! commands in submission order, finished responses, and the task id counter.

use crate::common::{CommandResponse, SpotifyCommand, TaskID};
use std::collections::VecDeque;
use vstd::prelude::*;

verus! {

/// The pending commands once `c` has been submitted.
pub open spec fn after_queue(pending: Seq<SpotifyCommand>, c: SpotifyCommand) -> Seq<
    SpotifyCommand,
> {
    pending.push(c)
}

/// The command that the worker takes next: the oldest one.
pub open spec fn next_command(pending: Seq<SpotifyCommand>) -> Option<SpotifyCommand> {
    if pending.len() == 0 {
        None
    } else {
        Some(pending[0])
    }
}

/// The pending commands once the worker has taken one.
pub open spec fn after_pop(pending: Seq<SpotifyCommand>) -> Seq<SpotifyCommand> {
    if pending.len() == 0 {
        pending
    } else {
        pending.drop_first()
    }
}

/// Whether `i` is the place of the oldest response that answers `tid`.
pub open spec fn is_first_response(rs: Seq<CommandResponse>, tid: TaskID, i: int) -> bool {
    &&& 0 <= i < rs.len()
    &&& rs[i].tid == tid
    &&& forall|j: int| 0 <= j < i ==> (#[trigger] rs[j]).tid != tid
}

/// Whether some response answers `tid`.
pub open spec fn has_response(rs: Seq<CommandResponse>, tid: TaskID) -> bool {
    exists|i: int| 0 <= i < rs.len() && (#[trigger] rs[i]).tid == tid
}

/// The place of the oldest response that answers `tid`, where there is one.
pub open spec fn first_response(rs: Seq<CommandResponse>, tid: TaskID) -> int {
    choose|i: int| is_first_response(rs, tid, i)
}

/// What a producer that asks for the answer to `tid` gets.
pub open spec fn taken(rs: Seq<CommandResponse>, tid: TaskID) -> Option<CommandResponse> {
    if has_response(rs, tid) {
        Some(rs[first_response(rs, tid)])
    } else {
        None
    }
}

/// The responses that stay once a producer has asked for the answer to `tid`.
pub open spec fn after_wait(rs: Seq<CommandResponse>, tid: TaskID) -> Seq<CommandResponse> {
    if has_response(rs, tid) {
        rs.remove(first_response(rs, tid))
    } else {
        rs
    }
}

/// Only one place can be that of the oldest response to `tid`.
pub proof fn lemma_first_response_is(rs: Seq<CommandResponse>, tid: TaskID, i: int)
    requires
        is_first_response(rs, tid, i),
    ensures
        has_response(rs, tid),
        first_response(rs, tid) == i,
{
    let k = first_response(rs, tid);
    assert(is_first_response(rs, tid, k));
    if k < i {
        assert(rs[k].tid != tid);
    } else if i < k {
        assert(rs[i].tid != tid);
    }
}

proof fn lemma_least_response(rs: Seq<CommandResponse>, tid: TaskID, w: int) -> (i: int)
    requires
        0 <= w < rs.len(),
        rs[w].tid == tid,
    ensures
        is_first_response(rs, tid, i),
    decreases w,
{
    if exists|j: int| 0 <= j < w && (#[trigger] rs[j]).tid == tid {
        let j = choose|j: int| 0 <= j < w && (#[trigger] rs[j]).tid == tid;
        lemma_least_response(rs, tid, j)
    } else {
        w
    }
}

/// Where some response answers `tid`, one of them is the oldest.
pub proof fn lemma_first_response_exists(rs: Seq<CommandResponse>, tid: TaskID)
    requires
        has_response(rs, tid),
    ensures
        is_first_response(rs, tid, first_response(rs, tid)),
{
    let w = choose|i: int| 0 <= i < rs.len() && (#[trigger] rs[i]).tid == tid;
    let i = lemma_least_response(rs, tid, w);
}

/// Whether an allocation on a counter that stands at `before` returns `tid`
/// and leaves the counter at `after`.
pub open spec fn issues(before: u64, tid: TaskID, after: u64) -> bool {
    tid.id == before + 1 && after == tid.id
}

/// The pending commands once each of `cs` has been submitted, in order.
pub open spec fn after_queue_all(pending: Seq<SpotifyCommand>, cs: Seq<SpotifyCommand>) -> Seq<
    SpotifyCommand,
>
    decreases cs.len(),
{
    if cs.len() == 0 {
        pending
    } else {
        after_queue(after_queue_all(pending, cs.drop_last()), cs.last())
    }
}

/// The pending commands once the worker has taken `n` times.
pub open spec fn after_pops(pending: Seq<SpotifyCommand>, n: nat) -> Seq<SpotifyCommand>
    decreases n,
{
    if n == 0 {
        pending
    } else {
        after_pop(after_pops(pending, (n - 1) as nat))
    }
}

proof fn lemma_after_queue_all(pending: Seq<SpotifyCommand>, cs: Seq<SpotifyCommand>)
    ensures
        after_queue_all(pending, cs) == pending + cs,
    decreases cs.len(),
{
    if cs.len() > 0 {
        lemma_after_queue_all(pending, cs.drop_last());
        assert((pending + cs.drop_last()).push(cs.last()) == pending + cs);
    } else {
        assert(pending + cs == pending);
    }
}

proof fn lemma_after_pops(pending: Seq<SpotifyCommand>, n: nat)
    ensures
        n <= pending.len() ==> after_pops(pending, n) == pending.skip(n as int),
        n > pending.len() ==> after_pops(pending, n) == Seq::<SpotifyCommand>::empty(),
    decreases n,
{
    if n > 0 {
        lemma_after_pops(pending, (n - 1) as nat);
        if n <= pending.len() {
            assert(pending.skip(n - 1).drop_first() == pending.skip(n as int));
        }
        if n == pending.len() {
            assert(pending.skip(n as int) == Seq::<SpotifyCommand>::empty());
        }
    } else {
        assert(pending.skip(0) == pending);
    }
}

/// Task ids handed out one after another are strictly increasing, and so
/// pairwise distinct: `counters` holds the counter before each allocation and
/// after the last, `ids` what each allocation returned.
pub proof fn lemma_task_ids_increase(counters: Seq<u64>, ids: Seq<TaskID>, i: int, j: int)
    requires
        counters.len() == ids.len() + 1,
        forall|k: int| 0 <= k < ids.len() ==> issues(counters[k], #[trigger] ids[k], counters[k + 1]),
        0 <= i < j < ids.len(),
    ensures
        ids[i].id < ids[j].id,
    decreases j - i,
{
    assert(issues(counters[j - 1], ids[j - 1], counters[j - 1 + 1]));
    assert(issues(counters[j], ids[j], counters[j + 1]));
    if i < j - 1 {
        lemma_task_ids_increase(counters, ids, i, j - 1);
    }
}

/// Commands come out in the order in which they went in: after `cs` have been
/// submitted to an empty queue, the worker's take number `k` (from 0) returns
/// `cs[k]`, and the take after the last finds nothing.
pub proof fn lemma_fifo_order(cs: Seq<SpotifyCommand>, k: nat)
    ensures
        k < cs.len() ==> next_command(
            after_pops(after_queue_all(Seq::<SpotifyCommand>::empty(), cs), k),
        ) == Some(cs[k as int]),
        k >= cs.len() ==> next_command(
            after_pops(after_queue_all(Seq::<SpotifyCommand>::empty(), cs), k),
        ) is None,
{
    let filled = after_queue_all(Seq::<SpotifyCommand>::empty(), cs);
    lemma_after_queue_all(Seq::<SpotifyCommand>::empty(), cs);
    assert(Seq::<SpotifyCommand>::empty() + cs == cs);
    lemma_after_pops(filled, k);
}

/// A published response is delivered once: where nothing yet answers its
/// task, the first producer that asks for it gets it, the responses are then
/// as they were before it was published, and whoever asks again gets nothing.
pub proof fn lemma_response_delivered_once(rs: Seq<CommandResponse>, r: CommandResponse)
    requires
        !has_response(rs, r.tid),
    ensures
        taken(rs.push(r), r.tid) == Some(r),
        after_wait(rs.push(r), r.tid) == rs,
        taken(after_wait(rs.push(r), r.tid), r.tid) is None,
{
    let published = rs.push(r);
    assert(is_first_response(published, r.tid, rs.len() as int)) by {
        assert forall|j: int| 0 <= j < rs.len() implies (#[trigger] published[j]).tid != r.tid by {
            assert(published[j] == rs[j]);
        }
    }
    lemma_first_response_is(published, r.tid, rs.len() as int);
    assert(published.remove(rs.len() as int) == rs);
}

/// Asking for the answer to a task leaves the answers to every other task in
/// place.
pub proof fn lemma_wait_keeps_others(rs: Seq<CommandResponse>, tid: TaskID, other: TaskID)
    requires
        other != tid,
    ensures
        taken(after_wait(rs, tid), other) == taken(rs, other),
{
    if has_response(rs, tid) {
        let at = first_response(rs, tid);
        lemma_first_response_exists(rs, tid);
        let rest = rs.remove(at);
        if has_response(rs, other) {
            let o = first_response(rs, other);
            lemma_first_response_exists(rs, other);
            let o2 = if o < at { o } else { o - 1 };
            assert(is_first_response(rest, other, o2)) by {
                assert forall|j: int| 0 <= j < o2 implies (#[trigger] rest[j]).tid != other by {
                    if j < at {
                        assert(rest[j] == rs[j]);
                    } else {
                        assert(rest[j] == rs[j + 1]);
                    }
                }
            }
            lemma_first_response_is(rest, other, o2);
        } else {
            assert forall|j: int| 0 <= j < rest.len() implies (#[trigger] rest[j]).tid != other by {
                if j < at {
                    assert(rest[j] == rs[j]);
                } else {
                    assert(rest[j] == rs[j + 1]);
                }
            }
        }
    }
}

#[derive(Debug)]
pub struct TaskQueue {
    queue: VecDeque<SpotifyCommand>,
    responses: VecDeque<CommandResponse>,
    last_task_id: u64,
}

impl Default for TaskQueue {
    fn default() -> (q: TaskQueue)
        ensures
            q.pending() == Seq::<SpotifyCommand>::empty(),
            q.responses() == Seq::<CommandResponse>::empty(),
            q.issued() == 0,
    {
        TaskQueue::new()
    }
}

impl TaskQueue {
    /// The commands that wait for the worker, oldest first.
    pub closed spec fn pending(&self) -> Seq<SpotifyCommand> {
        self.queue@
    }

    /// The responses that wait for their producers, oldest first.
    pub closed spec fn responses(&self) -> Seq<CommandResponse> {
        self.responses@
    }

    /// The task id that was handed out last; 0 before the first.
    pub closed spec fn issued(&self) -> u64 {
        self.last_task_id
    }

    pub fn new() -> (q: TaskQueue)
        ensures
            q.pending() == Seq::<SpotifyCommand>::empty(),
            q.responses() == Seq::<CommandResponse>::empty(),
            q.issued() == 0,
    {
        TaskQueue { queue: VecDeque::new(), responses: VecDeque::new(), last_task_id: 0 }
    }

    /// The task id that was handed out last; 0 before the first.
    #[verifier::when_used_as_spec(issued)]
    pub fn last_task_id(&self) -> (id: u64)
        ensures
            id == self.issued(),
    {
        self.last_task_id
    }

    /// How many commands wait for the worker.
    pub fn len(&self) -> (n: usize)
        ensures
            n == self.pending().len(),
    {
        self.queue.len()
    }

    /// Hands out a task id that no earlier call has returned.
    pub fn get_task_id(&mut self) -> (tid: TaskID)
        requires
            old(self).issued() < u64::MAX,
        ensures
            issues(old(self).issued(), tid, final(self).issued()),
            final(self).pending() == old(self).pending(),
            final(self).responses() == old(self).responses(),
    {
        self.last_task_id += 1;
        TaskID { id: self.last_task_id }
    }

    /// Submits a command: it goes behind all that were submitted before.
    pub fn queue(&mut self, c: SpotifyCommand)
        ensures
            final(self).pending() == after_queue(old(self).pending(), c),
            final(self).responses() == old(self).responses(),
            final(self).issued() == old(self).issued(),
    {
        self.queue.push_back(c);
    }

    /// Takes the response to `task_id` out of the queue, if it is there. With
    /// several responses to one task, the oldest is taken.
    pub fn wait(&mut self, task_id: TaskID) -> (found: Option<CommandResponse>)
        ensures
            found == taken(old(self).responses(), task_id),
            final(self).responses() == after_wait(old(self).responses(), task_id),
            final(self).pending() == old(self).pending(),
            final(self).issued() == old(self).issued(),
    {
        let n = self.responses.len();
        let mut i: usize = 0;
        while i < n
            invariant
                n == self.responses@.len(),
                i <= n,
                *self == *old(self),
                forall|j: int| 0 <= j < i ==> (#[trigger] self.responses@[j]).tid != task_id,
            decreases n - i,
        {
            if self.responses[i].tid == task_id {
                proof {
                    lemma_first_response_is(self.responses@, task_id, i as int);
                }
                return self.responses.remove(i);
            }
            i += 1;
        }
        None
    }

    /// Publishes a response: it goes behind all that were published before.
    pub fn respond(&mut self, value: CommandResponse)
        ensures
            final(self).responses() == old(self).responses().push(value),
            final(self).pending() == old(self).pending(),
            final(self).issued() == old(self).issued(),
    {
        self.responses.push_back(value)
    }

    /// Takes the oldest pending command, if there is one.
    pub fn pop(&mut self) -> (c: Option<SpotifyCommand>)
        ensures
            c == next_command(old(self).pending()),
            final(self).pending() == after_pop(old(self).pending()),
            final(self).responses() == old(self).responses(),
            final(self).issued() == old(self).issued(),
    {
        self.queue.pop_front()
    }
}

} // verus!
