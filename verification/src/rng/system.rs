//! What holds of the entropy driver when its operations run concurrently.
//!
//! A [`System`] is the driver with any number of operations under way, together with its
//! virtqueue. It moves by the steps of its operations, in any order, and by what the core and
//! the device do in between.
use vstd::prelude::*;

use crate::rng::inner::{RngState, DATA_BUF_SIZE};
use crate::rng::task::{
    expects, min, next_state, outcome, Action, Call, Env, Op, Pc, Reply, Task,
};

verus! {

/// An operation that is under way.
pub ghost struct Thread {
    pub task: Task,
    /// What the core did when the operation asked for the buffer to be added to the virtqueue:
    /// whether it accepted the buffer. None as long as it has not done anything.
    pub added: Option<bool>,
}

/// The driver, its operations and its virtqueue.
pub ghost struct System {
    pub env: Env,
    pub state: RngState,
    pub threads: Seq<Thread>,
    /// The number of buffers that the virtqueue holds.
    pub queued: nat,
    /// How many bytes of the buffer the device has filled, by what it reported when the callback
    /// last accounted for it.
    pub filled: nat,
}

/// A move of the system.
pub ghost enum Move<'a> {
    /// An operation starts.
    Start { task: Task },
    /// The operation `i` makes a step. The destination of a read takes `room` bytes.
    Run { i: int, room: nat, reply: Reply<'a> },
    /// The core adds the buffer to the virtqueue for the operation `i`, or refuses to.
    Add { i: int, accepted: bool },
    /// The device has used a buffer and written `len` bytes. The callback takes the buffer from
    /// the virtqueue and starts.
    Use { len: u32 },
}

impl Thread {
    /// The operation has claimed the buffer and has neither passed it on nor released it.
    pub open spec fn holds(self) -> bool {
        match self.task.pc {
            Pc::RequestCheck
            | Pc::RequestReset
            | Pc::CallbackAvail { .. }
            | Pc::CallbackRelease => true,
            Pc::RequestAdded => self.added != Some(true),
            _ => false,
        }
    }

    /// The operation is in the middle of a copy.
    pub open spec fn copies(self) -> bool {
        self.task.pc is CopyFetch || self.task.pc is CopyCommit
    }

    /// The operation is about to add the buffer to the virtqueue.
    pub open spec fn adding(self) -> bool {
        self.task.pc is RequestAdded && self.added is None
    }
}

impl System {
    /// No operation is under way, and the device has not been asked for anything.
    pub open spec fn init(self) -> bool {
        &&& self.state == RngState { data_idx: 0, data_avail: 0, removed: false, in_flight: false }
        &&& self.threads.len() == 0
        &&& self.queued == 0
        &&& self.filled == 0
    }

    /// Whether the system can make a move.
    pub open spec fn enabled(self, step: Move<'_>) -> bool {
        match step {
            Move::Start { task } => {
                ||| task.op is Read && task.pc is ReadEntry
                ||| task.op is Init && task.pc is RequestClaim
                ||| task.op is Remove && task.pc is RemoveMark
            },
            Move::Run { i, room, reply } => {
                &&& 0 <= i < self.threads.len()
                &&& expects(self.threads[i].task.pc, reply)
                &&& self.threads[i].task.pc is RequestAdded ==> self.threads[i].added == Some(
                    reply->Added_0 is Ok,
                )
            },
            Move::Add { i, accepted } => 0 <= i < self.threads.len() && self.threads[i].adding(),
            Move::Use { len } => self.queued > 0,
        }
    }

    /// The system after a move.
    pub open spec fn after(self, step: Move<'_>) -> System {
        match step {
            Move::Start { task } => System {
                threads: self.threads.push(Thread { task, added: None }),
                ..self
            },
            Move::Run { i, room, reply } => {
                let task = self.threads[i].task;
                let next = outcome(task.op, task.pc, self.env, self.state, room, reply);
                System {
                    state: next_state(task.pc, self.state, reply),
                    threads: self.threads.update(
                        i,
                        Thread { task: Task { op: task.op, pc: next.0 }, added: None },
                    ),
                    filled: match task.pc {
                        Pc::CallbackAvail { len } => min(len as nat, DATA_BUF_SIZE as nat),
                        _ => self.filled,
                    },
                    ..self
                }
            },
            Move::Add { i, accepted } => System {
                threads: self.threads.update(
                    i,
                    Thread { task: self.threads[i].task, added: Some(accepted) },
                ),
                queued: if accepted {
                    self.queued + 1
                } else {
                    self.queued
                },
                ..self
            },
            Move::Use { len } => System {
                threads: self.threads.push(
                    Thread {
                        task: Task { op: Op::Callback, pc: Pc::CallbackAvail { len } },
                        added: None,
                    },
                ),
                queued: (self.queued - 1) as nat,
                ..self
            },
        }
    }

    /// The system after some moves.
    pub open spec fn run(self, steps: Seq<Move<'_>>) -> System
        decreases steps.len(),
    {
        if steps.len() == 0 {
            self
        } else {
            self.run(steps.drop_last()).after(steps.last())
        }
    }

    /// Whether the system can make some moves, one after the other.
    pub open spec fn possible(self, steps: Seq<Move<'_>>) -> bool
        decreases steps.len(),
    {
        steps.len() == 0 || (self.possible(steps.drop_last()) && self.run(
            steps.drop_last(),
        ).enabled(steps.last()))
    }

    /// The buffer is with the virtqueue or with one operation, never with two of these, and it
    /// counts as in flight whenever it is with one.
    pub open spec fn exclusive(self) -> bool {
        &&& self.queued <= 1
        &&& self.queued == 1 ==> self.state.in_flight
        &&& forall|i: int|
            0 <= i < self.threads.len() && #[trigger] self.threads[i].holds()
                ==> self.state.in_flight && self.queued == 0
        &&& forall|i: int, j: int|
            0 <= i < j < self.threads.len() ==> !(#[trigger] self.threads[i].holds()
                && #[trigger] self.threads[j].holds())
    }

    /// A move under which no two copies overlap, and under which no request claims the buffer
    /// while there is data in it.
    pub open spec fn serial(self, step: Move<'_>) -> bool {
        match step {
            Move::Run { i, room, reply } => {
                &&& self.threads[i].task.pc is CopyEntry && self.state.data_avail > 0
                    ==> forall|j: int|
                    0 <= j < self.threads.len() ==> !#[trigger] self.threads[j].copies()
                &&& self.threads[i].task.pc is RequestClaim ==> self.state.in_flight
                    || self.state.data_avail == 0
            },
            _ => true,
        }
    }

    /// Whether all of some moves are such moves.
    pub open spec fn all_serial(self, steps: Seq<Move<'_>>) -> bool
        decreases steps.len(),
    {
        steps.len() == 0 || (self.all_serial(steps.drop_last()) && self.run(
            steps.drop_last(),
        ).serial(steps.last()))
    }
}

proof fn lemma_exclusive_step(s: System, step: Move<'_>)
    requires
        s.exclusive(),
        s.enabled(step),
    ensures
        s.after(step).exclusive(),
{
    let t = s.after(step);
    match step {
        Move::Run { i: k, room, reply } => {
            // The state leaves flight only by a step of the one operation that holds the buffer.
            assert(s.state.in_flight && !t.state.in_flight ==> s.threads[k].holds());
            assert(t.threads[k].holds() ==> s.threads[k].holds() || !s.state.in_flight);
            assert(s.threads[k].holds() ==> s.state.in_flight && s.queued == 0);
            assert(t.threads[k].holds() ==> t.state.in_flight);
            assert(t.threads[k].holds() ==> t.queued == 0);
            assert forall|i: int|
                0 <= i < t.threads.len() && i != k && #[trigger] t.threads[i].holds() implies
                !s.threads[k].holds() && !t.threads[k].holds() && t.state.in_flight && t.queued
                == 0 by {
                assert(t.threads[i] == s.threads[i]);
                assert(s.threads[i].holds());
            }
        },
        Move::Add { i: k, accepted } => {
            assert(s.threads[k].holds());
            assert forall|i: int| 0 <= i < t.threads.len() && i != k implies !(
            #[trigger] t.threads[i].holds()) by {
                assert(t.threads[i] == s.threads[i]);
            }
        },
        Move::Start { task } => {
            assert forall|i: int|
                0 <= i < t.threads.len() && #[trigger] t.threads[i].holds() implies i
                < s.threads.len() && s.threads[i].holds() by {}
        },
        Move::Use { len } => {
            assert forall|i: int| 0 <= i < s.threads.len() implies !(
            #[trigger] t.threads[i].holds()) by {
                assert(t.threads[i] == s.threads[i]);
            }
        },
    }
}

/// Whatever the order in which operations proceed, at most one buffer is in the virtqueue, and a
/// buffer is added only while there is none.
pub proof fn law_one_buffer_in_flight(s: System, steps: Seq<Move<'_>>)
    requires
        s.init(),
        s.possible(steps),
    ensures
        s.run(steps).exclusive(),
        s.run(steps).queued <= 1,
        forall|i: int|
            0 <= i < s.run(steps).threads.len() && #[trigger] s.run(steps).threads[i].adding()
                ==> s.run(steps).queued == 0,
    decreases steps.len(),
{
    if steps.len() > 0 {
        law_one_buffer_in_flight(s, steps.drop_last());
        lemma_exclusive_step(s.run(steps.drop_last()), steps.last());
    }
    let t = s.run(steps);
    assert forall|i: int| 0 <= i < t.threads.len() && #[trigger] t.threads[i].adding() implies
        t.queued == 0 by {
        assert(t.threads[i].holds());
    }
}

impl Thread {
    /// The operation holds the buffer, and the data of the device has not been accounted for.
    pub open spec fn awaits_data(self) -> bool {
        self.holds() && self.task.pc !is CallbackRelease
    }

    /// The operation holds the buffer after the position was reset.
    pub open spec fn is_reset(self) -> bool {
        self.holds() && (self.task.pc is RequestAdded || self.task.pc is CallbackAvail)
    }

    /// A copy takes its bytes from within the `filled` part of the buffer, and leaves the position
    /// such that the bytes behind it are within that part too.
    pub open spec fn in_bounds(self, state: RngState, filled: nat) -> bool {
        match self.task.pc {
            Pc::CopyFetch { avail, size, .. } => {
                &&& size <= avail
                &&& 0 < avail
                &&& state.data_idx + avail <= filled
                &&& state.data_avail == avail || (state.data_avail == 0 && state.removed)
            },
            Pc::CopyCommit { avail, size } => {
                &&& size <= avail
                &&& 0 < avail
                &&& state.data_idx + (avail - size) <= filled
                &&& state.data_avail == avail || (state.data_avail == 0 && state.removed)
            },
            _ => true,
        }
    }
}

impl System {
    /// What holds of every operation.
    pub open spec fn threads_bounded(self) -> bool {
        &&& forall|i: int|
            #![trigger self.threads[i]]
            0 <= i < self.threads.len() ==> {
                &&& self.threads[i].task.pc is RemoveAvail ==> self.state.removed
                &&& self.threads[i].in_bounds(self.state, self.filled)
                &&& self.threads[i].awaits_data() ==> self.state.data_avail == 0
                &&& self.threads[i].is_reset() ==> self.state.data_idx == 0
                &&& self.threads[i].copies() ==> self.queued == 0
            }
        &&& forall|i: int, j: int|
            #![trigger self.threads[i], self.threads[j]]
            0 <= i < self.threads.len() && 0 <= j < self.threads.len() && i != j ==> {
                &&& !(self.threads[i].copies() && self.threads[j].copies())
                &&& self.threads[i].copies() && self.threads[j].awaits_data()
                    ==> self.state.removed && self.threads[j].task.pc is RequestCheck
            }
    }

    /// The data that is available lies within the filled part of the buffer, except in the middle
    /// of a copy.
    pub open spec fn data_bounded(self) -> bool {
        &&& self.filled <= DATA_BUF_SIZE
        &&& self.state.data_idx <= self.filled
        &&& self.state.data_avail <= DATA_BUF_SIZE
        &&& self.queued > 0 ==> self.state.data_avail == 0 && self.state.data_idx == 0
        &&& (forall|i: int|
            0 <= i < self.threads.len() ==> (#[trigger] self.threads[i]).task.pc !is CopyCommit)
            ==> self.state.data_avail == 0 || self.state.data_idx + self.state.data_avail
            <= self.filled
    }
}

proof fn lemma_bounded_start(s: System, task: Task)
    requires
        s.threads_bounded(),
        s.data_bounded(),
        s.enabled(Move::Start { task }),
    ensures
        s.after(Move::Start { task }).threads_bounded(),
        s.after(Move::Start { task }).data_bounded(),
{
    let t = s.after(Move::Start { task });
    assert forall|i: int| 0 <= i < s.threads.len() implies #[trigger] s.threads[i]
        == t.threads[i] by {}
}

proof fn lemma_bounded_add(s: System, k: int, accepted: bool)
    requires
        s.exclusive(),
        s.threads_bounded(),
        s.data_bounded(),
        s.enabled(Move::Add { i: k, accepted }),
    ensures
        s.after(Move::Add { i: k, accepted }).threads_bounded(),
        s.after(Move::Add { i: k, accepted }).data_bounded(),
{
    let t = s.after(Move::Add { i: k, accepted });
    assert(s.threads[k].holds());
    assert forall|i: int| 0 <= i < t.threads.len() && i != k implies {
        &&& #[trigger] t.threads[i] == s.threads[i]
        &&& !s.threads[i].copies()
    } by {}
}

proof fn lemma_bounded_use(s: System, len: u32)
    requires
        s.exclusive(),
        s.threads_bounded(),
        s.data_bounded(),
        s.enabled(Move::Use { len }),
    ensures
        s.after(Move::Use { len }).threads_bounded(),
        s.after(Move::Use { len }).data_bounded(),
{
    let t = s.after(Move::Use { len });
    assert forall|i: int| 0 <= i < s.threads.len() implies {
        &&& #[trigger] t.threads[i] == s.threads[i]
        &&& !s.threads[i].copies()
    } by {}
}

proof fn lemma_bounded_run(s: System, k: int, room: nat, reply: Reply<'_>)
    requires
        s.exclusive(),
        s.threads_bounded(),
        s.data_bounded(),
        s.enabled(Move::Run { i: k, room, reply }),
        s.serial(Move::Run { i: k, room, reply }),
    ensures
        s.after(Move::Run { i: k, room, reply }).threads_bounded(),
        s.after(Move::Run { i: k, room, reply }).data_bounded(),
{
    let t = s.after(Move::Run { i: k, room, reply });
    let a = s.threads[k];
    let b = t.threads[k];
    assert forall|i: int| 0 <= i < t.threads.len() && i != k implies {
        &&& #[trigger] t.threads[i] == s.threads[i]
        &&& !(a.copies() && s.threads[i].copies())
        &&& a.copies() && s.threads[i].awaits_data() ==> s.threads[i].task.pc is RequestCheck
        &&& s.threads[i].copies() && a.awaits_data() ==> a.task.pc is RequestCheck
        &&& s.threads[i].copies() && a.awaits_data() ==> s.state.removed
        &&& !(a.holds() && s.threads[i].holds())
    } by {
        if s.threads[k].holds() && s.threads[i].holds() {
            if i < k {
                assert(!(s.threads[i].holds() && s.threads[k].holds()));
            } else {
                assert(!(s.threads[k].holds() && s.threads[i].holds()));
            }
        }
    }
    assert forall|i: int| 0 <= i < s.threads.len() && i != k implies #[trigger] s.threads[i]
        == t.threads[i] by {}
    assert(a.task.pc is CopyFetch ==> b.task.pc is CopyCommit);
    assert(a.in_bounds(s.state, s.filled));
    assert forall|i: int| 0 <= i < t.threads.len() && i != k implies {
        &&& (#[trigger] t.threads[i]).in_bounds(t.state, t.filled)
        &&& t.threads[i].awaits_data() ==> t.state.data_avail == 0
        &&& t.threads[i].is_reset() ==> t.state.data_idx == 0
        &&& !(t.threads[i].copies() && b.copies())
        &&& t.threads[i].copies() && b.awaits_data() ==> t.state.removed
            && b.task.pc is RequestCheck
        &&& b.copies() && t.threads[i].awaits_data() ==> t.state.removed
            && t.threads[i].task.pc is RequestCheck
    } by {
        assert(s.threads[i].in_bounds(s.state, s.filled));
        assert(s.threads[i].copies() ==> t.threads[i].copies());
    }
}

/// What holds of the system after moves under which no two copies overlap and no request claims
/// the buffer while there is data in it.
proof fn lemma_bounded(s: System, steps: Seq<Move<'_>>)
    requires
        s.init(),
        s.possible(steps),
        s.all_serial(steps),
    ensures
        s.run(steps).threads_bounded(),
        s.run(steps).data_bounded(),
    decreases steps.len(),
{
    if steps.len() > 0 {
        let before = steps.drop_last();
        lemma_bounded(s, before);
        law_one_buffer_in_flight(s, before);
        match steps.last() {
            Move::Start { task } => lemma_bounded_start(s.run(before), task),
            Move::Run { i, room, reply } => lemma_bounded_run(s.run(before), i, room, reply),
            Move::Add { i, accepted } => lemma_bounded_add(s.run(before), i, accepted),
            Move::Use { len } => lemma_bounded_use(s.run(before), len),
        }
    }
}

/// As long as no two copies overlap and no request claims the buffer while there is data in it,
/// every copy reads from within what the device reported that it had written, and so from within
/// the buffer, and the next copy starts where it ended.
pub proof fn law_copies_stay_in_buffer(s: System, steps: Seq<Move<'_>>, i: int, room: nat)
    requires
        s.init(),
        s.possible(steps),
        s.all_serial(steps),
        0 <= i < s.run(steps).threads.len(),
    ensures
        ({
            let t = s.run(steps);
            let task = t.threads[i].task;
            outcome(task.op, task.pc, t.env, t.state, room, Reply::Resume).1 matches Action::Call(
                Call::Fetch { addr, offset, len },
            ) ==> {
                &&& offset + len <= t.filled
                &&& t.filled <= DATA_BUF_SIZE
                &&& next_state(task.pc, t.state, Reply::Resume).data_idx == offset + len
            }
        }),
{
    lemma_bounded(s, steps);
    let t = s.run(steps);
    assert(t.threads[i].in_bounds(t.state, t.filled));
}

/// Under the same conditions the buffer is not read while the device may write to it: no copy is
/// under way while the virtqueue holds the buffer or is about to be given it.
pub proof fn law_no_copy_while_the_device_may_write(s: System, steps: Seq<Move<'_>>, i: int)
    requires
        s.init(),
        s.possible(steps),
        s.all_serial(steps),
        0 <= i < s.run(steps).threads.len(),
        s.run(steps).threads[i].copies(),
    ensures
        s.run(steps).queued == 0,
        forall|j: int|
            0 <= j < s.run(steps).threads.len() ==> !#[trigger] s.run(steps).threads[j].adding(),
{
    lemma_bounded(s, steps);
    let t = s.run(steps);
    assert forall|j: int| 0 <= j < t.threads.len() implies !#[trigger] t.threads[j].adding() by {
        if t.threads[j].adding() {
            assert(t.threads[j].awaits_data());
        }
    }
}

/// The moves before the `n`-th of some moves are possible if all are, and lead to the move.
proof fn lemma_prefix(s: System, steps: Seq<Move<'_>>, n: int)
    requires
        s.possible(steps),
        s.all_serial(steps),
        0 <= n <= steps.len(),
    ensures
        s.possible(steps.take(n)),
        s.all_serial(steps.take(n)),
        n < steps.len() ==> {
            &&& s.run(steps.take(n)).enabled(steps[n])
            &&& s.run(steps.take(n)).serial(steps[n])
            &&& s.run(steps.take(n + 1)) == s.run(steps.take(n)).after(steps[n])
        },
    decreases steps.len(),
{
    if n == steps.len() {
        assert(steps.take(n) =~= steps);
    } else {
        assert(steps.take(n + 1).drop_last() =~= steps.take(n));
        if n + 1 == steps.len() {
            assert(steps.take(n) =~= steps.drop_last());
        }
        lemma_prefix(s, steps.drop_last(), n);
        assert(steps.drop_last().take(n) =~= steps.take(n));
    }
}

/// The position moves only forward, except when it is reset.
proof fn lemma_position_step(s: System, step: Move<'_>)
    requires
        s.threads_bounded(),
        s.data_bounded(),
        s.enabled(step),
        step is Run ==> s.threads[step->Run_i].task.pc !is RequestReset,
    ensures
        s.after(step).state.data_idx >= s.state.data_idx,
        step is Run && s.threads[step->Run_i].task.pc is CopyFetch ==> s.after(step).state.data_idx
            == s.state.data_idx + s.threads[step->Run_i].task.pc->CopyFetch_size,
{
    if step is Run {
        assert(s.threads[step->Run_i].in_bounds(s.state, s.filled));
    }
}

/// What the `k`-th of some moves does to the position.
proof fn lemma_position_move(s: System, steps: Seq<Move<'_>>, k: int)
    requires
        s.init(),
        s.possible(steps),
        s.all_serial(steps),
        0 <= k < steps.len(),
        !s.resets(steps, k),
    ensures
        s.position(steps, k + 1) >= s.position(steps, k) + s.taken(steps, k),
{
    lemma_prefix(s, steps, k);
    lemma_bounded(s, steps.take(k));
    lemma_position_step(s.run(steps.take(k)), steps[k]);
}

impl System {
    /// The position in the buffer after the first `k` of some moves.
    pub open spec fn position(self, steps: Seq<Move<'_>>, k: int) -> nat {
        self.run(steps.take(k)).state.data_idx as nat
    }

    /// Whether the `k`-th of some moves resets the position.
    pub open spec fn resets(self, steps: Seq<Move<'_>>, k: int) -> bool {
        steps[k] is Run && self.run(steps.take(k)).threads[steps[k]->Run_i].task.pc is RequestReset
    }

    /// The number of bytes whose position the `k`-th of some moves takes.
    pub open spec fn taken(self, steps: Seq<Move<'_>>, k: int) -> nat {
        if steps[k] is Run {
            match self.run(steps.take(k)).threads[steps[k]->Run_i].task.pc {
                Pc::CopyFetch { size, .. } => size as nat,
                _ => 0,
            }
        } else {
            0
        }
    }
}

/// Under the same conditions no byte of the buffer is copied twice: as long as the position is
/// not reset, whatever is copied comes from behind the bytes that were copied before.
pub proof fn law_no_byte_is_copied_twice(s: System, steps: Seq<Move<'_>>, n: int, m: int)
    requires
        s.init(),
        s.possible(steps),
        s.all_serial(steps),
        0 <= n < m <= steps.len(),
        forall|k: int| n <= k < m ==> !#[trigger] s.resets(steps, k),
    ensures
        s.position(steps, m) >= s.position(steps, n) + s.taken(steps, n),
    decreases m,
{
    assert(!s.resets(steps, m - 1));
    lemma_position_move(s, steps, m - 1);
    if n < m - 1 {
        law_no_byte_is_copied_twice(s, steps, n, m - 1);
    }
}

/// A device that has been removed stays removed.
pub proof fn law_removal_is_final(s: System, steps: Seq<Move<'_>>)
    requires
        s.state.removed,
    ensures
        s.run(steps).state.removed,
    decreases steps.len(),
{
    if steps.len() > 0 {
        law_removal_is_final(s, steps.drop_last());
    }
}

} // verus!
