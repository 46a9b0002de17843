//! What an operation of the entropy driver does: when nothing else runs at the same time, and when
//! others change the shared words between its steps.
use vstd::prelude::*;

use crate::error::{Error, EIO, ENODEV};
use crate::rng::inner::{Buffer, RngState, VirtioRngInner, DATA_BUF_SIZE};
use crate::rng::task::{
    copy_size, delivered, expects, min, next_state, outcome, settle, Action, Call, Env, Op, Pc,
    Reply, Task,
};
use crate::virtqueue::VirtqueueCall;

verus! {

/// An operation and what it has done so far.
#[verifier::ext_equal]
pub ghost struct Trace {
    /// Where the operation stands.
    pub pc: Pc,
    /// The shared words.
    pub state: RngState,
    /// What the destination of the read takes.
    pub room: nat,
    /// What has been written to the destination of the read.
    pub delivered: Seq<u8>,
    /// What came after each step.
    pub actions: Seq<Action>,
}

impl Trace {
    /// An operation before its first step.
    pub open spec fn start(pc: Pc, state: RngState, room: nat) -> Trace {
        Trace { pc, state, room, delivered: Seq::empty(), actions: Seq::empty() }
    }

    /// One more step of the operation.
    pub open spec fn step(self, op: Op, env: Env, reply: Reply<'_>) -> Trace {
        let next = outcome(op, self.pc, env, self.state, self.room, reply);
        let bytes = delivered(self.pc, reply);
        Trace {
            pc: next.0,
            state: next_state(self.pc, self.state, reply),
            room: (self.room - bytes.len()) as nat,
            delivered: self.delivered + bytes,
            actions: self.actions.push(next.1),
        }
    }
}

/// A request for entropy on an idle device re-arms the completion, adds the buffer to the
/// virtqueue and kicks it, in this order; then the buffer is in flight.
pub proof fn law_request_granted(op: Op, env: Env, state: RngState, room: nat, kicked: bool)
    requires
        !state.in_flight,
        !state.removed,
    ensures
        ({
            let t = Trace::start(Pc::RequestClaim, state, room).step(op, env, Reply::Resume).step(
                op,
                env,
                Reply::Resume,
            ).step(op, env, Reply::Resume).step(op, env, Reply::Added(Ok(()))).step(
                op,
                env,
                Reply::Kicked(kicked),
            );
            &&& t.pc == settle(op, room).0
            &&& t.actions == seq![
                Action::Continue,
                Action::Call(Call::Reinit),
                Action::Call(Call::Add(env.add)),
                Action::Call(Call::Virtqueue(VirtqueueCall::Kick)),
                settle(op, room).1,
            ]
            &&& t.state == RngState { in_flight: true, data_idx: 0, ..state }
            &&& t.delivered == Seq::<u8>::empty()
        }),
{
}

/// A request whose buffer the virtqueue refuses ends with the error of the virtqueue, and another
/// request can be made.
pub proof fn law_request_refused(op: Op, env: Env, state: RngState, room: nat, error: Error)
    requires
        !state.in_flight,
        !state.removed,
    ensures
        ({
            let t = Trace::start(Pc::RequestClaim, state, room).step(op, env, Reply::Resume).step(
                op,
                env,
                Reply::Resume,
            ).step(op, env, Reply::Resume).step(op, env, Reply::Added(Err(error)));
            &&& t.pc is Finished
            &&& t.actions == seq![
                Action::Continue,
                Action::Call(Call::Reinit),
                Action::Call(Call::Add(env.add)),
                Action::Finish(Err(error)),
            ]
            &&& t.state == RngState { in_flight: false, data_idx: 0, ..state }
        }),
{
}

/// A request while the buffer is in flight changes nothing and asks nothing of the core.
pub proof fn law_request_in_flight(op: Op, env: Env, state: RngState, room: nat)
    requires
        state.in_flight,
    ensures
        ({
            let t = Trace::start(Pc::RequestClaim, state, room).step(op, env, Reply::Resume);
            &&& t.pc == settle(op, room).0
            &&& t.actions == seq![settle(op, room).1]
            &&& t.state == state
        }),
{
}

/// A request on a removed device fails, and the device is asked for nothing. The buffer stays
/// claimed; nothing else changes.
pub proof fn law_request_after_removal(op: Op, env: Env, state: RngState, room: nat)
    requires
        state.removed,
        !state.in_flight,
    ensures
        ({
            let t = Trace::start(Pc::RequestClaim, state, room).step(op, env, Reply::Resume).step(
                op,
                env,
                Reply::Resume,
            );
            &&& t.pc is Finished
            &&& t.actions == seq![
                Action::Continue,
                Action::Finish(Err(Error::of_errno(ENODEV))),
            ]
            &&& t.state == RngState { in_flight: true, ..state }
            &&& t.delivered == Seq::<u8>::empty()
        }),
{
}

/// A read of a removed device fails at once, whether or not it may wait, and changes nothing.
pub proof fn law_read_after_removal(can_wait: bool, env: Env, state: RngState, room: nat)
    requires
        state.removed,
    ensures
        ({
            let t = Trace::start(Pc::ReadEntry, state, room).step(
                Op::Read { can_wait },
                env,
                Reply::Resume,
            );
            &&& t.pc is Finished
            &&& t.actions == seq![Action::Finish(Err(Error::of_errno(ENODEV)))]
            &&& t.state == state
            &&& t.delivered == Seq::<u8>::empty()
        }),
{
}

/// A read takes as many of the available bytes as its destination has room for, from the position
/// that the previous read left, and moves the position behind them. If it has taken all that was
/// available it goes on to request more.
pub proof fn law_read_takes_data(
    can_wait: bool,
    env: Env,
    state: RngState,
    room: nat,
    bytes: &[u8],
)
    requires
        !state.removed,
        env.base != 0,
        0 < state.data_avail <= DATA_BUF_SIZE,
        state.data_idx + state.data_avail <= DATA_BUF_SIZE,
        bytes@.len() == copy_size(room, state.data_avail),
    ensures
        ({
            let op = Op::Read { can_wait };
            let size = copy_size(room, state.data_avail);
            let all = size == state.data_avail;
            let t = Trace::start(Pc::ReadEntry, state, room).step(op, env, Reply::Resume).step(
                op,
                env,
                Reply::Resume,
            ).step(op, env, Reply::Resume).step(op, env, Reply::Fetched(bytes));
            &&& size == if room < state.data_avail {
                room
            } else {
                state.data_avail as nat
            }
            &&& t.delivered == bytes@
            &&& t.actions == seq![
                Action::Continue,
                Action::Continue,
                Action::Call(Call::Fetch { addr: env.base, offset: state.data_idx, len: size }),
                if all {
                    Action::Continue
                } else {
                    settle(op, (room - size) as nat).1
                },
            ]
            &&& t.pc == if all {
                Pc::RequestClaim
            } else {
                settle(op, (room - size) as nat).0
            }
            &&& t.state == RngState {
                data_idx: (state.data_idx + size) as u32,
                data_avail: (state.data_avail - size) as u32,
                ..state
            }
        }),
{
    let op = Op::Read { can_wait };
    let t3 = Trace::start(Pc::ReadEntry, state, room).step(op, env, Reply::Resume).step(
        op,
        env,
        Reply::Resume,
    ).step(op, env, Reply::Resume);
    assert(t3.delivered =~= Seq::<u8>::empty());
    assert(t3.step(op, env, Reply::Fetched(bytes)).delivered =~= bytes@);
}

/// A read that finds no data requests entropy.
pub proof fn law_read_without_data(can_wait: bool, env: Env, state: RngState, room: nat)
    requires
        !state.removed,
        state.data_avail == 0,
    ensures
        ({
            let op = Op::Read { can_wait };
            let t = Trace::start(Pc::ReadEntry, state, room).step(op, env, Reply::Resume).step(
                op,
                env,
                Reply::Resume,
            );
            &&& t.pc is RequestClaim
            &&& t.actions == seq![Action::Continue, Action::Continue]
            &&& t.state == state
            &&& t.delivered == Seq::<u8>::empty()
        }),
{
}

/// A read that may not wait never waits.
pub proof fn law_impatient_read_does_not_wait(
    pc: Pc,
    env: Env,
    state: RngState,
    room: nat,
    reply: Reply<'_>,
)
    requires
        expects(pc, reply),
    ensures
        ({
            let next = outcome(Op::Read { can_wait: false }, pc, env, state, room, reply);
            &&& next.1 != Action::Call(Call::Wait)
            &&& next.0 !is Waiting
        }),
{
}

/// A read that may wait succeeds only when its destination is full, or when it was woken and
/// found the device removed or no data.
pub proof fn law_patient_read_fills(
    pc: Pc,
    env: Env,
    state: RngState,
    room: nat,
    reply: Reply<'_>,
)
    requires
        expects(pc, reply),
        pc is ReadEntry || pc is CopyEntry || pc is CopyFetch || pc is CopyCommit
            || pc is RequestClaim || pc is RequestCheck || pc is RequestReset || pc is RequestAdded
            || pc is RequestKicked || pc is Waiting || pc is Woken,
        delivered(pc, reply).len() <= room,
        outcome(Op::Read { can_wait: true }, pc, env, state, room, reply).1 == Action::Finish(
            Ok(()),
        ),
    ensures
        ({
            ||| room == delivered(pc, reply).len()
            ||| pc is Waiting && state.removed
            ||| pc is Woken && state.data_avail == 0
        }),
{
}

/// When the device has written `len` bytes, as many of them as the buffer holds become available
/// and a waiting reader is woken, after the buffer has been released.
pub proof fn law_callback(env: Env, state: RngState, room: nat, len: u32)
    ensures
        ({
            let op = Op::Callback;
            let t = Trace::start(Pc::CallbackAvail { len }, state, room).step(
                op,
                env,
                Reply::Resume,
            ).step(op, env, Reply::Resume).step(op, env, Reply::Resume);
            &&& t.pc is Finished
            &&& t.actions == seq![
                Action::Continue,
                Action::Call(Call::Complete),
                Action::Finish(Ok(())),
            ]
            &&& t.state == RngState {
                data_avail: if len < DATA_BUF_SIZE {
                    len
                } else {
                    DATA_BUF_SIZE as u32
                },
                in_flight: false,
                ..state
            }
        }),
{
}

/// A removal marks the device as removed before it withdraws the data, wakes all readers and
/// unregisters the generator.
pub proof fn law_remove(env: Env, state: RngState, room: nat)
    ensures
        ({
            let op = Op::Remove;
            let t = Trace::start(Pc::RemoveMark, state, room).step(op, env, Reply::Resume).step(
                op,
                env,
                Reply::Resume,
            ).step(op, env, Reply::Resume).step(op, env, Reply::Resume);
            &&& t.pc is Finished
            &&& t.actions == seq![
                Action::Continue,
                Action::Call(Call::CompleteAll),
                Action::Call(Call::Unregister),
                Action::Finish(Ok(())),
            ]
            &&& t.state == RngState { removed: true, data_avail: 0, ..state }
        }),
{
}

impl Trace {
    /// A request for entropy that is granted.
    pub open spec fn request(op: Op, env: Env, state: RngState, room: nat, kicked: bool) -> Trace {
        Trace::start(Pc::RequestClaim, state, room).step(op, env, Reply::Resume).step(
            op,
            env,
            Reply::Resume,
        ).step(op, env, Reply::Resume).step(op, env, Reply::Added(Ok(()))).step(
            op,
            env,
            Reply::Kicked(kicked),
        )
    }

    /// The callback for a buffer to which the device has written `len` bytes.
    pub open spec fn callback(env: Env, state: RngState, len: u32) -> Trace {
        let op = Op::Callback;
        Trace::start(Pc::CallbackAvail { len }, state, 0).step(op, env, Reply::Resume).step(
            op,
            env,
            Reply::Resume,
        ).step(op, env, Reply::Resume)
    }

    /// A read that finds data, up to the end of its first copy, which is answered with `bytes`.
    pub open spec fn read(op: Op, env: Env, state: RngState, room: nat, bytes: &[u8]) -> Trace {
        Trace::start(Pc::ReadEntry, state, room).step(op, env, Reply::Resume).step(
            op,
            env,
            Reply::Resume,
        ).step(op, env, Reply::Resume).step(op, env, Reply::Fetched(bytes))
    }
}

/// What is read is what the device has written. After a request and the callback for `len` bytes, a
/// read takes bytes from the beginning of the buffer: all that the device reported and the buffer
/// holds, or as many as its destination has room for.
pub proof fn law_read_after_request(
    op: Op,
    can_wait: bool,
    env: Env,
    state: RngState,
    kicked: bool,
    len: u32,
    room: nat,
    bytes: &[u8],
)
    requires
        !state.in_flight,
        !state.removed,
        env.base != 0,
        len > 0,
        bytes@.len() == copy_size(room, len),
    ensures
        ({
            let requested = Trace::request(op, env, state, 0, kicked).state;
            let filled = Trace::callback(env, requested, len).state;
            let t = Trace::read(Op::Read { can_wait }, env, filled, room, bytes);
            let size = copy_size(room, len);
            &&& filled.data_avail == min(len as nat, DATA_BUF_SIZE as nat)
            &&& size == min(room, filled.data_avail as nat)
            &&& t.actions[2] == Action::Call(Call::Fetch { addr: env.base, offset: 0, len: size })
            &&& t.delivered == bytes@
            &&& t.state == RngState {
                data_idx: size,
                data_avail: (filled.data_avail - size) as u32,
                ..filled
            }
        }),
{
    let requested = Trace::request(op, env, state, 0, kicked).state;
    let filled = Trace::callback(env, requested, len).state;
    law_request_granted(op, env, state, 0, kicked);
    law_callback(env, requested, 0, len);
    law_read_takes_data(can_wait, env, filled, room, bytes);
}

/// Two reads take together what one read with the room of both takes. `contents` is what the
/// buffer holds, and the bytes that the reads are answered with are those at the positions that
/// they ask for. The first read must leave data for the second, lest it requests more.
pub proof fn law_reads_are_additive(
    env: Env,
    state: RngState,
    contents: Seq<u8>,
    room1: nat,
    room2: nat,
    bytes1: &[u8],
    bytes2: &[u8],
    bytes: &[u8],
)
    requires
        !state.removed,
        env.base != 0,
        contents.len() == DATA_BUF_SIZE,
        state.data_idx + state.data_avail <= DATA_BUF_SIZE,
        room1 < state.data_avail,
        ({
            let idx = state.data_idx as int;
            let rest = (state.data_avail - room1) as u32;
            let all = copy_size(room1 + room2, state.data_avail) as int;
            &&& bytes1@ == contents.subrange(idx, idx + room1)
            &&& bytes2@ == contents.subrange(idx + room1, idx + room1 + copy_size(room2, rest))
            &&& bytes@ == contents.subrange(idx, idx + all)
        }),
    ensures
        ({
            let op = Op::Read { can_wait: false };
            let first = Trace::read(op, env, state, room1, bytes1);
            let second = Trace::read(op, env, first.state, room2, bytes2);
            let joint = Trace::read(op, env, state, room1 + room2, bytes);
            &&& first.actions[2] == Action::Call(
                Call::Fetch { addr: env.base, offset: state.data_idx, len: room1 as u32 },
            )
            &&& second.actions[2] == Action::Call(
                Call::Fetch {
                    addr: env.base,
                    offset: (state.data_idx + room1) as u32,
                    len: copy_size(room2, (state.data_avail - room1) as u32),
                },
            )
            &&& first.delivered + second.delivered == joint.delivered
            &&& second.state == joint.state
            &&& second.pc == joint.pc
        }),
{
    let op = Op::Read { can_wait: false };
    let rest = (state.data_avail - room1) as u32;
    law_read_takes_data(false, env, state, room1, bytes1);
    let first = Trace::read(op, env, state, room1, bytes1);
    law_read_takes_data(false, env, first.state, room2, bytes2);
    law_read_takes_data(false, env, state, room1 + room2, bytes);
    assert(bytes1@ + bytes2@ =~= bytes@);
}

/// Once a copy or a request is done, an operation waits exactly if it is a read that may wait and
/// its destination has room; otherwise it has succeeded.
pub proof fn law_who_waits(op: Op, room: nat)
    ensures
        op == (Op::Read { can_wait: true }) && room > 0 ==> {
            &&& settle(op, room).0 is Waiting
            &&& settle(op, room).1 == Action::Call(Call::Wait)
        },
        op != (Op::Read { can_wait: true }) || room == 0 ==> {
            &&& settle(op, room).0 is Finished
            &&& settle(op, room).1 == Action::Finish(Ok(()))
        },
{
}

/// A copy takes as much as it can: all that is available, unless the destination or the buffer is
/// smaller.
pub proof fn law_copies_take_all_they_can(room: nat, avail: u32)
    ensures
        copy_size(room, avail) <= room,
        copy_size(room, avail) <= avail,
        copy_size(room, avail) <= 64,
        copy_size(room, avail) == room || copy_size(room, avail) == avail || copy_size(room, avail)
            == 64,
{
}

impl Trace {
    /// The operation after others have changed the shared words to `state`.
    pub open spec fn with(self, state: RngState) -> Trace {
        Trace { state, ..self }
    }
}

/// Whatever others do to the shared words in between, a request claims the buffer, and only if
/// nobody has; gives up if the device has been removed; re-arms the completion, resets the position
/// and adds the buffer; releases the buffer if it is refused; and kicks the virtqueue if it is not.
/// It changes nothing else.
pub proof fn law_request_among_others(
    op: Op,
    env: Env,
    room: nat,
    s1: RngState,
    s2: RngState,
    s3: RngState,
    s4: RngState,
    s5: RngState,
    added: Result<(), Error>,
    kicked: bool,
)
    ensures
        ({
            let t1 = Trace::start(Pc::RequestClaim, s1, room).step(op, env, Reply::Resume);
            let t2 = t1.with(s2).step(op, env, Reply::Resume);
            let t3 = t2.with(s3).step(op, env, Reply::Resume);
            let t4 = t3.with(s4).step(op, env, Reply::Added(added));
            let t5 = t4.with(s5).step(op, env, Reply::Kicked(kicked));
            &&& s1.in_flight ==> {
                &&& t1.state == s1
                &&& t1.pc == settle(op, room).0
                &&& t1.actions == seq![settle(op, room).1]
            }
            &&& !s1.in_flight ==> t1.state == RngState { in_flight: true, ..s1 }
            &&& !s1.in_flight && s2.removed ==> {
                &&& t2.state == s2
                &&& t2.pc is Finished
                &&& t2.actions == seq![
                    Action::Continue,
                    Action::Finish(Err(Error::of_errno(ENODEV))),
                ]
            }
            &&& !s1.in_flight && !s2.removed ==> {
                &&& t2.state == s2
                &&& t3.state == RngState { data_idx: 0, ..s3 }
                &&& t3.actions == seq![
                    Action::Continue,
                    Action::Call(Call::Reinit),
                    Action::Call(Call::Add(env.add)),
                ]
            }
            &&& !s1.in_flight && !s2.removed && added is Err ==> {
                &&& t4.state == RngState { in_flight: false, ..s4 }
                &&& t4.pc is Finished
                &&& t4.actions == t3.actions.push(Action::Finish(added))
            }
            &&& !s1.in_flight && !s2.removed && added is Ok ==> {
                &&& t4.state == s4
                &&& t5.state == s5
                &&& t5.pc == settle(op, room).0
                &&& t5.actions == t3.actions.push(
                    Action::Call(Call::Virtqueue(VirtqueueCall::Kick)),
                ).push(settle(op, room).1)
                &&& t5.delivered == Seq::<u8>::empty()
                &&& t5.room == room
            }
        }),
{
}

/// Whatever others do to the shared words in between, a copy asks for the bytes at the position
/// that it finds, moves the position behind them, and delivers what it is answered with. It takes
/// the bytes off those that are available unless that number has changed, and goes on to a request
/// exactly if it has so taken the last. Without data it goes on to a request at once.
pub proof fn law_copy_among_others(
    op: Op,
    env: Env,
    room: nat,
    s1: RngState,
    s2: RngState,
    s3: RngState,
    bytes: &[u8],
)
    requires
        bytes@.len() == copy_size(room, s1.data_avail),
    ensures
        ({
            let size = copy_size(room, s1.data_avail);
            let t1 = Trace::start(Pc::CopyEntry, s1, room).step(op, env, Reply::Resume);
            let t2 = t1.with(s2).step(op, env, Reply::Resume);
            let t3 = t2.with(s3).step(op, env, Reply::Fetched(bytes));
            let fetched = seq![
                Action::Continue,
                Action::Call(Call::Fetch { addr: env.base, offset: s2.data_idx, len: size }),
            ];
            &&& t1.state == s1
            &&& s1.data_avail == 0 ==> {
                &&& t1.pc is RequestClaim
                &&& t1.actions == seq![Action::Continue]
                &&& t1.delivered == Seq::<u8>::empty()
                &&& t1.room == room
            }
            &&& s1.data_avail > 0 && env.base == 0 ==> {
                &&& t1.pc is Finished
                &&& t1.actions == seq![Action::Finish(Err(Error::of_errno(EIO)))]
                &&& t1.delivered == Seq::<u8>::empty()
            }
            &&& s1.data_avail > 0 && env.base != 0 ==> {
                &&& t2.actions == fetched
                &&& t2.state == RngState { data_idx: t2.state.data_idx, ..s2 }
                &&& s2.data_idx + size < 0x1_0000_0000 ==> t2.state.data_idx == s2.data_idx + size
                &&& s2.data_idx + size >= 0x1_0000_0000 ==> t2.state.data_idx == s2.data_idx + size
                    - 0x1_0000_0000
                &&& t3.delivered == bytes@
                &&& t3.room == room - size
            }
            &&& s1.data_avail > 0 && env.base != 0 && s3.data_avail != s1.data_avail ==> {
                &&& t3.state == s3
                &&& t3.pc == settle(op, (room - size) as nat).0
                &&& t3.actions == fetched.push(settle(op, (room - size) as nat).1)
            }
            &&& s1.data_avail > 0 && env.base != 0 && s3.data_avail == s1.data_avail ==> {
                &&& t3.state == RngState { data_avail: (s1.data_avail - size) as u32, ..s3 }
                &&& size == s1.data_avail ==> {
                    &&& t3.pc is RequestClaim
                    &&& t3.actions == fetched.push(Action::Continue)
                }
                &&& size < s1.data_avail ==> {
                    &&& t3.pc == settle(op, (room - size) as nat).0
                    &&& t3.actions == fetched.push(settle(op, (room - size) as nat).1)
                }
            }
        }),
{
    let t1 = Trace::start(Pc::CopyEntry, s1, room).step(op, env, Reply::Resume);
    let t2 = t1.with(s2).step(op, env, Reply::Resume);
    assert(t2.delivered =~= Seq::<u8>::empty());
    if s1.data_avail > 0 && env.base != 0 {
        assert(t2.with(s3).step(op, env, Reply::Fetched(bytes)).delivered =~= bytes@);
    }
}

/// A read fails at once if the device has been removed, and otherwise begins with a copy. It
/// changes none of the shared words by that.
pub proof fn law_read_begins_with_a_copy(op: Op, env: Env, state: RngState, room: nat)
    ensures
        ({
            let t = Trace::start(Pc::ReadEntry, state, room).step(op, env, Reply::Resume);
            &&& t.state == state
            &&& t.delivered == Seq::<u8>::empty()
            &&& state.removed ==> {
                &&& t.pc is Finished
                &&& t.actions == seq![Action::Finish(Err(Error::of_errno(ENODEV)))]
            }
            &&& !state.removed ==> {
                &&& t.pc is CopyEntry
                &&& t.actions == seq![Action::Continue]
            }
        }),
{
}

/// Whatever others do to the shared words in between, a read that has waited ends with the error of
/// the wait if that was cut short, succeeds if it then finds the device removed or no data, and
/// begins a copy otherwise. It changes none of the shared words by that.
pub proof fn law_wait_among_others(
    op: Op,
    env: Env,
    room: nat,
    s1: RngState,
    s2: RngState,
    waited: Result<(), Error>,
)
    ensures
        ({
            let t1 = Trace::start(Pc::Waiting, s1, room).step(op, env, Reply::Waited(waited));
            let t2 = t1.with(s2).step(op, env, Reply::Resume);
            &&& t1.state == s1
            &&& t1.delivered == Seq::<u8>::empty()
            &&& waited is Err ==> {
                &&& t1.pc is Finished
                &&& t1.actions == seq![Action::Finish(waited)]
            }
            &&& waited is Ok && s1.removed ==> {
                &&& t1.pc is Finished
                &&& t1.actions == seq![Action::Finish(Ok(()))]
            }
            &&& waited is Ok && !s1.removed ==> {
                &&& t2.state == s2
                &&& t2.delivered == Seq::<u8>::empty()
                &&& t2.room == room
            }
            &&& waited is Ok && !s1.removed && s2.data_avail == 0 ==> {
                &&& t2.pc is Finished
                &&& t2.actions == seq![Action::Continue, Action::Finish(Ok(()))]
            }
            &&& waited is Ok && !s1.removed && s2.data_avail > 0 ==> {
                &&& t2.pc is CopyEntry
                &&& t2.actions == seq![Action::Continue, Action::Continue]
            }
        }),
{
}

/// A read that is woken and finds data copies it: the next thing that it asks for is the bytes at
/// the position, as many as are available and as its destination has room for, and it delivers
/// them.
pub proof fn law_woken_read_copies(
    op: Op,
    env: Env,
    state: RngState,
    room: nat,
    bytes: &[u8],
)
    requires
        !state.removed,
        0 < state.data_avail <= DATA_BUF_SIZE,
        room > 0,
        env.base != 0,
        bytes@.len() == if room < state.data_avail {
            room
        } else {
            state.data_avail as nat
        },
    ensures
        ({
            let woken = Trace::start(Pc::Waiting, state, room).step(
                op,
                env,
                Reply::Waited(Ok(())),
            ).step(op, env, Reply::Resume);
            let asked = woken.step(op, env, Reply::Resume).step(op, env, Reply::Resume);
            let t = asked.step(op, env, Reply::Fetched(bytes));
            &&& asked.actions == seq![
                Action::Continue,
                Action::Continue,
                Action::Continue,
                Action::Call(
                    Call::Fetch {
                        addr: env.base,
                        offset: state.data_idx,
                        len: bytes@.len() as u32,
                    },
                ),
            ]
            &&& t.delivered == bytes@
            &&& t.room == room - bytes@.len()
            &&& t.state.data_avail == state.data_avail - bytes@.len()
        }),
{
    let woken = Trace::start(Pc::Waiting, state, room).step(
        op,
        env,
        Reply::Waited(Ok(())),
    ).step(op, env, Reply::Resume);
    let asked = woken.step(op, env, Reply::Resume).step(op, env, Reply::Resume);
    assert(asked.delivered =~= Seq::<u8>::empty());
    assert(asked.step(op, env, Reply::Fetched(bytes)).delivered =~= bytes@);
}

/// A read that may wait and finds no data gets what the device then writes: it asks the device,
/// waits, and once the callback has run for `len` bytes it delivers them from the beginning of the
/// buffer, as many as the buffer holds and as its destination has room for.
pub proof fn law_patient_read_gets_what_arrives(
    env: Env,
    state: RngState,
    room: nat,
    kicked: bool,
    len: u32,
    bytes: &[u8],
)
    requires
        !state.removed,
        !state.in_flight,
        state.data_avail == 0,
        env.base != 0,
        room > 0,
        len > 0,
        bytes@.len() <= room,
        bytes@.len() <= len,
        bytes@.len() <= 64,
        bytes@.len() == room || bytes@.len() == len || bytes@.len() == 64,
    ensures
        ({
            let op = Op::Read { can_wait: true };
            let waiting = Trace::start(Pc::ReadEntry, state, room).step(
                op,
                env,
                Reply::Resume,
            ).step(op, env, Reply::Resume).step(op, env, Reply::Resume).step(
                op,
                env,
                Reply::Resume,
            ).step(op, env, Reply::Resume).step(op, env, Reply::Added(Ok(()))).step(
                op,
                env,
                Reply::Kicked(kicked),
            );
            let filled = Trace::callback(env, waiting.state, len);
            let asked = waiting.with(filled.state).step(op, env, Reply::Waited(Ok(()))).step(
                op,
                env,
                Reply::Resume,
            ).step(op, env, Reply::Resume).step(op, env, Reply::Resume);
            let t = asked.step(op, env, Reply::Fetched(bytes));
            &&& waiting.actions.contains(Action::Call(Call::Add(env.add)))
            &&& waiting.actions.last() == Action::Call(Call::Wait)
            &&& filled.actions.contains(Action::Call(Call::Complete))
            &&& asked.actions.last() == Action::Call(
                Call::Fetch { addr: env.base, offset: 0, len: bytes@.len() as u32 },
            )
            &&& t.delivered == bytes@
            &&& bytes@.len() == room && len > room && room < 64 ==> t.actions.last()
                == Action::Finish(Ok(()))
        }),
{
    let op = Op::Read { can_wait: true };
    let t2 = Trace::start(Pc::ReadEntry, state, room).step(op, env, Reply::Resume).step(
        op,
        env,
        Reply::Resume,
    );
    let t5 = t2.step(op, env, Reply::Resume).step(op, env, Reply::Resume).step(
        op,
        env,
        Reply::Resume,
    );
    let waiting = t5.step(op, env, Reply::Added(Ok(()))).step(op, env, Reply::Kicked(kicked));
    let filled = Trace::callback(env, waiting.state, len);
    assert(t5.actions[4] == Action::Call(Call::Add(env.add)));
    assert(waiting.actions[4] == Action::Call(Call::Add(env.add)));
    assert(filled.actions[1] == Action::Call(Call::Complete));
    let asked = waiting.with(filled.state).step(op, env, Reply::Waited(Ok(()))).step(
        op,
        env,
        Reply::Resume,
    ).step(op, env, Reply::Resume).step(op, env, Reply::Resume);
    assert(waiting.delivered =~= Seq::<u8>::empty());
    assert(asked.delivered =~= Seq::<u8>::empty());
    assert(asked.step(op, env, Reply::Fetched(bytes)).delivered =~= bytes@);
}

/// An operation fails only if the device has been removed, if its wait was cut short, if the
/// virtqueue refused the buffer, or if there is no buffer; and then with the error that says so.
pub proof fn law_why_operations_fail(
    op: Op,
    pc: Pc,
    env: Env,
    state: RngState,
    room: nat,
    reply: Reply<'_>,
    error: Error,
)
    requires
        expects(pc, reply),
        outcome(op, pc, env, state, room, reply).1 == Action::Finish(Err(error)),
    ensures
        ({
            ||| state.removed && error == Error::of_errno(ENODEV) && (pc is ReadEntry
                || pc is RequestCheck)
            ||| reply matches Reply::Waited(Err(cause)) && error == cause
            ||| reply matches Reply::Added(Err(cause)) && error == cause
            ||| env.base == 0 && state.data_avail > 0 && error == Error::of_errno(EIO)
                && pc is CopyEntry
        }),
{
}

/// Whatever an operation asks of the core, its next step takes the answer to that, whatever the
/// answer is; and an operation that is over makes no step.
pub proof fn law_every_answer_is_taken(
    op: Op,
    pc: Pc,
    env: Env,
    state: RngState,
    room: nat,
    reply: Reply<'_>,
    answer: Reply<'_>,
)
    requires
        expects(pc, reply),
    ensures
        ({
            let next = outcome(op, pc, env, state, room, reply);
            expects(next.0, answer) <==> match next.1 {
                Action::Continue => answer is Resume,
                Action::Finish(_) => false,
                Action::Call(call) => match call {
                    Call::Fetch { len, .. } => answer is Fetched && answer->Fetched_0@.len() == len,
                    Call::Add(_) => answer is Added,
                    Call::Virtqueue(_) => answer is Kicked,
                    Call::Wait => answer is Waited,
                    _ => answer is Resume,
                },
            }
        }),
{
}

/// Every operation can make its first step, whatever its destination takes.
pub proof fn law_operations_begin(op: Op, len: u32, room: nat)
    ensures
        expects(Pc::ReadEntry, Reply::Resume) && (Task { op, pc: Pc::ReadEntry }).wf(room),
        expects(Pc::RequestClaim, Reply::Resume) && (Task { op, pc: Pc::RequestClaim }).wf(room),
        expects(Pc::CallbackAvail { len }, Reply::Resume),
        (Task { op, pc: Pc::CallbackAvail { len } }).wf(room),
        expects(Pc::RemoveMark, Reply::Resume) && (Task { op, pc: Pc::RemoveMark }).wf(room),
{
}

/// Whatever others do to the shared words in between, the callback makes available what the device
/// has written, as far as the buffer holds it, releases the buffer, and then wakes a reader. It
/// changes nothing else.
pub proof fn law_callback_among_others(
    op: Op,
    env: Env,
    room: nat,
    len: u32,
    s1: RngState,
    s2: RngState,
    s3: RngState,
)
    ensures
        ({
            let t1 = Trace::start(Pc::CallbackAvail { len }, s1, room).step(op, env, Reply::Resume);
            let t2 = t1.with(s2).step(op, env, Reply::Resume);
            let t3 = t2.with(s3).step(op, env, Reply::Resume);
            &&& len <= 64 ==> t1.state == RngState { data_avail: len, ..s1 }
            &&& len > 64 ==> t1.state == RngState { data_avail: 64, ..s1 }
            &&& t2.state == RngState { in_flight: false, ..s2 }
            &&& t3.state == s3
            &&& t3.pc is Finished
            &&& t3.delivered == Seq::<u8>::empty()
            &&& t3.actions == seq![
                Action::Continue,
                Action::Call(Call::Complete),
                Action::Finish(Ok(())),
            ]
        }),
{
}

/// Whatever others do to the shared words in between, a removal marks the device as removed,
/// withdraws the data, wakes all readers and unregisters the generator, in this order. It changes
/// nothing else.
pub proof fn law_removal_among_others(
    op: Op,
    env: Env,
    room: nat,
    s1: RngState,
    s2: RngState,
    s3: RngState,
    s4: RngState,
)
    ensures
        ({
            let t1 = Trace::start(Pc::RemoveMark, s1, room).step(op, env, Reply::Resume);
            let t2 = t1.with(s2).step(op, env, Reply::Resume);
            let t3 = t2.with(s3).step(op, env, Reply::Resume);
            let t4 = t3.with(s4).step(op, env, Reply::Resume);
            &&& t1.state == RngState { removed: true, ..s1 }
            &&& t2.state == RngState { data_avail: 0, ..s2 }
            &&& t3.state == s3
            &&& t4.state == s4
            &&& t4.pc is Finished
            &&& t4.delivered == Seq::<u8>::empty()
            &&& t4.actions == seq![
                Action::Continue,
                Action::Call(Call::CompleteAll),
                Action::Call(Call::Unregister),
                Action::Finish(Ok(())),
            ]
        }),
{
}

/// What holds of traces holds of the operations: a step of an operation moves it, the shared words
/// and the destination as the trace says, and changes nothing else of the driver data.
pub proof fn law_steps_follow_the_trace(
    task: &mut Task,
    rng: &mut VirtioRngInner,
    buf: &mut Buffer,
    reply: Reply<'_>,
    action: Action,
)
    requires
        old(task).wf(old(buf).room()),
        old(rng).wf(),
        expects(old(task).pc, reply),
        call_ensures(Task::step, (task, rng, buf, reply), action),
    ensures
        ({
            let t = Trace::start(old(task).pc, old(rng).state, old(buf).room()).step(
                old(task).op,
                old(rng).env(),
                reply,
            );
            &&& t.actions == seq![action]
            &&& final(task).pc == t.pc
            &&& final(task).op == old(task).op
            &&& final(rng).state == t.state
            &&& final(rng).vq == old(rng).vq
            &&& final(rng).sg == old(rng).sg
            &&& final(rng).token == old(rng).token
            &&& final(buf)@ == old(buf)@ + t.delivered
            &&& final(buf).capacity() == old(buf).capacity()
            &&& final(buf).room() == t.room
        }),
{
}

} // verus!
