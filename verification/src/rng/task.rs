//! The operations of the entropy driver, step by step.
use vstd::prelude::*;

use crate::error::{Error, EIO, ENODEV};
use crate::memory::Flags;
use crate::rng::inner::{
    Buffer, EntropyBuffer, HwRng, RngState, VirtioRngInner, DATA_BUF_SIZE,
};
use crate::virtqueue::{AddInbuf, VirtqueueCall, Virtqueues};

verus! {

/// What an operation is for.
#[derive(Copy, Clone, PartialEq, Eq, Structural, Debug)]
pub enum Op {
    /// The first request for entropy, when the device has become ready.
    Init,
    /// A read. If `can_wait` is set it may wait for entropy to arrive.
    Read { can_wait: bool },
    /// The virtqueue callback.
    Callback,
    /// The removal of the device.
    Remove,
}

/// Where an operation stands: the access to the shared words that comes next.
#[derive(Copy, Clone, PartialEq, Eq, Structural, Debug)]
pub enum Pc {
    /// A read looks whether the device has been removed.
    ReadEntry,
    /// A copy looks how much data is available.
    CopyEntry,
    /// A copy has seen `avail` bytes in the buffer at `addr` and takes the position of `size` of
    /// them.
    CopyFetch { addr: usize, avail: u32, size: u32 },
    /// A copy waits for the bytes, and gives notice that it has consumed them.
    CopyCommit { avail: u32, size: u32 },
    /// A request for entropy claims the buffer.
    RequestClaim,
    /// A request looks whether the device has been removed.
    RequestCheck,
    /// A request waits for the completion to be re-armed, and resets the position.
    RequestReset,
    /// A request waits for the answer to the addition of the buffer.
    RequestAdded,
    /// A request waits for the virtqueue to be kicked.
    RequestKicked,
    /// A read waits for entropy, then looks whether the device has been removed.
    Waiting,
    /// A read looks whether it was woken because data is available.
    Woken,
    /// The callback stores how much data the device has written.
    CallbackAvail { len: u32 },
    /// The callback releases the buffer.
    CallbackRelease,
    /// The callback waits for the waiting reader to be woken.
    CallbackCompleted,
    /// The removal marks the device as removed.
    RemoveMark,
    /// The removal withdraws what data is available.
    RemoveAvail,
    /// The removal waits for all readers to be woken.
    RemoveCompleted,
    /// The removal waits for the generator to be unregistered.
    RemoveUnregistered,
    /// The operation is over.
    Finished,
}

/// What an operation asks of the core.
#[derive(Copy, Clone, PartialEq, Eq, Structural, Debug)]
pub enum Call {
    /// Read `len` bytes, from the position `offset` of the buffer at `addr`.
    Fetch { addr: usize, offset: u32, len: u32 },
    /// Re-arm the completion that readers wait for.
    Reinit,
    /// Add the buffer to the first virtqueue.
    Add(AddInbuf),
    /// Ask something of the first virtqueue.
    Virtqueue(VirtqueueCall),
    /// Wait for the completion, unless a fatal signal comes first.
    Wait,
    /// Wake one reader that waits for the completion.
    Complete,
    /// Wake all readers that wait for the completion, now and later.
    CompleteAll,
    /// Register the random number generator.
    Register,
    /// Unregister the random number generator.
    Unregister,
}

/// What comes after a step.
#[derive(Copy, Clone, PartialEq, Eq, Debug)]
pub enum Action {
    /// The next step, without further ado.
    Continue,
    /// A request to the core; the next step takes the answer.
    Call(Call),
    /// Nothing: the operation has this result.
    Finish(Result<(), Error>),
}

/// The answer that a step takes.
#[derive(Copy, Clone, Debug)]
pub enum Reply<'a> {
    /// No answer: the operation goes on, or what was asked has been done.
    Resume,
    /// The bytes that were read from the buffer.
    Fetched(&'a [u8]),
    /// Whether the buffer was added to the virtqueue.
    Added(Result<(), Error>),
    /// What the virtqueue answered to the kick.
    Kicked(bool),
    /// Whether the completion was waited for, or the wait was cut short.
    Waited(Result<(), Error>),
}

/// What does not change of the driver data, as far as an operation needs it.
#[verifier::ext_equal]
pub struct Env {
    /// The address of the buffer.
    pub base: usize,
    /// The request that hands the buffer to the device.
    pub add: AddInbuf,
}

impl VirtioRngInner {
    /// What operations need of the driver data besides the shared words.
    pub open spec fn env(self) -> Env {
        Env { base: self.sg.buf().addr, add: self.add_request() }
    }
}

/// The smaller of two numbers.
pub open spec fn min(a: nat, b: nat) -> nat {
    if a <= b {
        a
    } else {
        b
    }
}

/// How many bytes a copy takes when the destination has `room` and `avail` bytes are available.
pub open spec fn copy_size(room: nat, avail: u32) -> u32 {
    min(min(room, avail as nat), DATA_BUF_SIZE as nat) as u32
}

/// Whether a step at `pc` takes `reply`.
pub open spec fn expects(pc: Pc, reply: Reply<'_>) -> bool {
    match pc {
        Pc::CopyCommit { avail, size } => reply matches Reply::Fetched(bytes) && bytes@.len()
            == size,
        Pc::RequestAdded => reply is Added,
        Pc::RequestKicked => reply is Kicked,
        Pc::Waiting => reply is Waited,
        Pc::Finished => false,
        _ => reply is Resume,
    }
}

/// The shared words after the step at `pc`.
pub open spec fn next_state(pc: Pc, state: RngState, reply: Reply<'_>) -> RngState {
    match pc {
        Pc::CopyFetch { size, .. } => RngState {
            data_idx: ((state.data_idx + size) % 0x1_0000_0000) as u32,
            ..state
        },
        Pc::CopyCommit { avail, size } => if state.data_avail == avail {
            RngState { data_avail: (avail - size) as u32, ..state }
        } else {
            state
        },
        Pc::RequestClaim => RngState { in_flight: true, ..state },
        Pc::RequestReset => RngState { data_idx: 0, ..state },
        Pc::RequestAdded => if reply->Added_0 is Err {
            RngState { in_flight: false, ..state }
        } else {
            state
        },
        Pc::CallbackAvail { len } => RngState {
            data_avail: min(len as nat, DATA_BUF_SIZE as nat) as u32,
            ..state
        },
        Pc::CallbackRelease => RngState { in_flight: false, ..state },
        Pc::RemoveMark => RngState { removed: true, ..state },
        Pc::RemoveAvail => RngState { data_avail: 0, ..state },
        _ => state,
    }
}

/// The bytes that the step at `pc` writes to the destination of the read.
pub open spec fn delivered(pc: Pc, reply: Reply<'_>) -> Seq<u8> {
    match pc {
        Pc::CopyCommit { .. } => reply->Fetched_0@,
        _ => Seq::empty(),
    }
}

/// How an operation goes on once a copy, or a request for entropy, is done: a read that may wait
/// does so as long as its destination has `room`.
pub open spec fn settle(op: Op, room: nat) -> (Pc, Action) {
    if op == (Op::Read { can_wait: true }) && room > 0 {
        (Pc::Waiting, Action::Call(Call::Wait))
    } else {
        (Pc::Finished, Action::Finish(Ok(())))
    }
}

/// An operation ends with an error.
pub open spec fn fail(error: Error) -> (Pc, Action) {
    (Pc::Finished, Action::Finish(Err(error)))
}

/// Where the operation `op` stands after the step at `pc`, and what comes next. `room` is what the
/// destination of the read takes before the step.
pub open spec fn outcome(
    op: Op,
    pc: Pc,
    env: Env,
    state: RngState,
    room: nat,
    reply: Reply<'_>,
) -> (Pc, Action) {
    match pc {
        Pc::ReadEntry => if state.removed {
            fail(Error::of_errno(ENODEV))
        } else {
            (Pc::CopyEntry, Action::Continue)
        },
        Pc::CopyEntry => if state.data_avail == 0 {
            (Pc::RequestClaim, Action::Continue)
        } else if env.base == 0 {
            fail(Error::of_errno(EIO))
        } else {
            (
                Pc::CopyFetch {
                    addr: env.base,
                    avail: state.data_avail,
                    size: copy_size(room, state.data_avail),
                },
                Action::Continue,
            )
        },
        Pc::CopyFetch { addr, avail, size } => (
            Pc::CopyCommit { avail, size },
            Action::Call(Call::Fetch { addr, offset: state.data_idx, len: size }),
        ),
        Pc::CopyCommit { avail, size } => if state.data_avail == avail && avail == size {
            (Pc::RequestClaim, Action::Continue)
        } else {
            settle(op, (room - size) as nat)
        },
        Pc::RequestClaim => if state.in_flight {
            settle(op, room)
        } else {
            (Pc::RequestCheck, Action::Continue)
        },
        Pc::RequestCheck => if state.removed {
            fail(Error::of_errno(ENODEV))
        } else {
            (Pc::RequestReset, Action::Call(Call::Reinit))
        },
        Pc::RequestReset => (Pc::RequestAdded, Action::Call(Call::Add(env.add))),
        Pc::RequestAdded => match reply->Added_0 {
            Err(error) => fail(error),
            Ok(_) => (
                Pc::RequestKicked,
                Action::Call(Call::Virtqueue(VirtqueueCall::Kick)),
            ),
        },
        Pc::RequestKicked => settle(op, room),
        Pc::Waiting => match reply->Waited_0 {
            Err(error) => fail(error),
            Ok(_) => if state.removed {
                (Pc::Finished, Action::Finish(Ok(())))
            } else {
                (Pc::Woken, Action::Continue)
            },
        },
        Pc::Woken => if state.data_avail == 0 {
            (Pc::Finished, Action::Finish(Ok(())))
        } else {
            (Pc::CopyEntry, Action::Continue)
        },
        Pc::CallbackAvail { len } => (Pc::CallbackRelease, Action::Continue),
        Pc::CallbackRelease => (Pc::CallbackCompleted, Action::Call(Call::Complete)),
        Pc::CallbackCompleted => (Pc::Finished, Action::Finish(Ok(()))),
        Pc::RemoveMark => (Pc::RemoveAvail, Action::Continue),
        Pc::RemoveAvail => (Pc::RemoveCompleted, Action::Call(Call::CompleteAll)),
        Pc::RemoveCompleted => (Pc::RemoveUnregistered, Action::Call(Call::Unregister)),
        Pc::RemoveUnregistered => (Pc::Finished, Action::Finish(Ok(()))),
        Pc::Finished => (Pc::Finished, Action::Continue),
    }
}

/// An operation of the driver that is under way.
#[derive(Copy, Clone, PartialEq, Eq, Structural, Debug)]
pub struct Task {
    /// What the operation is for.
    pub op: Op,
    /// Where it stands.
    pub pc: Pc,
}

impl Task {
    /// A copy that is under way takes no more than it has seen, than the buffer holds and than
    /// the destination has `room` for.
    pub open spec fn wf(self, room: nat) -> bool {
        match self.pc {
            Pc::CopyFetch { avail, size, .. } | Pc::CopyCommit { avail, size } => {
                &&& size <= avail
                &&& size <= DATA_BUF_SIZE
                &&& size <= room
            },
            _ => true,
        }
    }
}

/// How an operation goes on once a copy, or a request for entropy, is done.
fn settled(op: Op, buf: &Buffer) -> (next: (Pc, Action))
    ensures
        next == settle(op, buf.room()),
{
    match op {
        Op::Read { can_wait: true } if !buf.is_empty() => (
            Pc::Waiting,
            Action::Call(Call::Wait),
        ),
        _ => (Pc::Finished, Action::Finish(Ok(()))),
    }
}

/// An operation ends with an error.
fn failed(errno: i32) -> (next: (Pc, Action))
    ensures
        next == fail(Error::of_errno(errno)),
{
    (Pc::Finished, Action::Finish(Err(Error::from_errno(errno))))
}

impl VirtioRngInner {
    /// The steps of a request for entropy.
    fn request_entropy_step(&mut self, task: &Task, buf: &Buffer, reply: Reply<'_>) -> (next: (
        Pc,
        Action,
    ))
        requires
            task.pc is RequestClaim || task.pc is RequestCheck || task.pc is RequestReset
                || task.pc is RequestAdded || task.pc is RequestKicked,
            expects(task.pc, reply),
            old(self).wf(),
        ensures
            *final(self) == (VirtioRngInner {
                state: next_state(task.pc, old(self).state, reply),
                ..*old(self)
            }),
            next == outcome(
                task.op,
                task.pc,
                old(self).env(),
                old(self).state,
                buf.room(),
                reply,
            ),
    {
        match task.pc {
            Pc::RequestClaim => {
                if self.state.in_flight {
                    return settled(task.op, buf);
                }
                self.state.in_flight = true;
                (Pc::RequestCheck, Action::Continue)
            },
            Pc::RequestCheck => {
                if self.state.removed {
                    return failed(ENODEV);
                }
                (Pc::RequestReset, Action::Call(Call::Reinit))
            },
            Pc::RequestReset => {
                self.state.data_idx = 0;
                let add = self.vq.first().add_inbuf(&self.sg, self.token, Flags::Kernel);
                (Pc::RequestAdded, Action::Call(Call::Add(add)))
            },
            Pc::RequestAdded => {
                if let Reply::Added(Err(error)) = reply {
                    self.state.in_flight = false;
                    return (Pc::Finished, Action::Finish(Err(error)));
                }
                (Pc::RequestKicked, Action::Call(Call::Virtqueue(self.vq.first().kick())))
            },
            _ => settled(task.op, buf),
        }
    }

    /// The steps of a copy.
    fn copy_data_step(&mut self, task: &Task, buf: &mut Buffer, reply: Reply<'_>) -> (next: (
        Pc,
        Action,
    ))
        requires
            task.pc is CopyEntry || task.pc is CopyFetch || task.pc is CopyCommit,
            task.wf(old(buf).room()),
            expects(task.pc, reply),
        ensures
            *final(self) == (VirtioRngInner {
                state: next_state(task.pc, old(self).state, reply),
                ..*old(self)
            }),
            next == outcome(
                task.op,
                task.pc,
                old(self).env(),
                old(self).state,
                old(buf).room(),
                reply,
            ),
            final(buf)@ == old(buf)@ + delivered(task.pc, reply),
            final(buf).capacity() == old(buf).capacity(),
            final(buf).room() == old(buf).room() - delivered(task.pc, reply).len(),
            (Task { op: task.op, pc: next.0 }).wf(final(buf).room()),
    {
        match task.pc {
            Pc::CopyEntry => {
                let avail: u32 = self.state.data_avail;
                if avail == 0 {
                    return (Pc::RequestClaim, Action::Continue);
                }
                let Some(addr) = self.sg.data() else {
                    return failed(EIO);
                };
                let mut size: usize = buf.len();
                if avail as usize <= size {
                    size = avail as usize;
                }
                if DATA_BUF_SIZE <= size {
                    size = DATA_BUF_SIZE;
                }
                (Pc::CopyFetch { addr, avail, size: size as u32 }, Action::Continue)
            },
            Pc::CopyFetch { addr, avail, size } => {
                let offset: u32 = self.state.data_idx;
                self.state.data_idx = offset.wrapping_add(size);
                (
                    Pc::CopyCommit { avail, size },
                    Action::Call(Call::Fetch { addr, offset, len: size }),
                )
            },
            Pc::CopyCommit { avail, size } => {
                if let Reply::Fetched(bytes) = reply {
                    buf.write(bytes);
                }
                if self.state.data_avail != avail {
                    return settled(task.op, buf);
                }
                self.state.data_avail = avail - size;
                if avail == size {
                    return (Pc::RequestClaim, Action::Continue);
                }
                settled(task.op, buf)
            },
            _ => (Pc::Finished, Action::Continue),
        }
    }

    /// The steps of a read outside its copies.
    fn read_step(&self, task: &Task, reply: Reply<'_>) -> (next: (Pc, Action))
        requires
            task.pc is ReadEntry || task.pc is Waiting || task.pc is Woken,
            expects(task.pc, reply),
        ensures
            forall|room: nat|
                next == #[trigger] outcome(
                    task.op,
                    task.pc,
                    self.env(),
                    self.state,
                    room,
                    reply,
                ),
            self.state == next_state(task.pc, self.state, reply),
    {
        match task.pc {
            Pc::ReadEntry => {
                if self.state.removed {
                    return failed(ENODEV);
                }
                (Pc::CopyEntry, Action::Continue)
            },
            Pc::Waiting => {
                if let Reply::Waited(Err(error)) = reply {
                    return (Pc::Finished, Action::Finish(Err(error)));
                }
                if self.state.removed {
                    return (Pc::Finished, Action::Finish(Ok(())));
                }
                (Pc::Woken, Action::Continue)
            },
            _ => {
                if self.state.data_avail == 0 {
                    return (Pc::Finished, Action::Finish(Ok(())));
                }
                (Pc::CopyEntry, Action::Continue)
            },
        }
    }

    /// The steps of the virtqueue callback.
    fn vq_callback_step(&mut self, task: &Task) -> (next: (Pc, Action))
        requires
            task.pc is CallbackAvail || task.pc is CallbackRelease || task.pc is CallbackCompleted,
        ensures
            *final(self) == (VirtioRngInner {
                state: next_state(task.pc, old(self).state, Reply::Resume),
                ..*old(self)
            }),
            forall|room: nat|
                next == #[trigger] outcome(
                    task.op,
                    task.pc,
                    old(self).env(),
                    old(self).state,
                    room,
                    Reply::Resume,
                ),
    {
        match task.pc {
            Pc::CallbackAvail { len } => {
                let mut avail: u32 = len;
                if DATA_BUF_SIZE as u32 <= avail {
                    avail = DATA_BUF_SIZE as u32;
                }
                self.state.data_avail = avail;
                (Pc::CallbackRelease, Action::Continue)
            },
            Pc::CallbackRelease => {
                self.state.in_flight = false;
                (Pc::CallbackCompleted, Action::Call(Call::Complete))
            },
            _ => (Pc::Finished, Action::Finish(Ok(()))),
        }
    }

    /// The steps of the removal of the device.
    fn remove_step(&mut self, task: &Task) -> (next: (Pc, Action))
        requires
            task.pc is RemoveMark || task.pc is RemoveAvail || task.pc is RemoveCompleted
                || task.pc is RemoveUnregistered,
        ensures
            *final(self) == (VirtioRngInner {
                state: next_state(task.pc, old(self).state, Reply::Resume),
                ..*old(self)
            }),
            forall|room: nat|
                next == #[trigger] outcome(
                    task.op,
                    task.pc,
                    old(self).env(),
                    old(self).state,
                    room,
                    Reply::Resume,
                ),
    {
        match task.pc {
            Pc::RemoveMark => {
                self.state.removed = true;
                (Pc::RemoveAvail, Action::Continue)
            },
            Pc::RemoveAvail => {
                self.state.data_avail = 0;
                (Pc::RemoveCompleted, Action::Call(Call::CompleteAll))
            },
            Pc::RemoveCompleted => (Pc::RemoveUnregistered, Action::Call(Call::Unregister)),
            _ => (Pc::Finished, Action::Finish(Ok(()))),
        }
    }

    /// Starts a request for entropy.
    pub fn request_entropy(&self) -> (task: Task)
        ensures
            task == (Task { op: Op::Init, pc: Pc::RequestClaim }),
    {
        Task { op: Op::Init, pc: Pc::RequestClaim }
    }

    /// Starts a read.
    pub fn read(&self, can_wait: bool) -> (task: Task)
        ensures
            task == (Task { op: Op::Read { can_wait }, pc: Pc::ReadEntry }),
    {
        Task { op: Op::Read { can_wait }, pc: Pc::ReadEntry }
    }

    /// What has to be done when the generator is no longer used: a reader that waits is woken.
    pub fn cleanup(&self) -> (call: Call)
        ensures
            call == Call::Complete,
    {
        Call::Complete
    }
}

impl Task {
    /// Makes the next step of the operation on the driver data `rng`, with `buf` as the
    /// destination of a read, and says what comes after it.
    pub fn step(&mut self, rng: &mut VirtioRngInner, buf: &mut Buffer, reply: Reply<'_>) -> (action:
        Action)
        requires
            old(self).wf(old(buf).room()),
            old(rng).wf(),
            expects(old(self).pc, reply),
        ensures
            *final(rng) == (VirtioRngInner {
                state: next_state(old(self).pc, old(rng).state, reply),
                ..*old(rng)
            }),
            final(self).op == old(self).op,
            (final(self).pc, action) == outcome(
                old(self).op,
                old(self).pc,
                old(rng).env(),
                old(rng).state,
                old(buf).room(),
                reply,
            ),
            final(buf)@ == old(buf)@ + delivered(old(self).pc, reply),
            final(buf).capacity() == old(buf).capacity(),
            final(buf).room() == old(buf).room() - delivered(old(self).pc, reply).len(),
            final(self).wf(final(buf).room()),
            final(rng).wf(),
    {
        let task: Task = *self;
        let (pc, action) = match task.pc {
            Pc::CopyEntry | Pc::CopyFetch { .. } | Pc::CopyCommit { .. } => rng.copy_data_step(
                &task,
                buf,
                reply,
            ),
            Pc::RequestClaim
            | Pc::RequestCheck
            | Pc::RequestReset
            | Pc::RequestAdded
            | Pc::RequestKicked => rng.request_entropy_step(&task, buf, reply),
            Pc::ReadEntry | Pc::Waiting | Pc::Woken => rng.read_step(&task, reply),
            Pc::CallbackAvail { .. } | Pc::CallbackRelease | Pc::CallbackCompleted => {
                rng.vq_callback_step(&task)
            },
            _ => rng.remove_step(&task),
        };
        assert((pc, action) == outcome(
            task.op,
            task.pc,
            old(rng).env(),
            old(rng).state,
            old(buf).room(),
            reply,
        ));
        self.pc = pc;
        action
    }
}

/// A generator that has been set up asks the device for a whole buffer at a time, at an address
/// that is not null: a copy never fails for want of the buffer.
pub proof fn law_buffer_is_present(
    rng: HwRng,
    name: Seq<char>,
    vq: Virtqueues,
    buf: EntropyBuffer,
    token: usize,
)
    requires
        rng.made_of(name, vq, buf, token),
    ensures
        rng.inner.env().base != 0,
        rng.inner.env().base == buf.addr,
        rng.inner.env().add.sg.addr == rng.inner.env().base,
        rng.inner.env().add.sg.length == DATA_BUF_SIZE,
        rng.inner.env().add.sg.length == 64,
        rng.inner.env().add.num == 1,
        rng.inner.env().add.data == token,
        rng.inner.env().add.gfp == Flags::Kernel,
        forall|op: Op, state: RngState, room: nat|
            #[trigger] outcome(
                op,
                Pc::CopyEntry,
                rng.inner.env(),
                state,
                room,
                Reply::Resume,
            ).1 == Action::Continue,
{
}

/// Whatever the shared words are, operations read the buffer at its address, and hand it to the
/// device as one entry, under the token, with memory that may be waited for.
pub proof fn law_fixed_parts(rng: VirtioRngInner)
    ensures
        rng.env().base == rng.sg.buf().addr,
        rng.env().add.sg == rng.sg.entry(),
        rng.env().add.num == 1,
        rng.env().add.data == rng.token,
        rng.env().add.gfp == Flags::Kernel,
{
}

/// The operations of a generator begin where they should: a read by looking whether the device has
/// been removed, a request by claiming the buffer. When the generator is no longer used, a reader
/// is woken.
pub proof fn law_operations_of_a_generator(
    rng: &VirtioRngInner,
    can_wait: bool,
    read: Task,
    request: Task,
    cleanup: Call,
)
    requires
        call_ensures(VirtioRngInner::read, (rng, can_wait), read),
        call_ensures(VirtioRngInner::request_entropy, (rng,), request),
        call_ensures(VirtioRngInner::cleanup, (rng,), cleanup),
    ensures
        read.op == (Op::Read { can_wait }),
        read.pc is ReadEntry,
        request.op is Init,
        request.pc is RequestClaim,
        cleanup is Complete,
{
}

} // verus!
