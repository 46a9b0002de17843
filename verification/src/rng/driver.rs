//! The entropy driver as a virtio driver.
use core::marker::PhantomData;

use vstd::prelude::*;

use crate::device::{
    Core, Device, DeviceCall, DeviceId, FindVqs, RawDeviceId, VIRTIO_DEV_ANY_ID,
};
use crate::driver::{Adapter, Callback, CallbackKind, Driver, DriverCall, DriverEntry};
use crate::error::{law_error_codes, AllocError, Allocation, Error, ENOMEM};
use crate::id::VirtioID;
use crate::memory::{AllocRequest, Flags, Item};
use crate::rng::inner::{
    setup_error, EntropyBuffer, Failure, HwRng, VirtioRngInner, DATA_BUF_SIZE,
};
use crate::rng::name::{device_name, name_of};
use crate::rng::task::{Call, Op, Pc, Task};
use crate::virtqueue::{
    law_which_buffers_have_entries, mapped, table_request, UsedCallback, Virtqueue, VirtqueueInfo,
    Virtqueues,
};

verus! {

/// What has been answered so far to what a probe asked for once it had virtqueues. What has not
/// been asked for yet has no answer.
#[derive(Copy, Clone)]
pub struct ProbeAnswers {
    /// Whether the name of the generator could be made a string of the core.
    pub name: Option<Result<(), Error>>,
    /// The memory for the generator.
    pub generator: Option<Allocation>,
    /// The memory for the buffer.
    pub buf: Option<Result<EntropyBuffer, AllocError>>,
    /// The memory for the table over the buffer.
    pub table: Option<Allocation>,
    /// The memory for the token.
    pub token: Option<Result<usize, AllocError>>,
    /// Whether the core could set up the generator around the driver data.
    pub setup: Option<Result<(), Error>>,
}

/// What a probe asks for next.
#[derive(Copy, Clone, PartialEq, Eq, Structural, Debug)]
pub enum ProbeAsk {
    /// The virtqueues: see [`VirtioRngDriver::discover`].
    Discovery,
    /// A string of the core with the text of [`device_name`].
    Name,
    /// Memory for the generator.
    Generator(AllocRequest),
    /// Memory for the buffer.
    Buffer(AllocRequest),
    /// Memory for the table over the buffer.
    Table(AllocRequest),
    /// Memory for the token.
    Token(AllocRequest),
    /// A generator around the driver data.
    Setup,
    /// Nothing: [`VirtioRngDriver::probe`] takes the answers.
    Nothing,
}

impl ProbeAnswers {
    /// No answer.
    pub fn none() -> (answers: ProbeAnswers)
        ensures
            answers.name is None,
            answers.generator is None,
            answers.buf is None,
            answers.table is None,
            answers.token is None,
            answers.setup is None,
    {
        ProbeAnswers {
            name: None,
            generator: None,
            buf: None,
            table: None,
            token: None,
            setup: None,
        }
    }

    /// What is asked for after these answers, when virtqueues have been found. A refusal ends the
    /// probe; so does a buffer that no table can be made over.
    pub open spec fn ask(self) -> ProbeAsk {
        match self.name {
            None => ProbeAsk::Name,
            Some(Err(_)) => ProbeAsk::Nothing,
            Some(Ok(_)) => match self.generator {
                None => ProbeAsk::Generator(
                    AllocRequest { item: Item::Generator, count: 1, gfp: Flags::Kernel },
                ),
                Some(Err(_)) => ProbeAsk::Nothing,
                Some(Ok(_)) => self.ask_inner(),
            },
        }
    }

    /// What is asked for the driver data: a buffer of zero bytes, a table over it and a token, and
    /// then a generator around them.
    pub open spec fn ask_inner(self) -> ProbeAsk {
        match self.buf {
            None => ProbeAsk::Buffer(
                AllocRequest { item: Item::ZeroByte, count: DATA_BUF_SIZE, gfp: Flags::Kernel },
            ),
            Some(Err(_)) => ProbeAsk::Nothing,
            Some(Ok(buf)) => match self.table {
                None => ProbeAsk::Table(table_request(Flags::Kernel)),
                Some(table) => if mapped(buf, table) is Err {
                    ProbeAsk::Nothing
                } else {
                    match self.token {
                        None => ProbeAsk::Token(
                            AllocRequest { item: Item::Token, count: 1, gfp: Flags::Kernel },
                        ),
                        Some(Err(_)) => ProbeAsk::Nothing,
                        Some(Ok(_)) => match self.setup {
                            None => ProbeAsk::Setup,
                            Some(_) => ProbeAsk::Nothing,
                        },
                    }
                },
            },
        }
    }

    /// Why a device for which virtqueues have been found cannot be probed, if so: the first
    /// refusal decides.
    pub open spec fn error(self) -> Option<Error> {
        match (self.name, self.generator) {
            (Some(Err(error)), _) => Some(error),
            (_, Some(Err(_))) => Some(Error::of_errno(ENOMEM)),
            _ => match setup_error(self.buf->0, self.table->0, self.token->0) {
                Some(error) => Some(error),
                None => match self.setup {
                    Some(Err(error)) => Some(error),
                    _ => None,
                },
            },
        }
    }
}

/// What a probe asks for next. `found` is how the discovery of virtqueues ended, if it has.
pub open spec fn next_ask(
    found: Option<&Result<Virtqueues, Error>>,
    answers: ProbeAnswers,
) -> ProbeAsk {
    match found {
        None => ProbeAsk::Discovery,
        Some(Err(_)) => ProbeAsk::Nothing,
        Some(Ok(_)) => answers.ask(),
    }
}

impl ProbeAnswers {
    /// These answers, and a refusal of what is asked for next. `error` is why, where the core
    /// refuses.
    pub open spec fn refused(self, error: Error) -> ProbeAnswers {
        match self.ask() {
            ProbeAsk::Name => ProbeAnswers { name: Some(Err(error)), ..self },
            ProbeAsk::Generator(_) => ProbeAnswers { generator: Some(Err(AllocError)), ..self },
            ProbeAsk::Buffer(_) => ProbeAnswers { buf: Some(Err(AllocError)), ..self },
            ProbeAsk::Table(_) => ProbeAnswers { table: Some(Err(AllocError)), ..self },
            ProbeAsk::Token(_) => ProbeAnswers { token: Some(Err(AllocError)), ..self },
            ProbeAsk::Setup => ProbeAnswers { setup: Some(Err(error)), ..self },
            _ => self,
        }
    }
}

/// A probe asks for the virtqueues, the name, the generator, the buffer, its table, the token and
/// the set-up of the generator, in this order, and then for nothing.
pub proof fn law_probe_asks_in_order(
    found: &Result<Virtqueues, Error>,
    buf: EntropyBuffer,
    token: usize,
    answers: ProbeAnswers,
)
    requires
        found is Ok,
        buf.addr != 0,
        answers.name is None,
        answers.generator is None,
        answers.buf is None,
        answers.table is None,
        answers.token is None,
        answers.setup is None,
    ensures
        ({
            let gfp = Flags::Kernel;
            let named = ProbeAnswers { name: Some(Ok(())), ..answers };
            let roomy = ProbeAnswers { generator: Some(Ok(())), ..named };
            let buffered = ProbeAnswers { buf: Some(Ok(buf)), ..roomy };
            let tabled = ProbeAnswers { table: Some(Ok(())), ..buffered };
            let marked = ProbeAnswers { token: Some(Ok(token)), ..tabled };
            let complete = ProbeAnswers { setup: Some(Ok(())), ..marked };
            &&& next_ask(None, answers) == ProbeAsk::Discovery
            &&& next_ask(Some(found), answers) == ProbeAsk::Name
            &&& next_ask(Some(found), named) == ProbeAsk::Generator(
                AllocRequest { item: Item::Generator, count: 1, gfp },
            )
            &&& next_ask(Some(found), roomy) == ProbeAsk::Buffer(
                AllocRequest { item: Item::ZeroByte, count: DATA_BUF_SIZE, gfp },
            )
            &&& next_ask(Some(found), buffered) == ProbeAsk::Table(
                AllocRequest { item: Item::SgTable, count: 1, gfp },
            )
            &&& next_ask(Some(found), tabled) == ProbeAsk::Token(
                AllocRequest { item: Item::Token, count: 1, gfp },
            )
            &&& next_ask(Some(found), marked) == ProbeAsk::Setup
            &&& next_ask(Some(found), complete) == ProbeAsk::Nothing
            &&& complete.error() is None
        }),
{
}

/// Once anything is refused, a probe asks for nothing more, and fails.
pub proof fn law_refusal_ends_the_probe(
    found: &Result<Virtqueues, Error>,
    answers: ProbeAnswers,
    error: Error,
)
    requires
        answers.ask() !is Nothing,
    ensures
        next_ask(Some(found), answers.refused(error)) == ProbeAsk::Nothing,
        answers.refused(error).error() is Some,
{
}

/// The driver of one device.
pub struct VirtioRngDriver {
    pub inner: HwRng,
}

impl VirtioRngDriver {
    /// The driver does not validate devices.
    pub const HAS_VALIDATE: bool = false;

    /// The driver registers its generator once a device has been probed.
    pub const HAS_SCAN: bool = true;

    /// The driver does not follow changes of the configuration.
    pub const HAS_CONFIG_CHANGED: bool = false;

    /// The driver does nothing before a reset.
    pub const HAS_RESET_PREPARE: bool = false;

    /// The driver does nothing after a reset.
    pub const HAS_RESET_DONE: bool = false;

    /// The driver leaves the shutdown to the core.
    pub const HAS_SHUTDOWN: bool = false;

    /// The one device id that the driver supports.
    pub open spec fn supported() -> DeviceId {
        DeviceId(RawDeviceId { device: VirtioID::Rng.number(), vendor: VIRTIO_DEV_ANY_ID })
    }

    /// Whether `T` declares itself as this driver does.
    pub open spec fn declared_by<T: Driver>() -> bool {
        &&& T::HAS_VALIDATE == VirtioRngDriver::HAS_VALIDATE
        &&& T::HAS_SCAN == VirtioRngDriver::HAS_SCAN
        &&& T::HAS_CONFIG_CHANGED == VirtioRngDriver::HAS_CONFIG_CHANGED
        &&& T::HAS_RESET_PREPARE == VirtioRngDriver::HAS_RESET_PREPARE
        &&& T::HAS_RESET_DONE == VirtioRngDriver::HAS_RESET_DONE
        &&& T::HAS_SHUTDOWN == VirtioRngDriver::HAS_SHUTDOWN
        &&& T::ID_TABLE@.len() == 1
        &&& T::ID_TABLE@[0].0 == VirtioRngDriver::supported()
    }

    /// The table of device ids supported by the driver.
    pub fn id_table() -> (table: Vec<(DeviceId, ())>)
        ensures
            table@ == seq![(VirtioRngDriver::supported(), ())],
    {
        let mut table: Vec<(DeviceId, ())> = Vec::new();
        table.push((DeviceId::new(VirtioID::Rng), ()));
        table
    }

    /// Fills in the entry of the driver and registers it, on behalf of the module at the address
    /// `module`. `T` is the driver as the core sees it.
    pub fn register<T: Driver>(entry: &mut DriverEntry<T>, module: usize) -> (call: DriverCall)
        requires
            VirtioRngDriver::declared_by::<T>(),
        ensures
            call == (DriverCall::Register { module }),
            final(entry).name matches Some(name) && name@ == "virtio_rng"@,
            final(entry).id_table == Some(T::ID_TABLE),
            final(entry).probe == Some(
                Callback::<T> { kind: CallbackKind::Probe, driver: PhantomData },
            ),
            final(entry).remove == Some(
                Callback::<T> { kind: CallbackKind::Remove, driver: PhantomData },
            ),
            final(entry).scan == Some(
                Callback::<T> { kind: CallbackKind::Scan, driver: PhantomData },
            ),
            final(entry).validate == old(entry).validate,
            final(entry).config_changed == old(entry).config_changed,
            final(entry).reset_prepare == old(entry).reset_prepare,
            final(entry).reset_done == old(entry).reset_done,
            final(entry).shutdown == old(entry).shutdown,
    {
        Adapter::register(entry, "virtio_rng", module)
    }

    /// Whether `info` describes the virtqueues of the driver: one request queue without a context.
    pub open spec fn describes<T: Driver>(info: Seq<VirtqueueInfo<T>>) -> bool {
        &&& info.len() == 1
        &&& info[0].name@ == "requestq"@
        &&& info[0].ctx == false
        &&& info[0].callback == Some(UsedCallback::<T> { driver: PhantomData })
    }

    /// The virtqueues that the driver needs.
    pub fn vqs_info<T: Driver>() -> (info: Vec<VirtqueueInfo<T>>)
        ensures
            VirtioRngDriver::describes(info@),
    {
        let mut info: Vec<VirtqueueInfo<T>> = Vec::new();
        info.push(VirtqueueInfo::new("requestq", false));
        info
    }

    /// Begins the discovery of the virtqueues of `vdev`. `info` is what
    /// [`VirtioRngDriver::vqs_info`] returned.
    pub fn discover<'a, T: Driver>(vdev: &Device<Core>, info: &'a [VirtqueueInfo<T>]) -> (step:
        FindVqs<'a, T>)
        requires
            VirtioRngDriver::describes(info@),
        ensures
            step == FindVqs::start(info, Flags::Kernel),
            step is Slots,
    {
        vdev.find_vqs(info, Flags::Kernel)
    }

    /// What the probe asks for next. `found` is how the discovery of virtqueues ended, if it has.
    pub fn ask(found: Option<&Result<Virtqueues, Error>>, answers: &ProbeAnswers) -> (ask: ProbeAsk)
        ensures
            ask == next_ask(found, *answers),
            ask is Discovery <==> found is None,
    {
        let gfp = Flags::Kernel;
        match found {
            None => {
                return ProbeAsk::Discovery;
            },
            Some(Err(_)) => {
                return ProbeAsk::Nothing;
            },
            Some(Ok(_)) => {},
        }
        match answers.name {
            None => {
                return ProbeAsk::Name;
            },
            Some(Err(_)) => {
                return ProbeAsk::Nothing;
            },
            Some(Ok(())) => {},
        }
        match answers.generator {
            None => {
                return ProbeAsk::Generator(AllocRequest { item: Item::Generator, count: 1, gfp });
            },
            Some(Err(_)) => {
                return ProbeAsk::Nothing;
            },
            Some(Ok(())) => {},
        }
        let buf = match answers.buf {
            None => {
                return ProbeAsk::Buffer(
                    AllocRequest { item: Item::ZeroByte, count: DATA_BUF_SIZE, gfp },
                );
            },
            Some(Err(_)) => {
                return ProbeAsk::Nothing;
            },
            Some(Ok(buf)) => buf,
        };
        match answers.table {
            None => {
                return ProbeAsk::Table(AllocRequest { item: Item::SgTable, count: 1, gfp });
            },
            Some(Err(_)) => {
                return ProbeAsk::Nothing;
            },
            Some(Ok(())) => {},
        }
        if buf.addr == 0 {
            return ProbeAsk::Nothing;
        }
        match answers.token {
            None => ProbeAsk::Token(AllocRequest { item: Item::Token, count: 1, gfp }),
            Some(Err(_)) => ProbeAsk::Nothing,
            Some(Ok(_)) => match answers.setup {
                None => ProbeAsk::Setup,
                Some(_) => ProbeAsk::Nothing,
            },
        }
    }

    /// Sets up the driver of `vdev`. `vqs` is how the discovery of its virtqueues ended, and
    /// `answers` what was answered to all that [`VirtioRngDriver::ask`] asked for.
    pub fn probe(
        vdev: &Device<Core>,
        vqs: Result<Virtqueues, Error>,
        answers: ProbeAnswers,
    ) -> (made: Result<VirtioRngDriver, Failure>)
        requires
            next_ask(Some(&vqs), answers) == ProbeAsk::Nothing,
            answers.token matches Some(Ok(addr)) ==> addr != 0,
        ensures
            match vqs {
                Err(error) => made matches Err(failure) && failure.error == error
                    && failure.teardown@.len() == 0,
                Ok(vq) => match answers.error() {
                    Some(error) => made matches Err(failure) && failure.error == error
                        && failure.teardown@ == vq.teardown(),
                    None => made matches Ok(driver) && driver.inner.made_of(
                        name_of(vdev.raw.index),
                        vq,
                        answers.buf->0->Ok_0,
                        answers.token->0->Ok_0,
                    ) && driver.inner.inner.wf(),
                },
            },
    {
        let vqs = match vqs {
            Ok(vqs) => vqs,
            Err(error) => {
                return Err(Failure { error, teardown: Vec::new() });
            },
        };
        if let Some(Err(error)) = answers.name {
            return Err(Failure::giving_up(&vqs, error));
        }
        let name = device_name(vdev.index());
        if let Some(Err(e)) = answers.generator {
            return Err(Failure::giving_up(&vqs, Error::from(e)));
        }
        // What was not asked for, because something was refused before, decides nothing.
        let buf = answers.buf.unwrap();
        let table = match answers.table {
            Some(table) => table,
            None => Err(AllocError),
        };
        let token = match answers.token {
            Some(token) => token,
            None => Err(AllocError),
        };
        let rng = match VirtioRngInner::new(name, vqs, buf, table, token) {
            Ok(rng) => rng,
            Err(failure) => {
                return Err(failure);
            },
        };
        if let Some(Err(error)) = answers.setup {
            return Err(Failure::giving_up(&rng.inner.vq, error));
        }
        Ok(VirtioRngDriver { inner: rng })
    }

    /// Starts the first request for entropy.
    pub fn init(&self) -> (task: Task)
        ensures
            task == (Task { op: Op::Init, pc: Pc::RequestClaim }),
    {
        self.inner.inner.request_entropy()
    }

    /// What is done once the device has been probed and initialized: the generator is registered.
    pub fn scan(&self) -> (call: Call)
        ensures
            call == Call::Register,
    {
        Call::Register
    }

    /// Starts the accounting of a buffer that the device has used. `data` and `len` are what the
    /// core answered to `virtqueue_get_buf`; without a buffer there is nothing to do.
    pub fn vq_callback(&self, vq: &Virtqueue, data: usize, len: u32) -> (task: Option<Task>)
        ensures
            data == 0 ==> task is None,
            data != 0 ==> task == Some(Task { op: Op::Callback, pc: Pc::CallbackAvail { len } }),
    {
        match vq.get_buf(data, len) {
            Some((_, len)) => Some(Task { op: Op::Callback, pc: Pc::CallbackAvail { len } }),
            None => None,
        }
    }

    /// Starts the removal of the device.
    pub fn remove(&self) -> (task: Task)
        ensures
            task == (Task { op: Op::Remove, pc: Pc::RemoveMark }),
    {
        Task { op: Op::Remove, pc: Pc::RemoveMark }
    }
}

/// The driver supports entropy devices, whoever their vendor is.
pub proof fn law_supported_devices(table: Vec<(DeviceId, ())>)
    requires
        call_ensures(VirtioRngDriver::id_table, (), table),
    ensures
        table@.len() == 1,
        table@[0].0.0.device == 4,
        table@[0].0.0.vendor == 0xffff_ffff,
        VirtioRngDriver::supported() == table@[0].0,
{
}

/// A driver declares itself as the entropy driver exactly if it supports the one device id of it
/// and provides the scan, and no other optional callback.
pub proof fn law_declaration<T: Driver>()
    ensures
        VirtioRngDriver::declared_by::<T>() <==> {
            &&& T::HAS_SCAN
            &&& !T::HAS_VALIDATE
            &&& !T::HAS_CONFIG_CHANGED
            &&& !T::HAS_RESET_PREPARE
            &&& !T::HAS_RESET_DONE
            &&& !T::HAS_SHUTDOWN
            &&& T::ID_TABLE@.len() == 1
            &&& T::ID_TABLE@[0].0.0.device == 4
            &&& T::ID_TABLE@[0].0.0.vendor == 0xffff_ffff
        },
{
}

/// The driver discovers one virtqueue, called `requestq`, whose buffers carry no context and whose
/// callback is that of the driver; and it makes room for that one, with memory that may be waited
/// for.
pub proof fn law_discovery_of_the_request_queue<'a, T: Driver>(
    vdev: &Device<Core>,
    described: Vec<VirtqueueInfo<T>>,
    info: &'a [VirtqueueInfo<T>],
    step: FindVqs<'a, T>,
)
    requires
        call_ensures(VirtioRngDriver::vqs_info::<T>, (), described),
        info@ == described@,
        call_ensures(VirtioRngDriver::discover::<T>, (vdev, info), step),
    ensures
        described@.len() == 1,
        described@[0].name@ == "requestq"@,
        !described@[0].ctx,
        described@[0].callback is Some,
        VirtioRngDriver::describes(info@),
        step is Slots,
        step->Slots_request.item == Item::VirtqueuePointer,
        step->Slots_request.count == 1,
        step->Slots_request.gfp == Flags::Kernel,
        step->Slots_info == info,
{
}

/// The operations of the driver begin where they should: the initialization with a request, the
/// removal with the mark, the callback with the number of bytes that the core reports, if it hands
/// out a buffer. Scanning registers the generator.
pub proof fn law_operations_of_the_driver(
    driver: &VirtioRngDriver,
    vq: &Virtqueue,
    data: usize,
    len: u32,
    init: Task,
    scan: Call,
    used: Option<Task>,
    remove: Task,
)
    requires
        call_ensures(VirtioRngDriver::init, (driver,), init),
        call_ensures(VirtioRngDriver::scan, (driver,), scan),
        call_ensures(VirtioRngDriver::vq_callback, (driver, vq, data, len), used),
        call_ensures(VirtioRngDriver::remove, (driver,), remove),
    ensures
        init.op is Init,
        init.pc is RequestClaim,
        scan is Register,
        used is Some <==> data != 0,
        used is Some ==> used->0.op is Callback,
        used is Some ==> used->0.pc == (Pc::CallbackAvail { len }),
        remove.op is Remove,
        remove.pc is RemoveMark,
{
}

/// What a probe asks for: the virtqueues; once they are found a name; then memory for the
/// generator, for a buffer of 64 zero bytes, for a table over it and for a token, each of which
/// may be waited for; and then the set-up of the generator. It asks for each exactly when all
/// before it is granted.
pub proof fn law_what_a_probe_asks_for(
    found: Option<&Result<Virtqueues, Error>>,
    answers: &ProbeAnswers,
    ask: ProbeAsk,
)
    requires
        call_ensures(VirtioRngDriver::ask, (found, answers), ask),
    ensures
        ({
            let discovered = found is Some && *found->0 is Ok;
            let named = discovered && answers.name is Some && answers.name->0 is Ok;
            let roomy = named && answers.generator is Some && answers.generator->0 is Ok;
            let buffered = roomy && answers.buf is Some && answers.buf->0 is Ok;
            let tabled = buffered && answers.table is Some && answers.table->0 is Ok
                && answers.buf->0->Ok_0.addr != 0;
            let marked = tabled && answers.token is Some && answers.token->0 is Ok;
            &&& ask is Discovery <==> found is None
            &&& ask is Name <==> discovered && answers.name is None
            &&& ask is Generator <==> named && answers.generator is None
            &&& ask is Buffer <==> roomy && answers.buf is None
            &&& ask is Table <==> buffered && answers.table is None
            &&& ask is Token <==> tabled && answers.token is None
            &&& ask is Setup <==> marked && answers.setup is None
        }),
        ask matches ProbeAsk::Generator(request) ==> {
            &&& request.item == Item::Generator
            &&& request.count == 1
            &&& request.gfp == Flags::Kernel
        },
        ask matches ProbeAsk::Buffer(request) ==> {
            &&& request.item == Item::ZeroByte
            &&& request.count == 64
            &&& request.gfp == Flags::Kernel
        },
        ask matches ProbeAsk::Table(request) ==> {
            &&& request.item == Item::SgTable
            &&& request.count == 1
            &&& request.gfp == Flags::Kernel
        },
        ask matches ProbeAsk::Token(request) ==> {
            &&& request.item == Item::Token
            &&& request.count == 1
            &&& request.gfp == Flags::Kernel
        },
{
    if let Some(Ok(buf)) = answers.buf {
        law_which_buffers_have_entries(buf);
    }
}

/// A probe succeeds exactly if the virtqueues were found and everything that it asked for was
/// granted. Then the generator is called after the index of the device, has the virtqueues, the
/// buffer and the token that were granted, and is idle.
pub proof fn law_when_a_probe_succeeds(
    vdev: &Device<Core>,
    vqs: Result<Virtqueues, Error>,
    answers: ProbeAnswers,
    made: Result<VirtioRngDriver, Failure>,
)
    requires
        next_ask(Some(&vqs), answers) is Nothing,
        answers.token matches Some(Ok(addr)) ==> addr != 0,
        call_ensures(VirtioRngDriver::probe, (vdev, vqs, answers), made),
    ensures
        made is Ok <==> {
            &&& vqs is Ok
            &&& answers.name is Some && answers.name->0 is Ok
            &&& answers.generator is Some && answers.generator->0 is Ok
            &&& answers.buf is Some && answers.buf->0 is Ok && answers.buf->0->Ok_0.addr != 0
            &&& answers.table is Some && answers.table->0 is Ok
            &&& answers.token is Some && answers.token->0 is Ok
            &&& answers.setup is Some && answers.setup->0 is Ok
        },
        made is Ok ==> {
            let rng = made->Ok_0.inner;
            &&& rng.name@ == name_of(vdev.raw.index)
            &&& rng.quality == 0
            &&& rng.inner.vq == vqs->Ok_0
            &&& rng.inner.sg.buf() == answers.buf->0->Ok_0
            &&& rng.inner.sg.entry().addr == answers.buf->0->Ok_0.addr
            &&& rng.inner.sg.entry().length == 64
            &&& rng.inner.token == answers.token->0->Ok_0
            &&& rng.inner.state.data_idx == 0
            &&& rng.inner.state.data_avail == 0
            &&& !rng.inner.state.removed
            &&& !rng.inner.state.in_flight
        },
{
    if let Some(Ok(buf)) = answers.buf {
        law_which_buffers_have_entries(buf);
    }
}

/// A probe that fails reports why: the error of the discovery, of the name or of the set-up, that
/// there is no memory, or that the buffer has no address. Virtqueues that had been found are given
/// up: their device is reset and they are deleted.
pub proof fn law_why_a_probe_fails(
    vdev: &Device<Core>,
    vqs: Result<Virtqueues, Error>,
    answers: ProbeAnswers,
    made: Result<VirtioRngDriver, Failure>,
)
    requires
        next_ask(Some(&vqs), answers) is Nothing,
        answers.token matches Some(Ok(addr)) ==> addr != 0,
        call_ensures(VirtioRngDriver::probe, (vdev, vqs, answers), made),
        made is Err,
    ensures
        vqs is Err ==> {
            &&& made->Err_0.error == vqs->Err_0
            &&& made->Err_0.teardown@ == Seq::<DeviceCall>::empty()
        },
        vqs is Ok ==> made->Err_0.teardown@ == match vqs->Ok_0@[0].raw.vdev {
            None => Seq::<DeviceCall>::empty(),
            Some(dev) => if dev.raw.has_del_vqs {
                seq![DeviceCall::Reset, DeviceCall::DelVqs]
            } else {
                seq![DeviceCall::Reset]
            },
        },
        vqs is Ok ==> ({
            let error = made->Err_0.error;
            if answers.name->0 is Err {
                error == answers.name->0->Err_0
            } else if answers.generator->0 is Err || answers.buf->0 is Err || answers.table->0
                is Err {
                error.code() == -12
            } else if answers.buf->0->Ok_0.addr == 0 {
                error.code() == -22
            } else if answers.token->0 is Err {
                error.code() == -12
            } else {
                error == answers.setup->0->Err_0
            }
        }),
{
    law_error_codes(ENOMEM);
    if let Some(Ok(buf)) = answers.buf {
        law_which_buffers_have_entries(buf);
    }
}

/// The entropy driver is registered as `virtio_rng`, with callbacks for the probe, the removal and
/// the scan. The others stay as they were.
pub proof fn law_registration_of_the_driver<T: Driver>(
    entry: &mut DriverEntry<T>,
    module: usize,
    call: DriverCall,
)
    requires
        VirtioRngDriver::declared_by::<T>(),
        call_ensures(VirtioRngDriver::register::<T>, (entry, module), call),
    ensures
        call == (DriverCall::Register { module }),
        final(entry).name is Some && final(entry).name->0@ == "virtio_rng"@,
        final(entry).id_table == Some(T::ID_TABLE),
        final(entry).probe is Some && final(entry).probe->0.kind is Probe,
        final(entry).remove is Some && final(entry).remove->0.kind is Remove,
        final(entry).scan is Some && final(entry).scan->0.kind is Scan,
        final(entry).validate == old(entry).validate,
        final(entry).config_changed == old(entry).config_changed,
        final(entry).reset_prepare == old(entry).reset_prepare,
        final(entry).reset_done == old(entry).reset_done,
        final(entry).shutdown == old(entry).shutdown,
{
}

} // verus!
