use virtio::device::{Bound, Core, DeviceCall, FindVqs, RawDevice, RawDeviceId};
use virtio::driver::{CallbackKind, DriverCall, DriverEntry};
use virtio::error::{AllocError, Error, EINVAL, EIO, ENODEV, ENOMEM};
use virtio::id::VIRTIO_ID_RNG;
use virtio::memory::{AllocRequest, Flags, Item};
use virtio::rng::driver::{ProbeAnswers, ProbeAsk, VirtioRngDriver};
use virtio::rng::inner::{
    Buffer, EntropyBuffer, HwRng, RngState, VirtioRngInner, DATA_BUF_SIZE,
};
use virtio::rng::name::device_name;
use virtio::rng::task::{Action, Call, Op, Pc, Reply, Task};
use virtio::virtqueue::{
    AddInbuf, RawVirtqueue, Scatterlist, Virtqueue, VirtqueueCall, Virtqueues,
};
use virtio::{Device, DeviceId, Driver, VIRTIO_DEV_ANY_ID};

const ADDR: usize = 0x8000;
const TOKEN: usize = 0x9000;
const ERESTARTSYS: i32 = -512;

struct Rng;

impl Driver for Rng {
    type IdInfo = ();

    const HAS_VALIDATE: bool = VirtioRngDriver::HAS_VALIDATE;
    const HAS_SCAN: bool = VirtioRngDriver::HAS_SCAN;
    const HAS_CONFIG_CHANGED: bool = VirtioRngDriver::HAS_CONFIG_CHANGED;
    const HAS_RESET_PREPARE: bool = VirtioRngDriver::HAS_RESET_PREPARE;
    const HAS_RESET_DONE: bool = VirtioRngDriver::HAS_RESET_DONE;
    const HAS_SHUTDOWN: bool = VirtioRngDriver::HAS_SHUTDOWN;
    const ID_TABLE: &'static [(DeviceId, ())] =
        &[(DeviceId(RawDeviceId { device: VIRTIO_ID_RNG, vendor: VIRTIO_DEV_ANY_ID }), ())];

    fn probe(_dev: &Device<Core>) -> Result<Self, Error> {
        Ok(Rng)
    }

    fn init(&self, _dev: &Device<Bound>) -> Result<(), Error> {
        Ok(())
    }

    fn vq_callback(&self, _vq: &Virtqueue, _dev: &Device<Bound>) {}
}

fn raw_device(index: i32) -> RawDevice {
    RawDevice {
        id: RawDeviceId { device: 4, vendor: 0 },
        index,
        has_del_vqs: true,
    }
}

fn queues() -> Virtqueues {
    Virtqueues::from_found(vec![Virtqueue::from_raw(RawVirtqueue {
        vdev: Some(Device::from_raw(raw_device(0))),
        name: Some("requestq".to_string()),
        index: 0,
    })])
}

fn errno(error: i32) -> Error {
    Error::from_errno(error)
}

fn answers() -> ProbeAnswers {
    ProbeAnswers {
        name: Some(Ok(())),
        generator: Some(Ok(())),
        buf: Some(Ok(EntropyBuffer { addr: ADDR })),
        table: Some(Ok(())),
        token: Some(Ok(TOKEN)),
        setup: Some(Ok(())),
    }
}

fn generator() -> HwRng {
    let vdev: Device<Core> = Device::from_raw(raw_device(0));
    VirtioRngDriver::probe(&vdev, Ok(queues()), answers()).ok().unwrap().inner
}

fn with_data(idx: u32, avail: u32) -> VirtioRngInner {
    let mut rng = generator().inner;
    rng.state.data_idx = idx;
    rng.state.data_avail = avail;
    rng
}

fn the_buffer() -> AddInbuf {
    AddInbuf {
        sg: Scatterlist { addr: ADDR, length: 64 },
        num: 1,
        data: TOKEN,
        gfp: Flags::Kernel,
    }
}

/// Drives a task to its end with a device whose buffer holds `memory`, and lists its requests.
fn drive(
    rng: &mut VirtioRngInner,
    mut task: Task,
    buf: &mut Buffer,
    memory: &[u8],
    added: Result<(), Error>,
    waits: &[Result<(), Error>],
) -> (Result<(), Error>, Vec<Call>) {
    let mut calls = Vec::new();
    let mut waits = waits.iter();
    let mut action = task.step(rng, buf, Reply::Resume);
    loop {
        action = match action {
            Action::Continue => task.step(rng, buf, Reply::Resume),
            Action::Finish(result) => return (result, calls),
            Action::Call(call) => {
                calls.push(call);
                match call {
                    Call::Fetch { offset, len, .. } => {
                        let from = offset as usize;
                        let bytes = &memory[from..from + len as usize];
                        task.step(rng, buf, Reply::Fetched(bytes))
                    }
                    Call::Add(_) => task.step(rng, buf, Reply::Added(added)),
                    Call::Virtqueue(_) => task.step(rng, buf, Reply::Kicked(true)),
                    Call::Wait => {
                        let woken = *waits.next().unwrap();
                        if woken.is_ok() {
                            let mut callback =
                                Task { op: Op::Callback, pc: Pc::CallbackAvail { len: 64 } };
                            let mut none = Buffer::new(0);
                            for _ in 0..3 {
                                callback.step(rng, &mut none, Reply::Resume);
                            }
                        }
                        task.step(rng, buf, Reply::Waited(woken))
                    }
                    _ => task.step(rng, buf, Reply::Resume),
                }
            }
        };
    }
}

fn bytes() -> Vec<u8> {
    (0..64).collect()
}

#[test]
fn a_probed_generator_is_idle() {
    let vdev: Device<Core> = Device::from_raw(raw_device(12));
    let driver = VirtioRngDriver::probe(&vdev, Ok(queues()), answers()).ok().unwrap();
    assert_eq!(driver.inner.name, "virtio_rng.12");
    assert_eq!(driver.inner.quality, 0);
    assert_eq!(
        driver.inner.inner.state,
        RngState { data_idx: 0, data_avail: 0, removed: false, in_flight: false }
    );
    assert_eq!(driver.inner.inner.token, TOKEN);
    assert_eq!(driver.inner.inner.sg.data(), Some(ADDR));
    assert_eq!(driver.inner.inner.vq.len(), 1);
}

#[test]
fn a_probe_without_virtqueues_fails() {
    let vdev: Device<Core> = Device::from_raw(raw_device(0));
    let made = VirtioRngDriver::probe(&vdev, Err(errno(ENODEV)), ProbeAnswers::none());
    let failure = made.err().unwrap();
    assert_eq!(failure.error, errno(ENODEV));
    assert_eq!(failure.teardown, vec![]);
}

#[test]
fn a_refused_probe_gives_up_the_virtqueues() {
    let vdev: Device<Core> = Device::from_raw(raw_device(0));
    let none = ProbeAnswers::none();
    let named = ProbeAnswers { name: Some(Ok(())), ..none };
    let roomy = ProbeAnswers { generator: Some(Ok(())), ..named };
    let buffered = ProbeAnswers { buf: Some(Ok(EntropyBuffer { addr: ADDR })), ..roomy };
    let tabled = ProbeAnswers { table: Some(Ok(())), ..buffered };
    let marked = ProbeAnswers { token: Some(Ok(TOKEN)), ..tabled };
    let null = ProbeAnswers { buf: Some(Ok(EntropyBuffer { addr: 0 })), ..roomy };
    let cases = [
        (ProbeAnswers { name: Some(Err(errno(EIO))), ..none }, EIO),
        (ProbeAnswers { generator: Some(Err(AllocError)), ..named }, ENOMEM),
        (ProbeAnswers { buf: Some(Err(AllocError)), ..roomy }, ENOMEM),
        (ProbeAnswers { table: Some(Err(AllocError)), ..buffered }, ENOMEM),
        (ProbeAnswers { token: Some(Err(AllocError)), ..tabled }, ENOMEM),
        (ProbeAnswers { setup: Some(Err(errno(ENODEV))), ..marked }, ENODEV),
        (ProbeAnswers { table: Some(Ok(())), ..null }, EINVAL),
    ];
    for (answers, error) in cases {
        assert_eq!(VirtioRngDriver::ask(Some(&Ok(queues())), &answers), ProbeAsk::Nothing);
        let failure = VirtioRngDriver::probe(&vdev, Ok(queues()), answers).err().unwrap();
        assert_eq!(failure.error, errno(error));
        assert_eq!(failure.teardown, vec![DeviceCall::Reset, DeviceCall::DelVqs]);
    }
}

#[test]
fn a_probe_asks_in_order() {
    let gfp = Flags::Kernel;
    let found = Ok(queues());
    let none = ProbeAnswers::none();
    let named = ProbeAnswers { name: Some(Ok(())), ..none };
    let roomy = ProbeAnswers { generator: Some(Ok(())), ..named };
    let buffered = ProbeAnswers { buf: Some(Ok(EntropyBuffer { addr: ADDR })), ..roomy };
    let tabled = ProbeAnswers { table: Some(Ok(())), ..buffered };
    let marked = ProbeAnswers { token: Some(Ok(TOKEN)), ..tabled };
    assert_eq!(VirtioRngDriver::ask(None, &none), ProbeAsk::Discovery);
    let steps = [
        (none, ProbeAsk::Name),
        (named, ProbeAsk::Generator(AllocRequest { item: Item::Generator, count: 1, gfp })),
        (roomy, ProbeAsk::Buffer(AllocRequest { item: Item::ZeroByte, count: 64, gfp })),
        (buffered, ProbeAsk::Table(AllocRequest { item: Item::SgTable, count: 1, gfp })),
        (tabled, ProbeAsk::Token(AllocRequest { item: Item::Token, count: 1, gfp })),
        (marked, ProbeAsk::Setup),
        (answers(), ProbeAsk::Nothing),
    ];
    for (answers, ask) in steps {
        assert_eq!(VirtioRngDriver::ask(Some(&found), &answers), ask);
        let missing = Err(errno(EIO));
        assert_eq!(VirtioRngDriver::ask(Some(&missing), &answers), ProbeAsk::Nothing);
    }
}

#[test]
fn the_request_queue_is_discovered() {
    let vdev: Device<Core> = Device::from_raw(raw_device(0));
    let info = VirtioRngDriver::vqs_info::<Rng>();
    let pointers =
        AllocRequest { item: Item::VirtqueuePointer, count: 1, gfp: Flags::Kernel };
    let step = VirtioRngDriver::discover(&vdev, &info);
    assert!(matches!(step, FindVqs::Slots { request, .. } if request == pointers));
    match step.next(Ok(())).next(Ok(())) {
        FindVqs::Call { nvqs, info } => {
            assert_eq!(nvqs, 1);
            assert_eq!(info[0].name, "requestq");
        }
        _ => panic!("the core has to be asked"),
    }
}

#[test]
fn the_driver_is_registered() {
    let mut entry = DriverEntry::<Rng>::empty();
    let call = VirtioRngDriver::register(&mut entry, 0x77);
    assert_eq!(call, DriverCall::Register { module: 0x77 });
    assert_eq!(entry.name, Some("virtio_rng"));
    assert_eq!(entry.id_table, Some(Rng::ID_TABLE));
    assert_eq!(entry.probe.as_ref().map(|c| c.kind), Some(CallbackKind::Probe));
    assert_eq!(entry.remove.as_ref().map(|c| c.kind), Some(CallbackKind::Remove));
    assert_eq!(entry.scan.as_ref().map(|c| c.kind), Some(CallbackKind::Scan));
    assert!(entry.validate.is_none());
    assert!(entry.config_changed.is_none());
    assert!(entry.reset_prepare.is_none());
    assert!(entry.reset_done.is_none());
    assert!(entry.shutdown.is_none());
}

#[test]
fn names_are_decimal() {
    assert_eq!(device_name(0), "virtio_rng.0");
    assert_eq!(device_name(7), "virtio_rng.7");
    assert_eq!(device_name(10), "virtio_rng.10");
    assert_eq!(device_name(1234567890), "virtio_rng.1234567890");
    assert_eq!(device_name(i32::MAX), "virtio_rng.2147483647");
    assert_eq!(device_name(-1), "virtio_rng.-1");
    assert_eq!(device_name(i32::MIN), "virtio_rng.-2147483648");
}

#[test]
fn the_driver_supports_entropy_devices() {
    assert_eq!(VirtioRngDriver::id_table(), Rng::ID_TABLE);
    let info = VirtioRngDriver::vqs_info::<Rng>();
    assert_eq!(info.len(), 1);
    assert_eq!(info[0].name, "requestq");
    assert!(!info[0].ctx);
    assert!(info[0].callback.is_some());
    assert_eq!(VIRTIO_ID_RNG, 4);
}

#[test]
fn a_request_adds_the_buffer_and_kicks() {
    let mut rng = generator().inner;
    rng.state.data_idx = 9;
    let task = rng.request_entropy();
    let mut buf = Buffer::new(0);
    let (result, calls) = drive(&mut rng, task, &mut buf, &[], Ok(()), &[]);
    assert_eq!(result, Ok(()));
    assert_eq!(
        calls,
        vec![Call::Reinit, Call::Add(the_buffer()), Call::Virtqueue(VirtqueueCall::Kick)]
    );
    assert!(rng.state.in_flight);
    assert_eq!(rng.state.data_idx, 0);
    let task = rng.request_entropy();
    let (result, calls) = drive(&mut rng, task, &mut buf, &[], Ok(()), &[]);
    assert_eq!((result, calls), (Ok(()), vec![]));
}

#[test]
fn a_refused_request_can_be_repeated() {
    let mut rng = generator().inner;
    let task = rng.request_entropy();
    let mut buf = Buffer::new(0);
    let (result, calls) = drive(&mut rng, task, &mut buf, &[], Err(errno(EIO)), &[]);
    assert_eq!(result, Err(errno(EIO)));
    assert_eq!(calls, vec![Call::Reinit, Call::Add(the_buffer())]);
    assert!(!rng.state.in_flight);
    let task = rng.request_entropy();
    let (result, _) = drive(&mut rng, task, &mut buf, &[], Ok(()), &[]);
    assert_eq!(result, Ok(()));
}

#[test]
fn a_request_after_removal_fails() {
    let mut rng = generator().inner;
    rng.state.removed = true;
    let task = rng.request_entropy();
    let mut buf = Buffer::new(0);
    let (result, calls) = drive(&mut rng, task, &mut buf, &[], Ok(()), &[]);
    assert_eq!((result, calls), (Err(errno(ENODEV)), vec![]));
    assert!(rng.state.in_flight);
}

#[test]
fn a_read_takes_part_of_the_data() {
    let mut rng = with_data(10, 20);
    let task = rng.read(false);
    let mut buf = Buffer::new(8);
    let (result, calls) = drive(&mut rng, task, &mut buf, &bytes(), Ok(()), &[]);
    assert_eq!(result, Ok(()));
    assert_eq!(calls, vec![Call::Fetch { addr: ADDR, offset: 10, len: 8 }]);
    assert_eq!(buf.written(), &bytes()[10..18]);
    assert!(buf.is_empty());
    assert_eq!((rng.state.data_idx, rng.state.data_avail), (18, 12));
    assert!(!rng.state.in_flight);
}

#[test]
fn a_read_of_the_last_data_requests_more() {
    let mut rng = with_data(50, 14);
    let task = rng.read(false);
    let mut buf = Buffer::new(32);
    let (result, calls) = drive(&mut rng, task, &mut buf, &bytes(), Ok(()), &[]);
    assert_eq!(result, Ok(()));
    assert_eq!(
        calls,
        vec![
            Call::Fetch { addr: ADDR, offset: 50, len: 14 },
            Call::Reinit,
            Call::Add(the_buffer()),
            Call::Virtqueue(VirtqueueCall::Kick),
        ]
    );
    assert_eq!(buf.written(), &bytes()[50..64]);
    assert_eq!(buf.len(), 18);
    assert_eq!((rng.state.data_idx, rng.state.data_avail), (0, 0));
    assert!(rng.state.in_flight);
}

#[test]
fn a_read_without_data_requests_some() {
    let mut rng = generator().inner;
    let task = rng.read(false);
    let mut buf = Buffer::new(4);
    let (result, calls) = drive(&mut rng, task, &mut buf, &bytes(), Ok(()), &[]);
    assert_eq!(result, Ok(()));
    assert_eq!(calls.len(), 3);
    assert_eq!(buf.written(), &[] as &[u8]);
    assert!(rng.state.in_flight);
}

#[test]
fn a_patient_read_is_filled() {
    let mut rng = with_data(60, 4);
    let task = rng.read(true);
    let mut buf = Buffer::new(100);
    let (result, _) = drive(&mut rng, task, &mut buf, &bytes(), Ok(()), &[Ok(()), Ok(())]);
    assert_eq!(result, Ok(()));
    let mut expected = bytes()[60..].to_vec();
    expected.extend(bytes());
    expected.extend(&bytes()[..32]);
    assert_eq!(buf.written(), &expected[..]);
    assert_eq!((rng.state.data_idx, rng.state.data_avail), (32, 32));
}

#[test]
fn an_interrupted_wait_ends_the_read() {
    let mut rng = generator().inner;
    let task = rng.read(true);
    let mut buf = Buffer::new(4);
    let wait = [Err(errno(ERESTARTSYS))];
    let (result, calls) = drive(&mut rng, task, &mut buf, &bytes(), Ok(()), &wait);
    assert_eq!(result, Err(errno(ERESTARTSYS)));
    assert_eq!(calls.last(), Some(&Call::Wait));
}

#[test]
fn a_read_after_removal_fails() {
    for can_wait in [false, true] {
        let mut rng = with_data(0, 64);
        rng.state.removed = true;
        let task = rng.read(can_wait);
        let mut buf = Buffer::new(4);
        let (result, calls) = drive(&mut rng, task, &mut buf, &bytes(), Ok(()), &[]);
        assert_eq!((result, calls), (Err(errno(ENODEV)), vec![]));
        assert_eq!(buf.len(), 4);
    }
}

#[test]
fn a_read_that_is_woken_by_removal_ends() {
    let mut rng = generator().inner;
    let mut task = rng.read(true);
    let mut buf = Buffer::new(4);
    task.pc = Pc::Waiting;
    rng.state.removed = true;
    let action = task.step(&mut rng, &mut buf, Reply::Waited(Ok(())));
    assert_eq!(action, Action::Finish(Ok(())));
    let mut task = rng.read(true);
    rng.state.removed = false;
    task.pc = Pc::Woken;
    let action = task.step(&mut rng, &mut buf, Reply::Resume);
    assert_eq!(action, Action::Finish(Ok(())));
}

#[test]
fn a_copy_that_is_overtaken_commits_nothing() {
    let mut rng = with_data(0, 64);
    let mut task = rng.read(false);
    let mut buf = Buffer::new(4);
    for _ in 0..2 {
        assert_eq!(task.step(&mut rng, &mut buf, Reply::Resume), Action::Continue);
    }
    assert_eq!(
        task.step(&mut rng, &mut buf, Reply::Resume),
        Action::Call(Call::Fetch { addr: ADDR, offset: 0, len: 4 })
    );
    rng.state.data_avail = 0;
    let action = task.step(&mut rng, &mut buf, Reply::Fetched(&[1, 2, 3, 4]));
    assert_eq!(action, Action::Finish(Ok(())));
    assert_eq!(rng.state.data_avail, 0);
    assert_eq!(buf.written(), &[1, 2, 3, 4]);
}

#[test]
fn the_callback_accounts_for_the_data() {
    for (len, avail) in [(0, 0), (1, 1), (63, 63), (64, 64), (65, 64), (u32::MAX, 64)] {
        let driver = VirtioRngDriver { inner: generator() };
        let task = driver.vq_callback(driver.inner.inner.vq.first(), TOKEN, len).unwrap();
        let mut rng = driver.inner.inner;
        rng.state.in_flight = true;
        let mut buf = Buffer::new(0);
        let (result, calls) = drive(&mut rng, task, &mut buf, &[], Ok(()), &[]);
        assert_eq!((result, calls), (Ok(()), vec![Call::Complete]));
        assert_eq!(rng.state.data_avail, avail);
        assert!(!rng.state.in_flight);
    }
    let driver = VirtioRngDriver { inner: generator() };
    assert_eq!(driver.vq_callback(driver.inner.inner.vq.first(), 0, 64), None);
}

#[test]
fn a_removal_withdraws_the_data() {
    let driver = VirtioRngDriver { inner: generator() };
    let task = driver.remove();
    let mut rng = with_data(3, 9);
    let mut buf = Buffer::new(0);
    let (result, calls) = drive(&mut rng, task, &mut buf, &[], Ok(()), &[]);
    assert_eq!((result, calls), (Ok(()), vec![Call::CompleteAll, Call::Unregister]));
    assert!(rng.state.removed);
    assert_eq!(rng.state.data_avail, 0);
}

#[test]
fn the_other_operations() {
    let driver = VirtioRngDriver { inner: generator() };
    assert_eq!(driver.scan(), Call::Register);
    assert_eq!(driver.init(), Task { op: Op::Init, pc: Pc::RequestClaim });
    assert_eq!(driver.inner.inner.cleanup(), Call::Complete);
    assert_eq!(DATA_BUF_SIZE, 64);
}

#[test]
fn two_requests_add_one_buffer() {
    let mut rng = generator().inner;
    let mut buf = Buffer::new(0);
    let mut first = rng.request_entropy();
    let mut second = rng.request_entropy();
    assert_eq!(first.step(&mut rng, &mut buf, Reply::Resume), Action::Continue);
    assert_eq!(second.step(&mut rng, &mut buf, Reply::Resume), Action::Finish(Ok(())));
    assert_eq!(first.step(&mut rng, &mut buf, Reply::Resume), Action::Call(Call::Reinit));
    assert_eq!(
        first.step(&mut rng, &mut buf, Reply::Resume),
        Action::Call(Call::Add(the_buffer()))
    );
}

#[test]
fn a_buffer_takes_what_it_has_room_for() {
    let mut buf = Buffer::new(3);
    assert_eq!(buf.len(), 3);
    assert!(!buf.is_empty());
    buf.write(&[1, 2]);
    assert_eq!(buf.len(), 1);
    buf.write(&[3]);
    assert_eq!(buf.len(), 0);
    assert!(buf.is_empty());
    assert_eq!(buf.written(), &[1, 2, 3]);
}

#[test]
fn consecutive_reads_take_every_byte_once() {
    let mut rng = with_data(0, 64);
    let mut all = Vec::new();
    for _ in 0..8 {
        let task = rng.read(false);
        let mut buf = Buffer::new(8);
        let (result, calls) = drive(&mut rng, task, &mut buf, &bytes(), Ok(()), &[]);
        assert_eq!(result, Ok(()));
        assert_eq!(calls[0], Call::Fetch { addr: ADDR, offset: all.len() as u32, len: 8 });
        all.extend_from_slice(buf.written());
    }
    assert_eq!(all, bytes());
    assert_eq!((rng.state.data_idx, rng.state.data_avail), (0, 0));
    assert!(rng.state.in_flight);
}

#[test]
fn a_read_into_nothing_takes_nothing() {
    let mut rng = with_data(5, 6);
    let task = rng.read(true);
    let mut buf = Buffer::new(0);
    let (result, calls) = drive(&mut rng, task, &mut buf, &bytes(), Ok(()), &[]);
    assert_eq!(result, Ok(()));
    assert_eq!(calls, vec![Call::Fetch { addr: ADDR, offset: 5, len: 0 }]);
    assert_eq!((rng.state.data_idx, rng.state.data_avail), (5, 6));
}

#[test]
fn a_removal_outlasts_later_operations() {
    let mut rng = with_data(0, 0);
    let mut none = Buffer::new(0);
    let removal = Task { op: Op::Remove, pc: Pc::RemoveMark };
    drive(&mut rng, removal, &mut none, &[], Ok(()), &[]);
    let callback = Task { op: Op::Callback, pc: Pc::CallbackAvail { len: 64 } };
    drive(&mut rng, callback, &mut none, &[], Ok(()), &[]);
    assert!(rng.state.removed);
    let task = rng.read(true);
    let mut buf = Buffer::new(4);
    let (result, _) = drive(&mut rng, task, &mut buf, &bytes(), Ok(()), &[]);
    assert_eq!(result, Err(errno(ENODEV)));
}

#[test]
fn what_is_read_is_what_the_device_wrote() {
    for (len, avail) in [(1u32, 1usize), (40, 40), (64, 64), (1000, 64)] {
        let mut rng = with_data(17, 0);
        let mut none = Buffer::new(0);
        let request = rng.request_entropy();
        drive(&mut rng, request, &mut none, &[], Ok(()), &[]);
        let callback = Task { op: Op::Callback, pc: Pc::CallbackAvail { len } };
        drive(&mut rng, callback, &mut none, &[], Ok(()), &[]);
        let task = rng.read(false);
        let mut buf = Buffer::new(100);
        let (_, calls) = drive(&mut rng, task, &mut buf, &bytes(), Ok(()), &[]);
        assert_eq!(calls[0], Call::Fetch { addr: ADDR, offset: 0, len: avail as u32 });
        assert_eq!(buf.written(), &bytes()[..avail]);
    }
}

#[test]
fn two_reads_take_what_one_takes() {
    for second in [0, 5, 16, 40] {
        let mut apart = with_data(8, 20);
        let mut together = with_data(8, 20);
        let mut both = Vec::new();
        for room in [4, second] {
            let task = apart.read(false);
            let mut buf = Buffer::new(room);
            drive(&mut apart, task, &mut buf, &bytes(), Ok(()), &[]);
            both.extend_from_slice(buf.written());
        }
        let task = together.read(false);
        let mut buf = Buffer::new(4 + second);
        drive(&mut together, task, &mut buf, &bytes(), Ok(()), &[]);
        assert_eq!(both, buf.written());
        assert_eq!(apart.state, together.state);
    }
}
