use std::sync::Mutex;

use virtio::device::{
    Bound, Core, DeviceCall, FindVqs, HasFeature, RawDevice, RawDeviceId,
};
use virtio::driver::{Callback, CallbackKind, DriverCall, DriverEntry, ProbeStep, RemoveStep};
use virtio::error::{
    from_result, to_result, AllocError, Error, EINVAL, EIO, ENODEV, ENOENT, ENOMEM,
};
use virtio::memory::{AllocRequest, Flags, Item};
use virtio::virtqueue::{RawVirtqueue, Virtqueue, VirtqueueInfo};
use virtio::{Adapter, Device, DeviceId, Driver, VirtioID, VIRTIO_DEV_ANY_ID};

struct Plain;

impl Driver for Plain {
    type IdInfo = ();

    const ID_TABLE: &'static [(DeviceId, ())] = &[
        (DeviceId(RawDeviceId { device: 1, vendor: VIRTIO_DEV_ANY_ID }), ()),
        (DeviceId(RawDeviceId { device: 2, vendor: 7 }), ()),
    ];

    fn probe(_dev: &Device<Core>) -> Result<Self, Error> {
        Ok(Plain)
    }

    fn init(&self, _dev: &Device<Bound>) -> Result<(), Error> {
        Ok(())
    }

    fn vq_callback(&self, _vq: &Virtqueue, _dev: &Device<Bound>) {}
}

struct Full;

impl Driver for Full {
    type IdInfo = u32;

    const HAS_VALIDATE: bool = true;
    const HAS_SCAN: bool = true;
    const HAS_CONFIG_CHANGED: bool = true;
    const HAS_RESET_PREPARE: bool = true;
    const HAS_RESET_DONE: bool = true;
    const HAS_SHUTDOWN: bool = true;

    const ID_TABLE: &'static [(DeviceId, u32)] =
        &[(DeviceId(RawDeviceId { device: 3, vendor: 1 }), 77)];

    fn probe(_dev: &Device<Core>) -> Result<Self, Error> {
        Ok(Full)
    }

    fn init(&self, _dev: &Device<Bound>) -> Result<(), Error> {
        Ok(())
    }

    fn vq_callback(&self, _vq: &Virtqueue, _dev: &Device<Bound>) {}
}

fn device(has_del_vqs: bool) -> Device<Bound> {
    Device::from_raw(RawDevice {
        id: RawDeviceId { device: 4, vendor: 0x1af4 },
        index: 3,
        has_del_vqs,
    })
}

fn queue(index: u32) -> Virtqueue {
    Virtqueue::from_raw(RawVirtqueue {
        vdev: None,
        name: None,
        index,
    })
}

fn errno(error: i32) -> Error {
    Error::from_errno(error)
}

const ALL: [(VirtioID, u32); 40] = [
    (VirtioID::Net, 1),
    (VirtioID::Block, 2),
    (VirtioID::Console, 3),
    (VirtioID::Rng, 4),
    (VirtioID::Balloon, 5),
    (VirtioID::IOMem, 6),
    (VirtioID::RPMSG, 7),
    (VirtioID::Scsi, 8),
    (VirtioID::NineP, 9),
    (VirtioID::Mac80211Wlan, 10),
    (VirtioID::RPROCSerial, 11),
    (VirtioID::CAIF, 12),
    (VirtioID::MemoryBalloon, 13),
    (VirtioID::GPU, 16),
    (VirtioID::Clock, 17),
    (VirtioID::Input, 18),
    (VirtioID::VSock, 19),
    (VirtioID::Crypto, 20),
    (VirtioID::SignalDist, 21),
    (VirtioID::Pstore, 22),
    (VirtioID::Iommu, 23),
    (VirtioID::Mem, 24),
    (VirtioID::Sound, 25),
    (VirtioID::FS, 26),
    (VirtioID::PMem, 27),
    (VirtioID::RPMB, 28),
    (VirtioID::Mac80211Hwsim, 29),
    (VirtioID::VideoEncoder, 30),
    (VirtioID::VideoDecoder, 31),
    (VirtioID::SCMI, 32),
    (VirtioID::NitroSecMod, 33),
    (VirtioID::I2CAdapter, 34),
    (VirtioID::Watchdog, 35),
    (VirtioID::CAN, 36),
    (VirtioID::DMABuf, 37),
    (VirtioID::ParamServ, 38),
    (VirtioID::AudioPolicy, 39),
    (VirtioID::BT, 40),
    (VirtioID::GPIO, 41),
    (VirtioID::SPI, 45),
];

#[test]
fn ids_and_numbers_are_inverse() {
    for (id, number) in ALL {
        assert_eq!(id.as_u32(), number);
        assert_eq!(VirtioID::try_from(number), Ok(id));
    }
}

#[test]
fn unknown_numbers_are_handed_back() {
    for number in [0, 14, 15, 42, 43, 44, 46, u32::MAX] {
        assert_eq!(VirtioID::try_from(number), Err(number));
    }
}

#[test]
fn ids_are_ordered_by_number() {
    for pair in ALL.windows(2) {
        assert!(pair[0].0 < pair[1].0);
    }
}

#[test]
fn device_ids_match_any_vendor_unless_told_otherwise() {
    let id = DeviceId::new(VirtioID::Rng);
    assert_eq!(id.0, RawDeviceId { device: 4, vendor: VIRTIO_DEV_ANY_ID });
    assert_eq!(VIRTIO_DEV_ANY_ID, 0xffffffff);
    let id = DeviceId::new_with_vendor(VirtioID::SPI, 9);
    assert_eq!(id.0, RawDeviceId { device: 45, vendor: 9 });
}

#[test]
fn a_device_tells_what_it_is() {
    let dev = device(true);
    assert_eq!(dev.device_id(), Ok(VirtioID::Rng));
    assert_eq!(dev.vendor_id(), 0x1af4);
    assert_eq!(dev.index(), 3);
    assert_eq!(dev.as_raw().id.device, 4);
    let odd: Device<Bound> = Device::from_raw(RawDevice {
        id: RawDeviceId { device: 14, vendor: 0 },
        index: 0,
        has_del_vqs: false,
    });
    assert_eq!(odd.device_id(), Err(14));
}

#[test]
fn features_are_asked_for() {
    for fbit in [0, 5, 64, u32::MAX] {
        assert_eq!(device(true).has_feature(fbit), HasFeature { fbit });
    }
}

#[test]
fn device_requests() {
    assert_eq!(device(true).reset(), DeviceCall::Reset);
    assert_eq!(device(true).ready(), DeviceCall::Ready);
    assert_eq!(device(true).del_vqs(), Some(DeviceCall::DelVqs));
    assert_eq!(device(false).del_vqs(), None);
}

#[test]
fn errors_cross_to_the_core_and_back() {
    assert_eq!(to_result(0), Ok(()));
    assert_eq!(to_result(7), Ok(()));
    assert_eq!(to_result(-5), Err(errno(EIO)));
    assert_eq!(to_result(-4095), Err(errno(-4095)));
    assert_eq!(to_result(-4096), Err(errno(EINVAL)));
    assert_eq!(to_result(i32::MIN), Err(errno(EINVAL)));
    assert_eq!(Error::from_errno(5), errno(EINVAL));
    assert_eq!(Error::from_errno(0), errno(EINVAL));
    assert_eq!(Error::from_errno(-19).to_errno(), ENODEV);
    assert_eq!(Error::from(AllocError), errno(ENOMEM));
    assert_eq!(from_result(Ok(())), 0);
    assert_eq!(from_result(Err(errno(ENOENT))), -2);
    for result in [Ok(()), Err(errno(EIO)), Err(errno(-4095)), Err(errno(-1))] {
        assert_eq!(to_result(from_result(result)), result);
    }
    assert_eq!([ENOENT, EIO, ENOMEM, ENODEV, EINVAL], [-2, -5, -12, -19, -22]);
}

#[test]
fn an_error_holds_a_valid_code() {
    for code in [i32::MIN, -4096, 0, 1, i32::MAX] {
        assert_eq!(Error::from_errno(code).to_errno(), EINVAL);
        assert!(from_result(Err(Error::from_errno(code))) < 0);
    }
    for code in [-4095, -22, -1] {
        assert_eq!(Error::from_errno(code).to_errno(), code);
    }
}

#[test]
fn virtqueue_info_names_the_callback() {
    let info = VirtqueueInfo::<Plain>::new("requestq", true);
    assert_eq!(info.name, "requestq");
    assert!(info.ctx);
    assert!(info.callback.is_some());
}

fn two() -> [VirtqueueInfo<Plain>; 2] {
    [VirtqueueInfo::new("a", false), VirtqueueInfo::new("b", true)]
}

#[test]
fn discovery_asks_for_memory_and_then_for_all_descriptions() {
    let info = two();
    let gfp = Flags::Mask(0x20);
    let pointers = AllocRequest { item: Item::VirtqueuePointer, count: 2, gfp };
    let step = device(true).find_vqs(&info, gfp);
    assert!(matches!(step, FindVqs::Slots { request, .. } if request == pointers));
    let step = step.next(Ok(()));
    assert!(matches!(step, FindVqs::Queues { request, .. } if request == pointers));
    match step.next(Ok(())) {
        FindVqs::Call { nvqs, info } => {
            assert_eq!(nvqs, 2);
            assert_eq!(info.len(), 2);
            assert_eq!(info[1].name, "b");
        }
        _ => panic!("the core has to be asked"),
    }
}

#[test]
fn discovery_is_refused() {
    let dev = device(true);
    let none: [VirtqueueInfo<Plain>; 0] = [];
    let step = dev.find_vqs(&none, Flags::Kernel);
    assert!(matches!(step, FindVqs::Refused { error } if error == errno(EINVAL)));
    let step = step.next(Ok(()));
    assert!(matches!(step, FindVqs::Refused { error } if error == errno(EINVAL)));
    let info = two();
    let step = dev.find_vqs(&info, Flags::Kernel).next(Err(AllocError));
    assert!(matches!(step, FindVqs::Refused { error } if error == errno(ENOMEM)));
    let step = dev.find_vqs(&info, Flags::Kernel).next(Ok(())).next(Err(AllocError));
    assert!(matches!(step, FindVqs::Refused { error } if error == errno(ENOMEM)));
}

#[test]
fn discovered_virtqueues_keep_their_order() {
    let found = device(true).found_vqs(2, 0, vec![Some(queue(10)), Some(queue(11))]);
    assert_eq!(found.cleanup, None);
    let vqs = found.result.ok().unwrap();
    assert_eq!(vqs.len(), 2);
    assert_eq!(vqs[0].index(), 10);
    assert_eq!(vqs[1].index(), 11);
    assert_eq!(vqs.first().index(), 10);
}

#[test]
fn a_missing_virtqueue_deletes_all() {
    let found = device(true).found_vqs(2, 0, vec![Some(queue(10)), None]);
    assert_eq!(found.result.err(), Some(errno(EINVAL)));
    assert_eq!(found.cleanup, Some(DeviceCall::DelVqs));
    let found = device(false).found_vqs(2, 0, vec![None, Some(queue(11))]);
    assert_eq!(found.result.err(), Some(errno(EINVAL)));
    assert_eq!(found.cleanup, None);
}

#[test]
fn a_failed_discovery_reports_its_error() {
    let found = device(true).found_vqs(1, -12, vec![]);
    assert_eq!(found.result.err(), Some(errno(ENOMEM)));
    assert_eq!(found.cleanup, None);
    let found = device(true).found_vqs(1, -5000, vec![]);
    assert_eq!(found.result.err(), Some(errno(EINVAL)));
}

fn kinds<T: Driver>(entry: &DriverEntry<T>) -> [Option<CallbackKind>; 8] {
    [
        entry.probe.as_ref().map(|c| c.kind),
        entry.remove.as_ref().map(|c| c.kind),
        entry.validate.as_ref().map(|c| c.kind),
        entry.scan.as_ref().map(|c| c.kind),
        entry.config_changed.as_ref().map(|c| c.kind),
        entry.reset_prepare.as_ref().map(|c| c.kind),
        entry.reset_done.as_ref().map(|c| c.kind),
        entry.shutdown.as_ref().map(|c| c.kind),
    ]
}

#[test]
fn registration_offers_what_the_driver_provides() {
    let mut entry = DriverEntry::<Plain>::empty();
    assert_eq!(kinds(&entry), [None; 8]);
    assert_eq!(entry.name, None);
    assert_eq!(entry.id_table, None);
    let call = Adapter::register(&mut entry, "plain", 0x5000);
    assert_eq!(call, DriverCall::Register { module: 0x5000 });
    assert_eq!(entry.name, Some("plain"));
    let table =
        [(DeviceId::new(VirtioID::Net), ()), (DeviceId::new_with_vendor(VirtioID::Block, 7), ())];
    assert_eq!(entry.id_table, Some(&table[..]));
    let mut expected = [None; 8];
    expected[0] = Some(CallbackKind::Probe);
    expected[1] = Some(CallbackKind::Remove);
    assert_eq!(kinds(&entry), expected);
    assert_eq!(Adapter::unregister(&entry), DriverCall::Unregister);

    let mut entry = DriverEntry::<Full>::empty();
    Adapter::register(&mut entry, "full", 1);
    assert_eq!(entry.id_table.unwrap()[0].1, 77);
    assert_eq!(
        kinds(&entry),
        [
            Some(CallbackKind::Probe),
            Some(CallbackKind::Remove),
            Some(CallbackKind::Validate),
            Some(CallbackKind::Scan),
            Some(CallbackKind::ConfigChanged),
            Some(CallbackKind::ResetPrepare),
            Some(CallbackKind::ResetDone),
            Some(CallbackKind::Shutdown),
        ]
    );
}

#[test]
fn registration_leaves_what_the_driver_does_not_provide() {
    let mut entry = DriverEntry::<Plain>::empty();
    entry.scan = Some(Callback::new(CallbackKind::Shutdown));
    entry.probe = Some(Callback::new(CallbackKind::Shutdown));
    Adapter::register(&mut entry, "plain", 1);
    assert_eq!(kinds(&entry)[0], Some(CallbackKind::Probe));
    assert_eq!(kinds(&entry)[3], Some(CallbackKind::Shutdown));
    assert_eq!(kinds(&entry)[2], None);
}

#[test]
fn a_probe_that_succeeds() {
    let step = Adapter::<Plain>::probe_callback();
    assert_eq!(step, ProbeStep::SetDrvdata);
    let step = step.next(Ok(()));
    assert_eq!(step, ProbeStep::Ready);
    let step = step.next(Ok(()));
    assert_eq!(step, ProbeStep::Init);
    assert_eq!(step.next(Ok(())), ProbeStep::Return { ret: 0 });
}

#[test]
fn a_probe_whose_data_cannot_be_set() {
    let step = Adapter::<Plain>::probe_callback().next(Err(errno(ENOMEM)));
    assert_eq!(step, ProbeStep::Return { ret: -12 });
}

#[test]
fn a_probe_whose_initialization_fails() {
    let error = errno(EIO);
    let step = Adapter::<Plain>::probe_callback().next(Ok(())).next(Ok(())).next(Err(error));
    assert_eq!(step, ProbeStep::Remove { error });
    let step = step.next(Ok(()));
    assert_eq!(step, ProbeStep::Reset { error });
    let step = step.next(Ok(()));
    assert_eq!(step, ProbeStep::Release { error });
    let step = step.next(Ok(()));
    assert_eq!(step, ProbeStep::Return { ret: -5 });
    assert_eq!(step.next(Ok(())), step);
}

#[test]
fn a_removal_resets_the_device_last() {
    let step = Adapter::<Plain>::remove_callback();
    assert_eq!(step, RemoveStep::Remove);
    let step = step.next();
    assert_eq!(step, RemoveStep::Reset);
    let step = step.next();
    assert_eq!(step, RemoveStep::Return);
    assert_eq!(step.next(), RemoveStep::Return);
}

/// A driver that notes what it is called with, and fails where it is told to.
struct Noting {
    notes: Mutex<Vec<(&'static str, i32)>>,
    result: Result<(), Error>,
}

impl Driver for Noting {
    type IdInfo = ();

    const HAS_VALIDATE: bool = true;
    const HAS_SCAN: bool = true;
    const HAS_CONFIG_CHANGED: bool = true;
    const HAS_RESET_PREPARE: bool = true;
    const HAS_RESET_DONE: bool = true;
    const HAS_SHUTDOWN: bool = true;
    const ID_TABLE: &'static [(DeviceId, ())] = &[];

    fn probe(_dev: &Device<Core>) -> Result<Self, Error> {
        Err(errno(EIO))
    }

    fn init(&self, _dev: &Device<Bound>) -> Result<(), Error> {
        Ok(())
    }

    fn validate(dev: &Device<Core>) -> Result<(), Error> {
        match dev.index() {
            0 => Ok(()),
            index => Err(errno(-index)),
        }
    }

    fn scan(&self, dev: &Device<Bound>) {
        self.notes.lock().unwrap().push(("scan", dev.index()));
    }

    fn config_changed(&self, dev: &Device<Bound>) {
        self.notes.lock().unwrap().push(("config_changed", dev.index()));
    }

    fn reset_prepare(&self, dev: &Device<Bound>) -> Result<(), Error> {
        self.notes.lock().unwrap().push(("reset_prepare", dev.index()));
        self.result
    }

    fn reset_done(&self, dev: &Device<Bound>) -> Result<(), Error> {
        self.notes.lock().unwrap().push(("reset_done", dev.index()));
        self.result
    }

    fn shutdown(&self, dev: &Device<Bound>) {
        self.notes.lock().unwrap().push(("shutdown", dev.index()));
    }

    fn vq_callback(&self, _vq: &Virtqueue, _dev: &Device<Bound>) {}
}

#[test]
fn validation_is_up_to_the_driver() {
    for (index, ret) in [(0, 0), (19, -19), (22, -22)] {
        let mut raw = device(true).raw;
        raw.index = index;
        assert_eq!(Adapter::<Noting>::validate_callback(&Device::from_raw(raw)), ret);
    }
    assert_eq!(Adapter::<Full>::validate_callback(&Device::from_raw(device(true).raw)), 0);
}

#[test]
fn callbacks_call_the_driver_once() {
    let dev = device(true);
    for (result, ret) in [(Ok(()), 0), (Err(errno(EIO)), -5), (Err(errno(EINVAL)), -22)] {
        let data = Noting { notes: Mutex::new(vec![]), result };
        Adapter::scan_callback(&data, &dev);
        Adapter::config_changed_callback(&data, &dev);
        assert_eq!(Adapter::reset_prepare_callback(&data, &dev), ret);
        assert_eq!(Adapter::reset_done_callback(&data, &dev), ret);
        Adapter::shutdown_callback(&data, &dev);
        assert_eq!(
            *data.notes.lock().unwrap(),
            [
                ("scan", 3),
                ("config_changed", 3),
                ("reset_prepare", 3),
                ("reset_done", 3),
                ("shutdown", 3),
            ]
        );
    }
}

#[test]
fn methods_that_a_driver_does_not_define_succeed() {
    let core: Device<Core> = Device::from_raw(device(true).raw);
    assert_eq!(Full::validate(&core), Ok(()));
    assert_eq!(Full.reset_prepare(&device(true)), Ok(()));
    assert_eq!(Full.reset_done(&device(true)), Ok(()));
}
