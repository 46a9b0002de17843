use std::sync::Mutex;

use virtio::device::{Bound, Core, DeviceCall, RawDevice, RawDeviceId};
use virtio::error::{AllocError, Error, EINVAL, ENOENT, ENOMEM};
use virtio::memory::{AllocRequest, Flags, Item};
use virtio::virtqueue::{
    vq_callback, AddInbuf, QueueState, RawVirtqueue, Region, Scatterlist, Virtqueue, VirtqueueCall,
    Virtqueues,
};
use virtio::{Device, DeviceId, Driver};

struct Numbered(Mutex<Vec<(u32, i32)>>);

impl Driver for Numbered {
    type IdInfo = ();

    const ID_TABLE: &'static [(DeviceId, ())] = &[];

    fn probe(_dev: &Device<Core>) -> Result<Self, Error> {
        Ok(Numbered(Mutex::new(vec![])))
    }

    fn init(&self, _dev: &Device<Bound>) -> Result<(), Error> {
        Ok(())
    }

    fn vq_callback(&self, vq: &Virtqueue, dev: &Device<Bound>) {
        self.0.lock().unwrap().push((vq.index(), dev.index()));
    }
}

fn device(has_del_vqs: bool) -> Device<Bound> {
    Device::from_raw(RawDevice {
        id: RawDeviceId { device: 4, vendor: 1 },
        index: 6,
        has_del_vqs,
    })
}

fn queue(vdev: Option<Device<Bound>>) -> Virtqueue {
    Virtqueue::from_raw(RawVirtqueue {
        vdev,
        name: Some("requestq".to_string()),
        index: 2,
    })
}

fn errno(error: i32) -> Error {
    Error::from_errno(error)
}

#[test]
fn a_virtqueue_tells_what_it_is() {
    let vq = queue(Some(device(true)));
    assert_eq!(vq.dev().ok().unwrap().index(), 6);
    assert_eq!(vq.name(), Some("requestq"));
    assert_eq!(vq.index(), 2);
    assert_eq!(vq.as_raw().index, 2);
}

#[test]
fn a_virtqueue_tells_what_the_core_holds_now() {
    let vq = queue(None);
    let mut now = QueueState { num_free: 3, num_max: 4, vring_size: 5 };
    assert_eq!(vq.num_free(&now), 3);
    assert_eq!(vq.num_max(&now), 4);
    assert_eq!(vq.vring_size(&now), 5);
    now.num_free = 2;
    assert_eq!(vq.num_free(&now), 2);
}

#[test]
fn a_virtqueue_without_device_or_name() {
    let mut raw = queue(None).raw;
    raw.name = None;
    let vq = Virtqueue::from_raw(raw);
    assert_eq!(vq.dev().err(), Some(errno(ENOENT)));
    assert_eq!(vq.name(), None);
}

#[test]
fn virtqueue_requests() {
    let vq = queue(None);
    assert_eq!(vq.notify(), VirtqueueCall::Notify);
    assert_eq!(vq.kick_prepare(), VirtqueueCall::KickPrepare);
    assert_eq!(vq.kick(), VirtqueueCall::Kick);
    assert_eq!(vq.enable_cb(), VirtqueueCall::EnableCb);
    assert_eq!(vq.disable_cb(), VirtqueueCall::DisableCb);
}

#[test]
fn a_used_buffer_comes_with_its_token() {
    let vq = queue(None);
    assert_eq!(vq.get_buf(0x1000, 17), Some((0x1000, 17)));
    assert_eq!(vq.get_buf(0x1000, 0), Some((0x1000, 0)));
    assert_eq!(vq.get_buf(0, 17), None);
}

#[test]
fn tables_describe_their_buffers() {
    let vq = queue(None);
    let buf = Region { addr: 0x2000, size: 64 };
    let sg = vq.new_writable_sg(buf, Flags::Kernel).finish(Ok(())).ok().unwrap();
    assert_eq!(sg.data(), Some(0x2000));
    assert_eq!(
        vq.add_inbuf(&sg, 0x3000, Flags::Kernel),
        AddInbuf {
            sg: Scatterlist { addr: 0x2000, length: 64 },
            num: 1,
            data: 0x3000,
            gfp: Flags::Kernel,
        }
    );
}

#[test]
fn tables_ask_for_their_memory() {
    let vq = queue(None);
    let buf = Region { addr: 0x2000, size: 64 };
    let gfp = Flags::Mask(3);
    let table = AllocRequest { item: Item::SgTable, count: 1, gfp };
    assert_eq!(vq.new_readable_sg(buf, gfp).request, table);
    assert_eq!(vq.new_readable_sg(buf, gfp).buf, buf);
    assert_eq!(vq.new_writable_sg(buf, gfp).request, table);
    assert_eq!(vq.new_writable_sg(buf, gfp).buf, buf);
}

#[test]
fn tables_are_refused() {
    let vq = queue(None);
    let null = Region { addr: 0, size: 64 };
    let large = Region { addr: 0x2000, size: u32::MAX as usize + 1 };
    let fits = Region { addr: 0x2000, size: u32::MAX as usize };
    assert_eq!(vq.new_writable_sg(null, Flags::Kernel).finish(Ok(())).err(), Some(errno(EINVAL)));
    assert_eq!(vq.new_readable_sg(null, Flags::Kernel).finish(Ok(())).err(), Some(errno(EINVAL)));
    assert_eq!(vq.new_writable_sg(large, Flags::Kernel).finish(Ok(())).err(), Some(errno(EINVAL)));
    assert_eq!(vq.new_readable_sg(large, Flags::Kernel).finish(Ok(())).err(), Some(errno(EINVAL)));
    assert!(vq.new_writable_sg(fits, Flags::Kernel).finish(Ok(())).is_ok());
    assert!(vq.new_readable_sg(fits, Flags::Kernel).finish(Ok(())).is_ok());
    let refused = Err(AllocError);
    let enomem = Some(errno(ENOMEM));
    assert_eq!(vq.new_writable_sg(null, Flags::Kernel).finish(refused).err(), enomem);
    assert_eq!(vq.new_readable_sg(fits, Flags::Kernel).finish(refused).err(), enomem);
}

#[test]
fn lists_are_added_readable_first() {
    let vq = queue(None);
    let out = vq.new_readable_sg(Region { addr: 0x10, size: 1 }, Flags::Kernel);
    let out = out.finish(Ok(())).ok().unwrap();
    let inn = vq.new_writable_sg(Region { addr: 0x20, size: 2 }, Flags::Kernel);
    let inn = inn.finish(Ok(())).ok().unwrap();
    let add = vq.add_sgs(&out.clone(), &inn, 0x30, Flags::Mask(9));
    assert_eq!(
        add.request,
        AllocRequest { item: Item::ScatterlistPointer, count: 2, gfp: Flags::Mask(9) }
    );
    let add = add.finish(Ok(())).ok().unwrap();
    assert_eq!(
        add.sgs,
        vec![Scatterlist { addr: 0x10, length: 1 }, Scatterlist { addr: 0x20, length: 2 }]
    );
    assert_eq!((add.out_sgs, add.in_sgs), (1, 1));
    assert_eq!(add.data, 0x30);
    assert_eq!(add.gfp, Flags::Mask(9));
    assert_eq!(
        vq.add_sgs(&out, &inn, 0x30, Flags::Kernel).finish(Err(AllocError)).err(),
        Some(errno(ENOMEM))
    );
}

#[test]
fn giving_up_virtqueues_resets_and_deletes() {
    let vqs = Virtqueues::from_found(vec![queue(Some(device(true))), queue(None)]);
    assert_eq!(vqs.drop(), vec![DeviceCall::Reset, DeviceCall::DelVqs]);
    let vqs = Virtqueues::from_found(vec![queue(Some(device(false)))]);
    assert_eq!(vqs.drop(), vec![DeviceCall::Reset]);
    let vqs = Virtqueues::from_found(vec![queue(None), queue(Some(device(true)))]);
    assert_eq!(vqs.drop(), vec![]);
    assert_eq!(vqs.len(), 2);
}

#[test]
fn the_driver_is_told_of_used_buffers() {
    let vq = queue(Some(device(true)));
    let data = Numbered(Mutex::new(vec![]));
    vq_callback(&vq, Some(&data));
    assert_eq!(*data.0.lock().unwrap(), [(2, 6)]);
}
