//! VIRTIO devices and the identifiers that drivers match them by.
use core::marker::PhantomData;

use vstd::prelude::*;

use crate::driver::Driver;
use crate::error::{law_error_codes, to_result, Allocation, Error, EINVAL, ENOMEM};
use crate::id::{law_recognised_number, VirtioID};
use crate::memory::{AllocRequest, Flags, Item};
use crate::virtqueue::{Virtqueue, VirtqueueInfo, Virtqueues};

verus! {

/// Any vendor
pub const VIRTIO_DEV_ANY_ID: u32 = 0xffffffff;

/// The numbers by which the core matches a device to a driver (`struct virtio_device_id`).
#[derive(Copy, Clone, PartialEq, Eq, Structural, Debug)]
pub struct RawDeviceId {
    pub device: u32,
    pub vendor: u32,
}

/// A VIRTIO device id.
#[derive(Copy, Clone, PartialEq, Eq, Structural, Debug)]
pub struct DeviceId(pub RawDeviceId);

impl DeviceId {
    /// Create a new device id
    pub fn new(device: VirtioID) -> (id: DeviceId)
        ensures
            id.0.device == device.number(),
            id.0.vendor == VIRTIO_DEV_ANY_ID,
    {
        DeviceId::new_with_vendor(device, VIRTIO_DEV_ANY_ID)
    }

    /// Create a new device id with vendor
    pub fn new_with_vendor(device: VirtioID, vendor: u32) -> (id: DeviceId)
        ensures
            id.0.device == device.number(),
            id.0.vendor == vendor,
    {
        DeviceId(RawDeviceId { device: device.as_u32(), vendor })
    }
}

/// What a reference to a device allows, by the situation in which it was handed out.
pub trait DeviceContext {

}

/// A context in which the device is bound to a driver.
pub trait BoundContext: DeviceContext {

}

/// No guarantee beyond the existence of the device.
pub struct Normal;

/// The device is bound to a driver.
pub struct Bound;

/// The device is bound, and its driver is being called by the bus.
pub struct Core;

/// As [`Core`], for the internals of the bus abstraction.
pub struct CoreInternal;

impl DeviceContext for Normal {

}

impl DeviceContext for Bound {

}

impl DeviceContext for Core {

}

impl DeviceContext for CoreInternal {

}

impl BoundContext for Bound {

}

impl BoundContext for Core {

}

impl BoundContext for CoreInternal {

}

/// What the core holds of a device (`struct virtio_device`), as far as the library reads it.
pub struct RawDevice {
    /// The identifiers of the device.
    pub id: RawDeviceId,
    /// The position of the device on the bus.
    pub index: i32,
    /// Whether the transport of the device has an operation that deletes virtqueues.
    pub has_del_vqs: bool,
}

/// A request to the core about a device, to be carried out by the holder of the device.
#[derive(Copy, Clone, PartialEq, Eq, Structural, Debug)]
pub enum DeviceCall {
    /// Reset the device (`virtio_reset_device`).
    Reset,
    /// Mark the device as ready (`virtio_device_ready`).
    Ready,
    /// Delete the virtqueues of the device by the operation of its transport.
    DelVqs,
}

/// A question to the core: whether the device has a feature bit (`virtio_has_feature`).
#[derive(Copy, Clone, PartialEq, Eq, Structural, Debug)]
pub struct HasFeature {
    pub fbit: u32,
}

/// What comes next in the discovery of the virtqueues of a device.
pub enum FindVqs<'a, T: Driver> {
    /// Memory is needed for the pointers that the core hands out.
    Slots { request: AllocRequest, info: &'a [VirtqueueInfo<T>] },
    /// Memory is needed for the virtqueues that are taken over.
    Queues { request: AllocRequest, info: &'a [VirtqueueInfo<T>] },
    /// The core is asked for `nvqs` virtqueues that are as `info` says (`virtio_find_vqs`). No
    /// interrupt affinity is asked for. [`Device::found_vqs`] takes the answer.
    Call { nvqs: u32, info: &'a [VirtqueueInfo<T>] },
    /// There is no discovery.
    Refused { error: Error },
}

impl<'a, T: Driver> FindVqs<'a, T> {
    /// The memory for pointers to as many virtqueues as `info` describes.
    pub open spec fn pointers(info: &'a [VirtqueueInfo<T>], gfp: Flags) -> AllocRequest {
        AllocRequest { item: Item::VirtqueuePointer, count: info@.len() as usize, gfp }
    }

    /// The discovery of the virtqueues that `info` describes. There has to be at least one.
    pub open spec fn start(info: &'a [VirtqueueInfo<T>], gfp: Flags) -> FindVqs<'a, T> {
        if info@.len() == 0 {
            FindVqs::Refused { error: Error::of_errno(EINVAL) }
        } else {
            FindVqs::Slots { request: FindVqs::pointers(info, gfp), info }
        }
    }

    /// What follows when the allocator has answered. The number of virtqueues has to be a `u32`.
    pub open spec fn after(self, answer: Allocation) -> FindVqs<'a, T> {
        match self {
            FindVqs::Slots { request, info } => match answer {
                Err(_) => FindVqs::Refused { error: Error::of_errno(ENOMEM) },
                Ok(_) => FindVqs::Queues { request: FindVqs::pointers(info, request.gfp), info },
            },
            FindVqs::Queues { request, info } => match answer {
                Err(_) => FindVqs::Refused { error: Error::of_errno(ENOMEM) },
                Ok(_) => if info@.len() <= u32::MAX {
                    FindVqs::Call { nvqs: info@.len() as u32, info }
                } else {
                    FindVqs::Refused { error: Error::of_errno(EINVAL) }
                },
            },
            FindVqs::Call { nvqs, info } => FindVqs::Call { nvqs, info },
            FindVqs::Refused { error } => FindVqs::Refused { error },
        }
    }

    /// Goes on when the allocator has answered.
    pub fn next(self, answer: Allocation) -> (step: FindVqs<'a, T>)
        ensures
            step == self.after(answer),
    {
        match self {
            FindVqs::Slots { request, info } => match answer {
                Err(e) => FindVqs::Refused { error: Error::from(e) },
                Ok(()) => FindVqs::Queues {
                    request: AllocRequest {
                        item: Item::VirtqueuePointer,
                        count: info.len(),
                        gfp: request.gfp,
                    },
                    info,
                },
            },
            FindVqs::Queues { request: _, info } => match answer {
                Err(e) => FindVqs::Refused { error: Error::from(e) },
                Ok(()) => match u32::try_from(info.len()) {
                    Ok(nvqs) => FindVqs::Call { nvqs, info },
                    Err(_) => FindVqs::Refused { error: Error::from_errno(EINVAL) },
                },
            },
            FindVqs::Call { nvqs, info } => FindVqs::Call { nvqs, info },
            FindVqs::Refused { error } => FindVqs::Refused { error },
        }
    }
}

/// A discovery asks twice for memory for as many pointers as there are descriptions, with the
/// flags it was given, and then asks the core for all that is described. It is refused without a
/// description, without memory, or with more descriptions than the core can count.
pub proof fn law_discovery<'a, T: Driver>(
    info: &'a [VirtqueueInfo<T>],
    gfp: Flags,
    slots: Allocation,
    queues: Allocation,
)
    ensures
        ({
            let first = FindVqs::start(info, gfp);
            let second = first.after(slots);
            let last = second.after(queues);
            let pointers = FindVqs::pointers(info, gfp);
            if info@.len() == 0 {
                first == (FindVqs::Refused::<T> { error: Error::of_errno(EINVAL) })
            } else if slots is Err {
                &&& first == (FindVqs::Slots { request: pointers, info })
                &&& second == (FindVqs::Refused::<T> { error: Error::of_errno(ENOMEM) })
            } else {
                &&& first == (FindVqs::Slots { request: pointers, info })
                &&& second == (FindVqs::Queues { request: pointers, info })
                &&& queues is Err ==> last == (FindVqs::Refused::<T> {
                    error: Error::of_errno(ENOMEM),
                })
                &&& queues is Ok && info@.len() > u32::MAX ==> last == (FindVqs::Refused::<T> {
                    error: Error::of_errno(EINVAL),
                })
                &&& queues is Ok && info@.len() <= u32::MAX ==> last == (FindVqs::Call {
                    nvqs: info@.len() as u32,
                    info,
                })
            }
        }),
{
}

/// How the discovery of virtqueues ended.
pub struct FoundVqs {
    /// The virtqueues, or why there are none.
    pub result: Result<Virtqueues, Error>,
    /// What remains to be done about virtqueues that the core created but that cannot be used.
    pub cleanup: Option<DeviceCall>,
}

/// Abstraction for the virtio device structure (`struct virtio_device`).
pub struct Device<Ctx: DeviceContext = Normal> {
    pub raw: RawDevice,
    pub ctx: PhantomData<Ctx>,
}

impl<Ctx: DeviceContext> Device<Ctx> {
    /// Wraps what the core holds of a device.
    pub fn from_raw(raw: RawDevice) -> (device: Device<Ctx>)
        ensures
            device.raw == raw,
    {
        Device { raw, ctx: PhantomData }
    }

    /// What the core holds of this device.
    pub fn as_raw(&self) -> (raw: &RawDevice)
        ensures
            *raw == self.raw,
    {
        &self.raw
    }
}

impl<Ctx: BoundContext> Device<Ctx> {
    /// The deletion of virtqueues, where the transport has one.
    pub open spec fn deletion(self) -> Option<DeviceCall> {
        if self.raw.has_del_vqs {
            Some(DeviceCall::DelVqs)
        } else {
            None
        }
    }

    /// Returns the virtio device ID.
    ///
    /// If the virtio ID value is not recognized, it is returned as an `Err` variant.
    pub fn device_id(&self) -> (id: Result<VirtioID, u32>)
        ensures
            match VirtioID::of_number(self.raw.id.device) {
                Some(known) => id == Ok::<VirtioID, u32>(known),
                None => id == Err::<VirtioID, u32>(self.raw.id.device),
            },
    {
        VirtioID::try_from(self.as_raw().id.device)
    }

    /// Returns the virtio vendor ID.
    pub fn vendor_id(&self) -> (vendor: u32)
        ensures
            vendor == self.raw.id.vendor,
    {
        self.as_raw().id.vendor
    }

    /// Reset device.
    pub fn reset(&self) -> (call: DeviceCall)
        ensures
            call == DeviceCall::Reset,
    {
        DeviceCall::Reset
    }

    /// Mark device as ready.
    ///
    /// After a device is ready its virtqueue callbacks may fire, so this comes after the driver
    /// data has been set: see [`crate::driver::ProbeStep`].
    pub fn ready(&self) -> (call: DeviceCall)
        ensures
            call == DeviceCall::Ready,
    {
        DeviceCall::Ready
    }

    /// Begins the discovery of the virtqueues that `info` describes. Memory is obtained as `gfp`
    /// says.
    pub fn find_vqs<'a, T: Driver>(&self, info: &'a [VirtqueueInfo<T>], gfp: Flags) -> (step:
        FindVqs<'a, T>)
        ensures
            step == FindVqs::start(info, gfp),
    {
        if info.len() == 0 {
            return FindVqs::Refused { error: Error::from_errno(EINVAL) };
        }
        FindVqs::Slots {
            request: AllocRequest { item: Item::VirtqueuePointer, count: info.len(), gfp },
            info,
        }
    }

    /// Takes over the virtqueues that a discovery found.
    ///
    /// `ret` is what the core returned when it was asked for `nvqs` virtqueues, and `vqs` the
    /// virtqueues it handed out, none where it left one out. If any is left out, all are to be
    /// deleted.
    pub fn found_vqs(&self, nvqs: u32, ret: i32, vqs: Vec<Option<Virtqueue>>) -> (found: FoundVqs)
        requires
            nvqs > 0,
            ret >= 0 ==> vqs@.len() == nvqs,
        ensures
            ret < 0 ==> {
                &&& found.result == Err::<Virtqueues, Error>(Error::of_errno(ret))
                &&& found.cleanup is None
            },
            ret >= 0 && vqs@.contains(None) ==> {
                &&& found.result == Err::<Virtqueues, Error>(Error::of_errno(EINVAL))
                &&& found.cleanup == self.deletion()
            },
            ret >= 0 && !vqs@.contains(None) ==> {
                &&& found.result matches Ok(queues)
                &&& queues@.len() == nvqs
                &&& forall|i: int| 0 <= i < vqs@.len() ==> vqs@[i] == Some(#[trigger] queues@[i])
                &&& found.cleanup is None
            },
    {
        match to_result(ret) {
            Err(error) => FoundVqs { result: Err(error), cleanup: None },
            Ok(()) => {
                let ghost handed = vqs@;
                let mut inner: Vec<Virtqueue> = Vec::with_capacity(vqs.len());
                for vq in it: vqs
                    invariant
                        ret >= 0,
                        it.seq() == handed,
                        inner@.len() == it.index(),
                        forall|j: int|
                            0 <= j < inner@.len() ==> handed[j] == Some(#[trigger] inner@[j]),
                {
                    match vq {
                        Some(vq) => {
                            inner.push(vq);
                        },
                        None => {
                            return FoundVqs {
                                result: Err(Error::from_errno(EINVAL)),
                                cleanup: self.del_vqs(),
                            };
                        },
                    }
                }
                assert(!handed.contains(None)) by {
                    if handed.contains(None) {
                        let j = choose|j: int| 0 <= j < handed.len() && handed[j] is None;
                        assert(handed[j] == Some(inner@[j]));
                    }
                }
                FoundVqs { result: Ok(Virtqueues::from_found(inner)), cleanup: None }
            },
        }
    }

    /// Delete virtqueues from this device.
    pub fn del_vqs(&self) -> (call: Option<DeviceCall>)
        ensures
            call == self.deletion(),
    {
        if self.as_raw().has_del_vqs {
            Some(DeviceCall::DelVqs)
        } else {
            None
        }
    }

    /// Checks if the device has a feature bit.
    pub fn has_feature(&self, fbit: u32) -> (query: HasFeature)
        ensures
            query == (HasFeature { fbit }),
    {
        HasFeature { fbit }
    }

    /// Returns unique device index on the virtio bus.
    pub fn index(&self) -> (index: i32)
        ensures
            index == self.raw.index,
    {
        self.as_raw().index
    }
}

/// A discovery makes room for every virtqueue that is described, with the flags it was given,
/// before the core is asked for all of them: first for the pointers that the core stores, then for
/// the virtqueues that are taken over. The first refusal ends it.
pub proof fn law_discovery_makes_room<'a, T: Driver, Ctx: BoundContext>(
    dev: &Device<Ctx>,
    info: &'a [VirtqueueInfo<T>],
    gfp: Flags,
    slots: Allocation,
    queues: Allocation,
    more: Allocation,
    first: FindVqs<'a, T>,
    second: FindVqs<'a, T>,
    last: FindVqs<'a, T>,
    beyond: FindVqs<'a, T>,
)
    requires
        call_ensures(Device::<Ctx>::find_vqs::<T>, (dev, info, gfp), first),
        call_ensures(FindVqs::<'a, T>::next, (first, slots), second),
        call_ensures(FindVqs::<'a, T>::next, (second, queues), last),
        call_ensures(FindVqs::<'a, T>::next, (last, more), beyond),
    ensures
        info.len() == 0 ==> {
            &&& first is Refused
            &&& first->error.code() == -22
        },
        info.len() > 0 ==> {
            &&& first is Slots
            &&& first->Slots_request.item == Item::VirtqueuePointer
            &&& first->Slots_request.count == info@.len()
            &&& first->Slots_request.gfp == gfp
            &&& first->Slots_info == info
        },
        info.len() > 0 && slots is Err ==> {
            &&& second is Refused
            &&& second->error.code() == -12
        },
        info.len() > 0 && slots is Ok ==> {
            &&& second is Queues
            &&& second->Queues_request.item == Item::VirtqueuePointer
            &&& second->Queues_request.count == info@.len()
            &&& second->Queues_request.gfp == gfp
            &&& second->Queues_info == info
        },
        info.len() > 0 && slots is Ok && queues is Err ==> {
            &&& last is Refused
            &&& last->error.code() == -12
        },
        info.len() > 0xffff_ffff && slots is Ok && queues is Ok ==> {
            &&& last is Refused
            &&& last->error.code() == -22
        },
        0 < info.len() <= 0xffff_ffff && slots is Ok && queues is Ok ==> {
            &&& last is Call
            &&& last->nvqs == info@.len()
            &&& last->Call_info == info
        },
        first is Refused ==> second == first,
        second is Refused ==> last == second,
        beyond == last,
{
    law_error_codes(EINVAL);
    law_error_codes(ENOMEM);
    assert(info.len() == info@.len());
}

/// Virtqueues are taken over exactly when the core succeeded and left none out, and then they are
/// those that it handed out, in their order. If it left one out they are deleted, where the
/// transport can delete them; otherwise nothing remains to be done.
pub proof fn law_found_virtqueues<Ctx: BoundContext>(
    dev: &Device<Ctx>,
    nvqs: u32,
    ret: i32,
    vqs: Vec<Option<Virtqueue>>,
    found: FoundVqs,
)
    requires
        nvqs > 0,
        ret >= 0 ==> vqs@.len() == nvqs,
        call_ensures(Device::<Ctx>::found_vqs, (dev, nvqs, ret, vqs), found),
    ensures
        found.result is Ok <==> ret >= 0 && forall|i: int|
            0 <= i < vqs@.len() ==> (#[trigger] vqs@[i]) is Some,
        found.result matches Ok(queues) ==> {
            &&& queues@.len() == vqs@.len()
            &&& forall|i: int| 0 <= i < vqs@.len() ==> #[trigger] vqs@[i] == Some(queues@[i])
            &&& found.cleanup is None
        },
        -4095 <= ret < 0 ==> found.result->Err_0.code() == ret,
        ret < -4095 ==> found.result->Err_0.code() == -22,
        ret < 0 ==> found.cleanup is None,
        ret >= 0 && found.result is Err ==> {
            &&& found.result->Err_0.code() == -22
            &&& dev.raw.has_del_vqs ==> found.cleanup == Some(DeviceCall::DelVqs)
            &&& !dev.raw.has_del_vqs ==> found.cleanup is None
        },
{
    law_error_codes(ret);
    law_error_codes(EINVAL);
    if ret >= 0 {
        if vqs@.contains(None) {
            let i = choose|i: int| 0 <= i < vqs@.len() && vqs@[i] == None::<Virtqueue>;
            assert(vqs@[i] is None);
        } else {
            let queues = found.result->Ok_0;
            assert forall|i: int| 0 <= i < vqs@.len() implies #[trigger] vqs@[i] == Some(
                queues@[i],
            ) by {
                assert(vqs@[i] == Some(queues@[i]));
            }
        }
    }
}

/// Virtqueues are deleted by the operation of the transport, exactly where it has one.
pub proof fn law_deletion<Ctx: BoundContext>(dev: &Device<Ctx>, call: Option<DeviceCall>)
    requires
        call_ensures(Device::<Ctx>::del_vqs, (dev,), call),
    ensures
        dev.raw.has_del_vqs ==> call == Some(DeviceCall::DelVqs),
        !dev.raw.has_del_vqs ==> call is None,
        call == dev.deletion(),
{
}

/// The type of a device is the one whose number the core holds; a number that no type has is
/// reported as it is.
pub proof fn law_device_type<Ctx: BoundContext>(dev: &Device<Ctx>, id: Result<VirtioID, u32>)
    requires
        call_ensures(Device::<Ctx>::device_id, (dev,), id),
    ensures
        id is Ok <==> exists|known: VirtioID| #[trigger] known.number() == dev.raw.id.device,
        id is Ok ==> id->Ok_0.number() == dev.raw.id.device,
        id is Err ==> id->Err_0 == dev.raw.id.device,
{
    law_recognised_number(dev.raw.id.device);
    if let Some(known) = VirtioID::of_number(dev.raw.id.device) {
        assert(known.number() == dev.raw.id.device);
    }
}

/// A device id asks for the number of its device type and for its vendor; without one, for any.
pub proof fn law_device_ids(device: VirtioID, vendor: u32, any: DeviceId, id: DeviceId)
    requires
        call_ensures(DeviceId::new, (device,), any),
        call_ensures(DeviceId::new_with_vendor, (device, vendor), id),
    ensures
        any.0.device == device.number(),
        any.0.vendor == 0xffff_ffff,
        id.0.device == device.number(),
        id.0.vendor == vendor,
{
}

/// A device is what the core holds of it: its numbers come back as they are.
pub proof fn law_device_is_what_the_core_holds<Ctx: BoundContext>(
    raw: RawDevice,
    dev: Device<Ctx>,
    held: &RawDevice,
    vendor: u32,
    index: i32,
    fbit: u32,
    query: HasFeature,
    reset: DeviceCall,
    ready: DeviceCall,
)
    requires
        call_ensures(Device::<Ctx>::from_raw, (raw,), dev),
        call_ensures(Device::<Ctx>::as_raw, (&dev,), held),
        call_ensures(Device::<Ctx>::vendor_id, (&dev,), vendor),
        call_ensures(Device::<Ctx>::index, (&dev,), index),
        call_ensures(Device::<Ctx>::has_feature, (&dev, fbit), query),
        call_ensures(Device::<Ctx>::reset, (&dev,), reset),
        call_ensures(Device::<Ctx>::ready, (&dev,), ready),
    ensures
        *held == raw,
        vendor == raw.id.vendor,
        index == raw.index,
        query.fbit == fbit,
        reset is Reset,
        ready is Ready,
{
}

} // verus!
