//! Virtqueue functionality.
//!
//! # Discovering virtqueues
//!
//! Inside your driver's [`Driver::probe`] method, call [`Device::find_vqs`] with your
//! [`VirtqueueInfo`] structs, follow the steps that it returns, and hand what the core found to
//! [`Device::found_vqs`].
//!
//! # Passing data to virtqueues
//!
//! Create your data as owned scatterlists with:
//!
//! - [`Virtqueue::new_readable_sg`] for data that can be read from the device, and
//! - [`Virtqueue::new_writable_sg`] for data that can be written from the device
//!
//! These methods will take ownership of your data so that you can add them to a virtqueue.
//!
//! To add the tables to the virtqueue, call one of the `add_*` methods ([`Virtqueue::add_sgs`],
//! [`Virtqueue::add_inbuf`]). They lead to the request that the core is to carry out.
//!
//! Note that it is your responsibility to ensure the data is not dropped at least until the
//! virtqueue has marked it as used.
//!
//! # Used data buffer notifications
//!
//! The VIRTIO device will notify you of any used buffers by calling the
//! [`Driver::vq_callback`] method.
//!
//! You can access the buffer's token and amount of bytes written with the [`Virtqueue::get_buf`]
//! method.
//!
//! # Addresses
//!
//! The address of a buffer or of a token is a `usize`, in which zero is the null address.
use core::marker::PhantomData;
use std::sync::Arc;

use vstd::prelude::*;

use crate::device::{Bound, Device, DeviceCall};
use crate::driver::Driver;
use crate::error::{law_error_codes, Allocation, Error, EINVAL, ENOENT, ENOMEM};
use crate::memory::{AllocRequest, Flags, Item};

verus! {

/// The function that the core runs when buffers of a virtqueue have been used: [`vq_callback`] for
/// the driver `T`, which hands over to its [`Driver::vq_callback`].
pub struct UsedCallback<T: Driver> {
    pub driver: PhantomData<T>,
}

/// Info for a virtqueue of the driver `T` (`struct virtqueue_info`).
pub struct VirtqueueInfo<T: Driver> {
    /// The name of the virtqueue.
    pub name: &'static str,
    /// Whether the buffers of the virtqueue carry a context.
    pub ctx: bool,
    /// What runs when buffers have been used.
    pub callback: Option<UsedCallback<T>>,
}

impl<T: Driver> VirtqueueInfo<T> {
    /// Create a new [`VirtqueueInfo`]. The callback is that of the driver `T`.
    pub fn new(name: &'static str, ctx: bool) -> (info: VirtqueueInfo<T>)
        ensures
            info.name == name,
            info.ctx == ctx,
            info.callback == Some(UsedCallback::<T> { driver: PhantomData }),
    {
        VirtqueueInfo { name, ctx, callback: Some(UsedCallback { driver: PhantomData }) }
    }
}

/// A container for discovered virtqueues returned by [`Device::found_vqs`] method.
///
/// This type can be indexed to receive a reference to a virtqueue. It holds at least one.
///
/// Whoever gives it up carries out the calls of [`Virtqueues::drop`].
pub struct Virtqueues {
    inner: Vec<Virtqueue>,
}

impl View for Virtqueues {
    type V = Seq<Virtqueue>;

    closed spec fn view(&self) -> Seq<Virtqueue> {
        self.inner@
    }
}

impl Virtqueues {
    #[verifier::type_invariant]
    spec fn nonempty(self) -> bool {
        self.inner@.len() > 0
    }

    /// Collects discovered virtqueues.
    pub fn from_found(inner: Vec<Virtqueue>) -> (vqs: Virtqueues)
        requires
            inner@.len() > 0,
        ensures
            vqs@ == inner@,
    {
        Virtqueues { inner }
    }

    /// Returns the number of virtqueues.
    pub fn len(&self) -> (len: usize)
        ensures
            len == self@.len(),
            len > 0,
    {
        proof {
            use_type_invariant(self);
        }
        self.inner.len()
    }

    /// The first virtqueue.
    pub fn first(&self) -> (vq: &Virtqueue)
        ensures
            self@.len() > 0,
            *vq == self@[0],
    {
        proof {
            use_type_invariant(self);
        }
        &self.inner[0]
    }

    /// What has to be done about the device when the virtqueues are given up: nothing where the
    /// first virtqueue has no device, else a reset and then the deletion of the virtqueues.
    pub open spec fn teardown(self) -> Seq<DeviceCall> {
        match self@[0].raw.vdev {
            None => seq![],
            Some(vdev) => match vdev.deletion() {
                None => seq![DeviceCall::Reset],
                Some(deletion) => seq![DeviceCall::Reset, deletion],
            },
        }
    }

    /// The calls by which the virtqueues are deleted, in their order.
    pub fn drop(&self) -> (calls: Vec<DeviceCall>)
        ensures
            calls@ == self.teardown(),
    {
        let mut calls: Vec<DeviceCall> = Vec::new();
        let Ok(vdev) = self.first().dev() else {
            return calls;
        };
        calls.push(vdev.reset());
        if let Some(deletion) = vdev.del_vqs() {
            calls.push(deletion);
        }
        calls
    }
}

impl core::ops::Index<usize> for Virtqueues {
    type Output = Virtqueue;

    fn index(&self, index: usize) -> (vq: &Virtqueue)
        ensures
            *vq == self@[index as int],
    {
        &self.inner[index]
    }
}

impl vstd::std_specs::core::IndexSpecImpl<usize> for Virtqueues {
    open spec fn index_req(&self, index: &usize) -> bool {
        *index < self@.len()
    }
}

/// What the core holds of a virtqueue (`struct virtqueue`) for as long as the virtqueue exists, as
/// far as the library reads it.
pub struct RawVirtqueue {
    /// The device the virtqueue belongs to.
    pub vdev: Option<Device<Bound>>,
    /// The name of the virtqueue.
    pub name: Option<String>,
    /// The ordinal number of the virtqueue.
    pub index: u32,
}

/// What the core holds of a virtqueue at one moment. It changes as the virtqueue is used, so it is
/// asked for anew each time it is needed.
#[derive(Copy, Clone, PartialEq, Eq, Structural, Debug)]
pub struct QueueState {
    /// The number of elements that are free.
    pub num_free: u32,
    /// The number of elements that the device supports.
    pub num_max: u32,
    /// The size of the vring.
    pub vring_size: u32,
}

/// A contiguous piece of memory, as the device sees it (`struct scatterlist`).
#[derive(Copy, Clone, PartialEq, Eq, Structural, Debug)]
pub struct Scatterlist {
    /// The base address.
    pub addr: usize,
    /// The number of bytes.
    pub length: u32,
}

/// A request to the core about a virtqueue.
#[derive(Copy, Clone, PartialEq, Eq, Structural, Debug)]
pub enum VirtqueueCall {
    /// `virtqueue_notify`: answered with whether the host could be notified.
    Notify,
    /// `virtqueue_kick_prepare`: answered with whether a notification is needed.
    KickPrepare,
    /// `virtqueue_kick`: answered with whether the virtqueue works.
    Kick,
    /// `virtqueue_enable_cb`: answered with whether the virtqueue has no pending buffers.
    EnableCb,
    /// `virtqueue_disable_cb`: not answered.
    DisableCb,
}

/// A request to the core to add scatter-gather lists to a virtqueue (`virtqueue_add_sgs`). The
/// lists that the device reads come first.
pub struct AddSgs {
    /// The lists.
    pub sgs: Vec<Scatterlist>,
    /// How many of them the device reads.
    pub out_sgs: u32,
    /// How many of them the device writes.
    pub in_sgs: u32,
    /// The token that the virtqueue hands back once the buffers are used.
    pub data: usize,
    /// How the core may obtain memory.
    pub gfp: Flags,
}

/// A request to the core to add a buffer that the device writes to a virtqueue
/// (`virtqueue_add_inbuf`).
#[derive(Copy, Clone, PartialEq, Eq, Structural, Debug)]
pub struct AddInbuf {
    /// The buffer.
    pub sg: Scatterlist,
    /// The number of entries of the buffer.
    pub num: u32,
    /// The token that the virtqueue hands back once the buffer is used.
    pub data: usize,
    /// How the core may obtain memory.
    pub gfp: Flags,
}

/// An opaque handler for a virtqueue.
pub struct Virtqueue {
    pub raw: RawVirtqueue,
}

impl Virtqueue {
    /// Create a [`Virtqueue`] from what the core holds of it.
    pub fn from_raw(raw: RawVirtqueue) -> (vq: Virtqueue)
        ensures
            vq.raw == raw,
    {
        Virtqueue { raw }
    }

    /// What the core holds of this virtqueue.
    pub fn as_raw(&self) -> (raw: &RawVirtqueue)
        ensures
            *raw == self.raw,
    {
        &self.raw
    }

    /// Get the [`Device`] associated with this virtqueue.
    pub fn dev(&self) -> (dev: Result<&Device<Bound>, Error>)
        ensures
            match self.raw.vdev {
                Some(vdev) => dev == Ok::<&Device<Bound>, Error>(&vdev),
                None => dev == Err::<&Device<Bound>, Error>(Error::of_errno(ENOENT)),
            },
    {
        match &self.as_raw().vdev {
            Some(vdev) => Ok(vdev),
            None => Err(Error::from_errno(ENOENT)),
        }
    }

    /// Get the name of this virtqueue (mainly for debugging).
    pub fn name(&self) -> (name: Option<&str>)
        ensures
            match self.raw.name {
                Some(given) => name matches Some(read) && read@ == given@,
                None => name is None,
            },
    {
        match &self.as_raw().name {
            Some(name) => Some(name.as_str()),
            None => None,
        }
    }

    /// Get the zero-based ordinal number for this queue.
    pub fn index(&self) -> (index: u32)
        ensures
            index == self.raw.index,
    {
        self.as_raw().index
    }

    /// Get the number of elements we expect to be able to fit.
    ///
    /// With indirect buffers, each buffer needs one element in the queue, otherwise a buffer will
    /// need one element per sg element.
    ///
    /// `now` is what the core holds of this virtqueue at the time of the call.
    pub fn num_free(&self, now: &QueueState) -> (num_free: u32)
        ensures
            num_free == now.num_free,
    {
        now.num_free
    }

    /// Get the maximum number of elements supported by the device.
    ///
    /// `now` is what the core holds of this virtqueue at the time of the call.
    pub fn num_max(&self, now: &QueueState) -> (num_max: u32)
        ensures
            num_max == now.num_max,
    {
        now.num_max
    }

    /// Get the vring size.
    ///
    /// `now` is what the core holds of this virtqueue at the time of the call.
    pub fn vring_size(&self, now: &QueueState) -> (size: u32)
        ensures
            size == now.vring_size,
    {
        now.vring_size
    }

    /// Notify virtqueue.
    pub fn notify(&self) -> (call: VirtqueueCall)
        ensures
            call == VirtqueueCall::Notify,
    {
        VirtqueueCall::Notify
    }

    /// Kick and prepare virtqueue.
    pub fn kick_prepare(&self) -> (call: VirtqueueCall)
        ensures
            call == VirtqueueCall::KickPrepare,
    {
        VirtqueueCall::KickPrepare
    }

    /// Kick virtqueue.
    pub fn kick(&self) -> (call: VirtqueueCall)
        ensures
            call == VirtqueueCall::Kick,
    {
        VirtqueueCall::Kick
    }

    /// Enable virtqueue's callback.
    pub fn enable_cb(&self) -> (call: VirtqueueCall)
        ensures
            call == VirtqueueCall::EnableCb,
    {
        VirtqueueCall::EnableCb
    }

    /// Disable virtqueue's callback.
    pub fn disable_cb(&self) -> (call: VirtqueueCall)
        ensures
            call == VirtqueueCall::DisableCb,
    {
        VirtqueueCall::DisableCb
    }

    /// Get a buffer from the virtqueue, if available.
    ///
    /// `data` and `len` are what the core answered to `virtqueue_get_buf`. This method returns the
    /// `token` value passed in [`Virtqueue::add_sgs`] method and the amount of bytes that were
    /// written by the device. The null address stands for the absence of a buffer.
    pub fn get_buf(&self, data: usize, len: u32) -> (buf: Option<(usize, u32)>)
        ensures
            data == 0 ==> buf is None,
            data != 0 ==> buf == Some((data, len)),
    {
        if data == 0 {
            return None;
        }
        Some((data, len))
    }

    /// Add a list of scatter-gather lists to virtqueue.
    ///
    /// Memory is needed for the list of lists first.
    ///
    /// The caller must ensure that the buffers and token live at least as long until the virtqueue
    /// has mark them used.
    pub fn add_sgs<PIn: VirtqueueMappable, POut: VirtqueueMappable>(
        &self,
        out_sgs: &SGReadable<POut>,
        in_sgs: &SGWritable<PIn>,
        token: usize,
        gfp: Flags,
    ) -> (setup: AddSgsSetup)
        requires
            token != 0,
        ensures
            setup.request == (AllocRequest { item: Item::ScatterlistPointer, count: 2, gfp }),
            setup.out_sg == out_sgs.entry(),
            setup.in_sg == in_sgs.entry(),
            setup.data == token,
    {
        AddSgsSetup {
            request: AllocRequest { item: Item::ScatterlistPointer, count: 2, gfp },
            out_sg: out_sgs.inner.sg,
            in_sg: in_sgs.inner.sg,
            data: token,
        }
    }

    /// Add a device-writable scatter-gather list to the virtqueue.
    ///
    /// The caller must ensure that the buffer and token live at least as long until the virtqueue
    /// has mark them used.
    pub fn add_inbuf<PIn: VirtqueueMappable>(
        &self,
        in_sgs: &SGWritable<PIn>,
        token: usize,
        gfp: Flags,
    ) -> (call: AddInbuf)
        requires
            token != 0,
        ensures
            call == (AddInbuf { sg: in_sgs.entry(), num: 1, data: token, gfp }),
    {
        AddInbuf { sg: in_sgs.inner.sg, num: 1, data: token, gfp }
    }

    /// Create a scatter-gather table readable by the device. Memory is needed for it first.
    pub fn new_readable_sg<P: VirtqueueMappable>(&self, buf: P, gfp: Flags) -> (setup:
        SGReadableSetup<P>)
        ensures
            setup.buf == buf,
            setup.request == table_request(gfp),
    {
        SGReadableSetup { request: AllocRequest { item: Item::SgTable, count: 1, gfp }, buf }
    }

    /// Create a scatter-gather table writable by the device. Memory is needed for it first.
    pub fn new_writable_sg<P: VirtqueueMappable>(&self, buf: P, gfp: Flags) -> (setup:
        SGWritableSetup<P>)
        ensures
            setup.buf == buf,
            setup.request == table_request(gfp),
    {
        SGWritableSetup { request: AllocRequest { item: Item::SgTable, count: 1, gfp }, buf }
    }
}

/// An addition of scatter-gather lists that waits for the memory for the list of lists.
pub struct AddSgsSetup {
    /// The memory that is needed.
    pub request: AllocRequest,
    /// The list that the device reads.
    pub out_sg: Scatterlist,
    /// The list that the device writes.
    pub in_sg: Scatterlist,
    /// The token.
    pub data: usize,
}

impl AddSgsSetup {
    /// Goes on when the allocator has answered: the request to the core, with the flags that the
    /// memory was asked for with.
    pub fn finish(self, answer: Allocation) -> (call: Result<AddSgs, Error>)
        ensures
            answer is Err ==> call == Err::<AddSgs, Error>(Error::of_errno(ENOMEM)),
            answer is Ok ==> {
                &&& call matches Ok(add)
                &&& add.sgs@ == seq![self.out_sg, self.in_sg]
                &&& add.out_sgs == 1
                &&& add.in_sgs == 1
                &&& add.data == self.data
                &&& add.gfp == self.request.gfp
            },
    {
        if let Err(e) = answer {
            return Err(Error::from(e));
        }
        let mut sgs: Vec<Scatterlist> = Vec::with_capacity(2);
        sgs.push(self.out_sg);
        let out_sgs_num: u32 = 1;
        sgs.push(self.in_sg);
        let in_sgs_num: u32 = 1;
        Ok(
            AddSgs {
                sgs,
                out_sgs: out_sgs_num,
                in_sgs: in_sgs_num,
                data: self.data,
                gfp: self.request.gfp,
            },
        )
    }
}

/// The memory that a scatter-gather table needs.
pub open spec fn table_request(gfp: Flags) -> AllocRequest {
    AllocRequest { item: Item::SgTable, count: 1, gfp }
}

/// A table readable by the device that waits for its memory.
pub struct SGReadableSetup<P> {
    /// The memory that is needed.
    pub request: AllocRequest,
    /// The buffer of the table.
    pub buf: P,
}

impl<P: VirtqueueMappable> SGReadableSetup<P> {
    /// Goes on when the allocator has answered.
    pub fn finish(self, answer: Allocation) -> (sg: Result<SGReadable<P>, Error>)
        ensures
            match mapped(self.buf, answer) {
                Ok(entry) => sg matches Ok(table) && table.entry() == entry && table.buf()
                    == self.buf,
                Err(error) => sg == Err::<SGReadable<P>, Error>(error),
            },
    {
        if let Err(e) = answer {
            return Err(Error::from(e));
        }
        match SGInner::new(self.buf) {
            Ok(inner) => Ok(SGReadable { inner: Arc::new(inner) }),
            Err(error) => Err(error),
        }
    }
}

/// A table writable by the device that waits for its memory.
pub struct SGWritableSetup<P> {
    /// The memory that is needed.
    pub request: AllocRequest,
    /// The buffer of the table.
    pub buf: P,
}

impl<P: VirtqueueMappable> SGWritableSetup<P> {
    /// Goes on when the allocator has answered.
    pub fn finish(self, answer: Allocation) -> (sg: Result<SGWritable<P>, Error>)
        ensures
            match mapped(self.buf, answer) {
                Ok(entry) => sg matches Ok(table) && table.entry() == entry && table.buf()
                    == self.buf,
                Err(error) => sg == Err::<SGWritable<P>, Error>(error),
            },
    {
        if let Err(e) = answer {
            return Err(Error::from(e));
        }
        match SGInner::new(self.buf) {
            Ok(inner) => Ok(SGWritable { inner: Arc::new(inner) }),
            Err(error) => Err(error),
        }
    }
}

/// Trait to be implemented by types which can be mapped as buffers in virtqueues.
///
/// The trait must be implemented for contiguously allocated types.
///
/// It is the user's responsibility that the data lives as long as it is mapped in virtqueues.
pub trait VirtqueueMappable: Sized {
    /// The type of the allocation, e.g. a `Box<T>` allocation has a `T` target.
    type Target;

    /// The base address of the allocation.
    spec fn base(&self) -> usize;

    /// The size of the allocation.
    spec fn extent(&self) -> usize;

    /// Return the base address.
    fn data(&self) -> (addr: usize)
        ensures
            addr == self.base(),
    ;

    /// Return the allocation size.
    fn size(&self) -> (size: usize)
        ensures
            size == self.extent(),
    ;
}

/// A contiguous allocation of any type, given by its base address and its size.
#[derive(Copy, Clone, PartialEq, Eq, Structural, Debug)]
pub struct Region {
    pub addr: usize,
    pub size: usize,
}

impl VirtqueueMappable for Region {
    type Target = u8;

    open spec fn base(&self) -> usize {
        self.addr
    }

    open spec fn extent(&self) -> usize {
        self.size
    }

    fn data(&self) -> (addr: usize) {
        self.addr
    }

    fn size(&self) -> (size: usize) {
        self.size
    }
}

/// The entry under which a device sees `buf`. There is none for the null address, nor for an
/// allocation whose size is not a `u32`.
pub open spec fn entry_of<P: VirtqueueMappable>(buf: P) -> Result<Scatterlist, Error> {
    if buf.base() == 0 || buf.extent() > u32::MAX {
        Err(Error::of_errno(EINVAL))
    } else {
        Ok(Scatterlist { addr: buf.base(), length: buf.extent() as u32 })
    }
}

/// The entry of a new table over `buf`, where `slot` is the memory for the table.
pub open spec fn mapped<P: VirtqueueMappable>(buf: P, slot: Allocation) -> Result<
    Scatterlist,
    Error,
> {
    match slot {
        Err(_) => Err(Error::of_errno(ENOMEM)),
        Ok(_) => entry_of(buf),
    }
}

/// Whatever a device sees of a buffer is the buffer: an entry has the base address of the
/// allocation, which is not null, and its size.
pub proof fn law_entry_is_the_buffer<P: VirtqueueMappable>(buf: P, slot: Allocation)
    requires
        mapped(buf, slot) is Ok,
    ensures
        mapped(buf, slot)->Ok_0.addr == buf.base(),
        mapped(buf, slot)->Ok_0.length == buf.extent(),
        buf.base() != 0,
{
}

/// A buffer together with the entry under which the device sees it.
struct SGInner<P> {
    sg: Scatterlist,
    buf: P,
}

impl<P: VirtqueueMappable> SGInner<P> {
    fn new(buf: P) -> (inner: Result<SGInner<P>, Error>)
        ensures
            match entry_of(buf) {
                Ok(entry) => inner == Ok::<SGInner<P>, Error>(SGInner { sg: entry, buf }),
                Err(error) => inner == Err::<SGInner<P>, Error>(error),
            },
    {
        let addr: usize = buf.data();
        if addr == 0 {
            return Err(Error::from_errno(EINVAL));
        }
        match u32::try_from(buf.size()) {
            Ok(length) => Ok(SGInner { sg: Scatterlist { addr, length }, buf }),
            Err(_) => Err(Error::from_errno(EINVAL)),
        }
    }
}

/// A scatterlist that will be DMA-mapped as device-readable.
///
/// Created by [`Virtqueue::new_readable_sg`].
pub struct SGReadable<P> {
    inner: Arc<SGInner<P>>,
}

impl<P> SGReadable<P> {
    /// The entry under which the device sees the buffer.
    pub closed spec fn entry(self) -> Scatterlist {
        self.inner.sg
    }

    /// The buffer.
    pub closed spec fn buf(self) -> P {
        self.inner.buf
    }
}

impl<P: Clone> Clone for SGReadable<P> {
    fn clone(&self) -> (sg: SGReadable<P>)
        ensures
            sg == *self,
    {
        SGReadable { inner: self.inner.clone() }
    }
}

/// A scatterlist that will be DMA-mapped as device-writable.
///
/// Created by [`Virtqueue::new_writable_sg`].
pub struct SGWritable<P> {
    inner: Arc<SGInner<P>>,
}

impl<P> SGWritable<P> {
    /// The entry under which the device sees the buffer.
    pub closed spec fn entry(self) -> Scatterlist {
        self.inner.sg
    }

    /// The buffer.
    pub closed spec fn buf(self) -> P {
        self.inner.buf
    }
}

impl<P: VirtqueueMappable> SGWritable<P> {
    /// Get the address of the sg's data.
    ///
    /// The data might be DMA'ed by the device at any point, it is up to the caller to ensure it
    /// does not read from this address if that can happen.
    pub fn data(&self) -> (addr: Option<usize>)
        ensures
            self.buf().base() == 0 ==> addr is None,
            self.buf().base() != 0 ==> addr == Some(self.buf().base()),
    {
        let addr: usize = self.inner.buf.data();
        if addr == 0 {
            return None;
        }
        Some(addr)
    }
}

/// Runs when buffers of `vq` have been used: hands over to the [`Driver::vq_callback`] of the
/// driver, with the device of `vq`. `drvdata` is the driver data of that device.
pub fn vq_callback<T: Driver>(vq: &Virtqueue, drvdata: Option<&T>)
    requires
        vq.raw.vdev is Some,
        drvdata is Some,
    ensures
        call_ensures(T::vq_callback, (drvdata->0, vq, &vq.raw.vdev->0), ()),
{
    let dev = vq.dev().unwrap();
    let data = drvdata.unwrap();
    data.vq_callback(vq, dev);
}

/// Virtqueues that are given up are deleted: if the first has a device, the device is reset and
/// then its virtqueues are deleted, where its transport can delete them. How many virtqueues there
/// are, and what the others hold, makes no difference. Without a device nothing is done.
pub proof fn law_giving_up_deletes(vqs: &Virtqueues, calls: Vec<DeviceCall>)
    requires
        call_ensures(Virtqueues::drop, (vqs,), calls),
    ensures
        vqs@[0].raw.vdev is None ==> calls@ == Seq::<DeviceCall>::empty(),
        vqs@[0].raw.vdev matches Some(vdev) ==> calls@ == if vdev.raw.has_del_vqs {
            seq![DeviceCall::Reset, DeviceCall::DelVqs]
        } else {
            seq![DeviceCall::Reset]
        },
        calls@ == vqs.teardown(),
{
}

/// A virtqueue without a device says so, and one with a device gives it.
pub proof fn law_device_of_a_virtqueue(vq: &Virtqueue, dev: Result<&Device<Bound>, Error>)
    requires
        call_ensures(Virtqueue::dev, (vq,), dev),
    ensures
        vq.raw.vdev matches Some(vdev) ==> dev is Ok && *dev->Ok_0 == vdev,
        vq.raw.vdev is None ==> dev is Err && dev->Err_0.code() == -2,
{
    law_error_codes(ENOENT);
}

/// A table that the device reads is made whenever there is memory for it and the buffer has an
/// address and a size that the device can be told. Then the device sees the whole buffer.
pub proof fn law_readable_table<P: VirtqueueMappable>(
    vq: &Virtqueue,
    buf: P,
    gfp: Flags,
    answer: Allocation,
    setup: SGReadableSetup<P>,
    sg: Result<SGReadable<P>, Error>,
)
    requires
        call_ensures(Virtqueue::new_readable_sg::<P>, (vq, buf, gfp), setup),
        call_ensures(SGReadableSetup::<P>::finish, (setup, answer), sg),
    ensures
        setup.request.item == Item::SgTable,
        setup.request.count == 1,
        setup.request.gfp == gfp,
        sg is Ok <==> answer is Ok && buf.base() != 0 && buf.extent() <= 0xffff_ffff,
        sg is Ok ==> {
            &&& sg->Ok_0.entry().addr == buf.base()
            &&& sg->Ok_0.entry().length == buf.extent()
            &&& sg->Ok_0.buf() == buf
        },
        answer is Err ==> sg->Err_0.code() == -12,
        answer is Ok && sg is Err ==> sg->Err_0.code() == -22,
{
    law_error_codes(ENOMEM);
    law_error_codes(EINVAL);
}

/// A table that the device writes is made whenever there is memory for it and the buffer has an
/// address and a size that the device can be told. Then the device sees the whole buffer.
pub proof fn law_writable_table<P: VirtqueueMappable>(
    vq: &Virtqueue,
    buf: P,
    gfp: Flags,
    answer: Allocation,
    setup: SGWritableSetup<P>,
    sg: Result<SGWritable<P>, Error>,
)
    requires
        call_ensures(Virtqueue::new_writable_sg::<P>, (vq, buf, gfp), setup),
        call_ensures(SGWritableSetup::<P>::finish, (setup, answer), sg),
    ensures
        setup.request.item == Item::SgTable,
        setup.request.count == 1,
        setup.request.gfp == gfp,
        sg is Ok <==> answer is Ok && buf.base() != 0 && buf.extent() <= 0xffff_ffff,
        sg is Ok ==> {
            &&& sg->Ok_0.entry().addr == buf.base()
            &&& sg->Ok_0.entry().length == buf.extent()
            &&& sg->Ok_0.buf() == buf
        },
        answer is Err ==> sg->Err_0.code() == -12,
        answer is Ok && sg is Err ==> sg->Err_0.code() == -22,
{
    law_error_codes(ENOMEM);
    law_error_codes(EINVAL);
}

/// Every buffer that has an address and a size that the device can be told has an entry, and no
/// other has one.
pub proof fn law_which_buffers_have_entries<P: VirtqueueMappable>(buf: P)
    ensures
        entry_of(buf) is Ok <==> buf.base() != 0 && buf.extent() <= 0xffff_ffff,
        entry_of(buf) is Ok ==> entry_of(buf)->Ok_0.addr == buf.base(),
        entry_of(buf) is Ok ==> entry_of(buf)->Ok_0.length == buf.extent(),
        entry_of(buf) is Err ==> entry_of(buf)->Err_0.code() == -22,
{
    law_error_codes(EINVAL);
}

/// A region is mapped from its address and over its whole size.
pub proof fn law_region_is_mapped_whole(region: &Region, addr: usize, size: usize)
    requires
        call_ensures(<Region as VirtqueueMappable>::data, (region,), addr),
        call_ensures(<Region as VirtqueueMappable>::size, (region,), size),
    ensures
        addr == region.addr,
        size == region.size,
        region.base() == region.addr,
        region.extent() == region.size,
{
}

/// Lists that are added to a virtqueue reach the core as they are: first the one that the device
/// reads, then the one that it writes, under the token and with the flags that were given.
pub proof fn law_lists_are_added<PIn: VirtqueueMappable, POut: VirtqueueMappable>(
    vq: &Virtqueue,
    out_sgs: &SGReadable<POut>,
    in_sgs: &SGWritable<PIn>,
    token: usize,
    gfp: Flags,
    answer: Allocation,
    setup: AddSgsSetup,
    call: Result<AddSgs, Error>,
)
    requires
        token != 0,
        call_ensures(Virtqueue::add_sgs::<PIn, POut>, (vq, out_sgs, in_sgs, token, gfp), setup),
        call_ensures(AddSgsSetup::finish, (setup, answer), call),
    ensures
        setup.request.item == Item::ScatterlistPointer,
        setup.request.count == 2,
        setup.request.gfp == gfp,
        call is Ok <==> answer is Ok,
        call is Ok ==> {
            let add = call->Ok_0;
            &&& add.sgs@ == seq![out_sgs.entry(), in_sgs.entry()]
            &&& add.out_sgs == 1
            &&& add.in_sgs == 1
            &&& add.data == token
            &&& add.gfp == gfp
        },
        call is Err ==> call->Err_0.code() == -12,
{
    law_error_codes(ENOMEM);
}

/// A buffer that is added to a virtqueue is the whole buffer of its table, and its token comes
/// back, with the number of bytes that the device wrote, once the core hands it out. The core
/// hands out the null address where it has no buffer.
pub proof fn law_token_comes_back<PIn: VirtqueueMappable>(
    vq: &Virtqueue,
    in_sgs: &SGWritable<PIn>,
    token: usize,
    gfp: Flags,
    len: u32,
    call: AddInbuf,
    taken: Option<(usize, u32)>,
    none: Option<(usize, u32)>,
)
    requires
        token != 0,
        call_ensures(Virtqueue::add_inbuf::<PIn>, (vq, in_sgs, token, gfp), call),
        call_ensures(Virtqueue::get_buf, (vq, call.data, len), taken),
        call_ensures(Virtqueue::get_buf, (vq, 0, len), none),
    ensures
        call.sg == in_sgs.entry(),
        call.num == 1,
        call.gfp == gfp,
        taken == Some((token, len)),
        none is None,
{
}

/// The data of a table is at the address of its buffer.
pub proof fn law_data_of_a_table<P: VirtqueueMappable>(sg: &SGWritable<P>, addr: Option<usize>)
    requires
        call_ensures(SGWritable::<P>::data, (sg,), addr),
    ensures
        addr is Some <==> sg.buf().base() != 0,
        addr is Some ==> addr->0 == sg.buf().base(),
{
}

/// A virtqueue is what the core holds of it: its name and numbers come back as they are.
pub proof fn law_virtqueue_is_what_the_core_holds(
    raw: RawVirtqueue,
    vq: Virtqueue,
    held: &RawVirtqueue,
    name: Option<&str>,
    index: u32,
    now: &QueueState,
    num_free: u32,
    num_max: u32,
    vring_size: u32,
)
    requires
        call_ensures(Virtqueue::from_raw, (raw,), vq),
        call_ensures(Virtqueue::as_raw, (&vq,), held),
        call_ensures(Virtqueue::name, (&vq,), name),
        call_ensures(Virtqueue::index, (&vq,), index),
        call_ensures(Virtqueue::num_free, (&vq, now), num_free),
        call_ensures(Virtqueue::num_max, (&vq, now), num_max),
        call_ensures(Virtqueue::vring_size, (&vq, now), vring_size),
    ensures
        *held == raw,
        name is Some <==> raw.name is Some,
        name is Some ==> name->0@ == raw.name->0@,
        index == raw.index,
        num_free == now.num_free,
        num_max == now.num_max,
        vring_size == now.vring_size,
{
}

/// Each request about a virtqueue asks the core for what its name says.
pub proof fn law_requests_about_a_virtqueue(
    vq: &Virtqueue,
    notify: VirtqueueCall,
    kick_prepare: VirtqueueCall,
    kick: VirtqueueCall,
    enable_cb: VirtqueueCall,
    disable_cb: VirtqueueCall,
)
    requires
        call_ensures(Virtqueue::notify, (vq,), notify),
        call_ensures(Virtqueue::kick_prepare, (vq,), kick_prepare),
        call_ensures(Virtqueue::kick, (vq,), kick),
        call_ensures(Virtqueue::enable_cb, (vq,), enable_cb),
        call_ensures(Virtqueue::disable_cb, (vq,), disable_cb),
    ensures
        notify is Notify,
        kick_prepare is KickPrepare,
        kick is Kick,
        enable_cb is EnableCb,
        disable_cb is DisableCb,
{
}

/// Collected virtqueues are all there, in their order.
pub proof fn law_virtqueues_are_kept(
    inner: Vec<Virtqueue>,
    vqs: Virtqueues,
    len: usize,
    first: &Virtqueue,
    index: usize,
    vq: &Virtqueue,
)
    requires
        inner@.len() > 0,
        index < inner@.len(),
        call_ensures(Virtqueues::from_found, (inner,), vqs),
        call_ensures(Virtqueues::len, (&vqs,), len),
        call_ensures(Virtqueues::first, (&vqs,), first),
        call_ensures(<Virtqueues as core::ops::Index<usize>>::index, (&vqs, index), vq),
    ensures
        len == inner@.len(),
        *first == inner@[0],
        *vq == inner@[index as int],
{
}

/// A description of a virtqueue holds the name and the context that it was given, and the callback
/// of its driver.
pub proof fn law_description_of_a_virtqueue<T: Driver>(
    name: &'static str,
    ctx: bool,
    info: VirtqueueInfo<T>,
)
    requires
        call_ensures(VirtqueueInfo::<T>::new, (name, ctx), info),
    ensures
        info.name@ == name@,
        info.ctx == ctx,
        info.callback is Some,
{
}

/// A clone of a table shows the device the same buffer.
pub proof fn law_clone_of_a_table<P: Clone>(sg: &SGReadable<P>, clone: SGReadable<P>)
    requires
        call_ensures(<SGReadable<P> as Clone>::clone, (sg,), clone),
    ensures
        clone.entry() == sg.entry(),
        clone.buf() == sg.buf(),
{
}

/// When buffers of a virtqueue have been used, its driver is told of that virtqueue and its device.
pub proof fn law_driver_is_told<T: Driver>(vq: &Virtqueue, data: &T)
    requires
        vq.raw.vdev is Some,
        call_ensures(vq_callback::<T>, (vq, Some(data)), ()),
    ensures
        call_ensures(T::vq_callback, (data, vq, &vq.raw.vdev->0), ()),
{
}

} // verus!
