//! The data of the entropy driver.
use vstd::prelude::*;

use crate::device::DeviceCall;
use crate::error::{law_error_codes, AllocError, Allocation, Error, ENOMEM};
use crate::memory::Flags;
use crate::virtqueue::{
    entry_of, law_which_buffers_have_entries, mapped, AddInbuf, SGWritable, Scatterlist,
    VirtqueueMappable, Virtqueues,
};

verus! {

/// The number of bytes that are asked of the device at a time.
pub const DATA_BUF_SIZE: usize = 64;

/// The buffer that the device fills: its address. It has [`DATA_BUF_SIZE`] bytes, which are zero
/// until the device has filled it: see [`crate::rng::driver::ProbeAsk::Buffer`].
#[derive(Copy, Clone, PartialEq, Eq, Structural, Debug)]
pub struct EntropyBuffer {
    pub addr: usize,
}

impl VirtqueueMappable for EntropyBuffer {
    type Target = [u8; DATA_BUF_SIZE];

    open spec fn base(&self) -> usize {
        self.addr
    }

    open spec fn extent(&self) -> usize {
        DATA_BUF_SIZE
    }

    fn data(&self) -> (addr: usize) {
        self.addr
    }

    fn size(&self) -> (size: usize) {
        DATA_BUF_SIZE
    }
}

/// The destination of a read: what has been written to it, and how much it can take.
pub struct Buffer {
    data: Vec<u8>,
    capacity: usize,
}

impl View for Buffer {
    type V = Seq<u8>;

    closed spec fn view(&self) -> Seq<u8> {
        self.data@
    }
}

impl Buffer {
    /// The number of bytes that the buffer takes in all.
    pub closed spec fn capacity(self) -> nat {
        self.capacity as nat
    }

    /// The number of bytes that the buffer still takes.
    pub open spec fn room(self) -> nat {
        (self.capacity() - self@.len()) as nat
    }

    #[verifier::type_invariant]
    spec fn within_capacity(self) -> bool {
        self.data@.len() <= self.capacity
    }

    /// An empty buffer that takes `capacity` bytes.
    pub fn new(capacity: usize) -> (buffer: Buffer)
        ensures
            buffer@ == Seq::<u8>::empty(),
            buffer.capacity() == capacity,
    {
        Buffer { data: Vec::new(), capacity }
    }

    /// The number of bytes that the buffer still takes.
    pub fn len(&self) -> (len: usize)
        ensures
            len == self.room(),
            self@.len() + len == self.capacity(),
    {
        proof {
            use_type_invariant(self);
        }
        self.capacity - self.data.len()
    }

    /// Whether the buffer takes no more bytes.
    pub fn is_empty(&self) -> (full: bool)
        ensures
            full == (self.room() == 0),
            self@.len() + self.room() == self.capacity(),
    {
        self.len() == 0
    }

    /// Writes `bytes` behind what has been written before.
    pub fn write(&mut self, bytes: &[u8])
        requires
            bytes@.len() <= old(self).room(),
        ensures
            final(self)@ == old(self)@ + bytes@,
            final(self).capacity() == old(self).capacity(),
            final(self).room() == old(self).room() - bytes@.len(),
    {
        proof {
            use_type_invariant(&*self);
        }
        let mut data: Vec<u8> = Vec::new();
        std::mem::swap(&mut data, &mut self.data);
        data.extend_from_slice(bytes);
        assert(data@ == old(self)@ + bytes@);
        self.data = data;
    }

    /// What has been written to the buffer.
    pub fn written(&self) -> (bytes: &[u8])
        ensures
            bytes@ == self@,
    {
        self.data.as_slice()
    }
}

/// The words that the operations of the driver share.
#[derive(Copy, Clone, PartialEq, Eq, Structural, Debug)]
pub struct RngState {
    /// The position in the buffer of the first byte that has not been consumed.
    pub data_idx: u32,
    /// The number of bytes that can be consumed.
    pub data_avail: u32,
    /// Whether the device has been removed.
    pub removed: bool,
    /// Whether the buffer is, or is about to be, with the device.
    pub in_flight: bool,
}

/// The driver data.
pub struct VirtioRngInner {
    /// The virtqueues. The first is the one by which entropy is requested.
    pub vq: Virtqueues,
    /// The address that identifies the buffer to the virtqueue.
    pub token: usize,
    /// The buffer.
    pub sg: SGWritable<EntropyBuffer>,
    /// The shared words.
    pub state: RngState,
}

impl VirtioRngInner {
    /// The token of a driver is an address.
    pub open spec fn wf(self) -> bool {
        self.token != 0
    }

    /// The request that hands the buffer to the device.
    pub open spec fn add_request(self) -> AddInbuf {
        AddInbuf { sg: self.sg.entry(), num: 1, data: self.token, gfp: Flags::Kernel }
    }
}

/// A random number generator, as it is registered.
pub struct HwRng {
    /// The name of the generator.
    pub name: String,
    /// What is known of the quality of its entropy.
    pub quality: u16,
    /// The driver data.
    pub inner: VirtioRngInner,
}

/// Why a driver could not be set up, and what has to be done about the device: the virtqueues that
/// had been discovered for the driver are given up.
pub struct Failure {
    pub error: Error,
    pub teardown: Vec<DeviceCall>,
}

impl Failure {
    /// Gives up `vq` on account of `error`.
    pub fn giving_up(vq: &Virtqueues, error: Error) -> (failure: Failure)
        ensures
            failure.error == error,
            failure.teardown@ == vq.teardown(),
    {
        Failure { error, teardown: vq.drop() }
    }
}

/// Why the driver data cannot be set up, if so: the buffer, the table over it and the token are
/// made in this order, and the first that cannot be made decides.
pub open spec fn setup_error(
    buf: Result<EntropyBuffer, AllocError>,
    table: Allocation,
    token: Result<usize, AllocError>,
) -> Option<Error> {
    match buf {
        Err(_) => Some(Error::of_errno(ENOMEM)),
        Ok(buf) => match mapped(buf, table) {
            Err(error) => Some(error),
            Ok(_) => match token {
                Err(_) => Some(Error::of_errno(ENOMEM)),
                Ok(_) => None,
            },
        },
    }
}

impl HwRng {
    /// The generator is as it has been set up with these parts: no data is available, and nothing
    /// has been asked of the device.
    pub open spec fn made_of(
        self,
        name: Seq<char>,
        vq: Virtqueues,
        buf: EntropyBuffer,
        token: usize,
    ) -> bool {
        &&& self.name@ == name
        &&& self.quality == 0
        &&& self.inner.vq == vq
        &&& self.inner.token == token
        &&& self.inner.sg.buf() == buf
        &&& Ok::<Scatterlist, Error>(self.inner.sg.entry()) == entry_of(buf)
        &&& self.inner.state == RngState {
            data_idx: 0,
            data_avail: 0,
            removed: false,
            in_flight: false,
        }
    }
}

impl VirtioRngInner {
    /// Sets up the driver data over the virtqueues `vq`, for a generator called `name`.
    ///
    /// `buf`, `table` and `token` are what the allocator answered to the requests for the buffer,
    /// for the table over it and for the token: see [`crate::rng::driver::VirtioRngDriver::ask`].
    /// Answers behind a refusal do not matter.
    pub fn new(
        name: String,
        vq: Virtqueues,
        buf: Result<EntropyBuffer, AllocError>,
        table: Allocation,
        token: Result<usize, AllocError>,
    ) -> (made: Result<HwRng, Failure>)
        requires
            token matches Ok(addr) ==> addr != 0,
        ensures
            match setup_error(buf, table, token) {
                Some(error) => made matches Err(failure) && failure.error == error
                    && failure.teardown@ == vq.teardown(),
                None => made matches Ok(rng) && rng.made_of(name@, vq, buf->Ok_0, token->Ok_0)
                    && rng.inner.wf(),
            },
    {
        let buf = match buf {
            Ok(buf) => buf,
            Err(e) => {
                return Err(Failure::giving_up(&vq, Error::from(e)));
            },
        };
        let sg = match vq.first().new_writable_sg(buf, Flags::Kernel).finish(table) {
            Ok(sg) => sg,
            Err(error) => {
                return Err(Failure::giving_up(&vq, error));
            },
        };
        let token: usize = match token {
            Ok(token) => token,
            Err(e) => {
                return Err(Failure::giving_up(&vq, Error::from(e)));
            },
        };
        let state = RngState { data_idx: 0, data_avail: 0, removed: false, in_flight: false };
        Ok(HwRng { name, quality: 0, inner: VirtioRngInner { vq, token, sg, state } })
    }
}

/// The buffer that the device fills is mapped from its address and over its 64 bytes.
pub proof fn law_entropy_buffer_is_mapped_whole(buf: &EntropyBuffer, addr: usize, size: usize)
    requires
        call_ensures(<EntropyBuffer as VirtqueueMappable>::data, (buf,), addr),
        call_ensures(<EntropyBuffer as VirtqueueMappable>::size, (buf,), size),
    ensures
        addr == buf.addr,
        size == 64,
        buf.base() == buf.addr,
        buf.extent() == 64,
{
}

/// The room of a destination is what it takes in all, less what has been written to it.
pub proof fn law_room(capacity: usize, fresh: Buffer, buffer: &Buffer, len: usize, full: bool)
    requires
        call_ensures(Buffer::new, (capacity,), fresh),
        call_ensures(Buffer::len, (buffer,), len),
        call_ensures(Buffer::is_empty, (buffer,), full),
    ensures
        fresh@.len() == 0,
        fresh.room() == capacity,
        buffer@.len() + len == buffer.capacity(),
        full <==> buffer@.len() == buffer.capacity(),
{
}

/// The driver data is set up whenever there is memory for all its parts and the buffer has an
/// address. Then the generator has the name, the virtqueues, the buffer and the token that it was
/// given, claims no quality, and has neither data nor a request under way. Otherwise the virtqueues
/// are given up, and the error says whether memory or the address is missing.
pub proof fn law_setup(
    name: String,
    vq: Virtqueues,
    buf: Result<EntropyBuffer, AllocError>,
    table: Allocation,
    token: Result<usize, AllocError>,
    made: Result<HwRng, Failure>,
)
    requires
        token matches Ok(addr) ==> addr != 0,
        call_ensures(VirtioRngInner::new, (name, vq, buf, table, token), made),
    ensures
        made is Ok <==> buf is Ok && buf->Ok_0.addr != 0 && table is Ok && token is Ok,
        made is Ok ==> {
            let rng = made->Ok_0;
            &&& rng.name@ == name@
            &&& rng.quality == 0
            &&& rng.inner.vq == vq
            &&& rng.inner.token == token->Ok_0
            &&& rng.inner.sg.buf() == buf->Ok_0
            &&& rng.inner.sg.entry().addr == buf->Ok_0.addr
            &&& rng.inner.sg.entry().length == 64
            &&& rng.inner.state.data_idx == 0
            &&& rng.inner.state.data_avail == 0
            &&& !rng.inner.state.removed
            &&& !rng.inner.state.in_flight
        },
        made is Err ==> {
            &&& made->Err_0.error.code() == if buf is Ok && table is Ok && buf->Ok_0.addr == 0 {
                -22int
            } else {
                -12
            }
            &&& made->Err_0.teardown@ == match vq@[0].raw.vdev {
                None => Seq::<DeviceCall>::empty(),
                Some(vdev) => if vdev.raw.has_del_vqs {
                    seq![DeviceCall::Reset, DeviceCall::DelVqs]
                } else {
                    seq![DeviceCall::Reset]
                },
            }
        },
{
    law_error_codes(ENOMEM);
    if let Ok(buffer) = buf {
        law_which_buffers_have_entries(buffer);
    }
}

/// What is written to a destination comes behind what it held, which stays as it was, and takes as
/// much of its room.
pub proof fn law_writes_append(buf: &mut Buffer, bytes: &[u8])
    requires
        bytes@.len() <= old(buf).room(),
        call_ensures(Buffer::write, (buf, bytes), ()),
    ensures
        final(buf)@.len() == old(buf)@.len() + bytes@.len(),
        final(buf)@.take(old(buf)@.len() as int) == old(buf)@,
        final(buf)@.skip(old(buf)@.len() as int) == bytes@,
        final(buf).capacity() == old(buf).capacity(),
        final(buf).room() + bytes@.len() == old(buf).room(),
{
    assert(final(buf)@.take(old(buf)@.len() as int) =~= old(buf)@);
    assert(final(buf)@.skip(old(buf)@.len() as int) =~= bytes@);
}

} // verus!
