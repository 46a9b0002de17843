//! Virtio entropy driver
//!
//! The driver keeps one buffer of [`inner::DATA_BUF_SIZE`] bytes. It hands the buffer to the
//! device, which fills it with entropy; readers then consume the buffer, and once it is used up
//! it is handed to the device again.
//!
//! Readers and the virtqueue callback run concurrently and share the four words of
//! [`inner::RngState`]. An operation of the driver is therefore a [`task::Task`]: it proceeds in
//! steps, each of which makes at most one access to the shared words and ends where something
//! has to be asked of the core.
pub mod driver;
pub mod inner;
pub mod name;
pub mod solo;
pub mod system;
pub mod task;
