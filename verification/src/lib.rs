//! VIRTIO abstraction.
//!
//! The library makes the decisions of a VIRTIO driver: which requests go to the VIRTIO core, in
//! which order, and what follows from the answers. It performs no request itself. A function that
//! needs something of the core or of the allocator returns the request, or takes the answer.
//!
//! To implement a VIRTIO driver:
//!
//! - Implement the [`Driver`] trait for your driver type
//! - Register the entry that [`Adapter::register`] fills in for it, and let the callbacks of the
//!   entry follow the steps that [`Adapter`] prescribes.
//!
//! # Interacting with virtqueues
//!
//! See [`virtqueue`] documentation.

pub mod device;
pub mod driver;
pub mod error;
pub mod id;
pub mod memory;
pub mod rng;
pub mod utils;
pub mod virtqueue;

pub use device::{Device, DeviceId, VIRTIO_DEV_ANY_ID};
pub use driver::{Adapter, Driver};
pub use id::VirtioID;
