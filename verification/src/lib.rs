//! Device side of a virtio split virtqueue: descriptor chains, the available
//! and used rings, and notification suppression, over guest memory.

pub mod chain;
pub mod descriptor;
pub mod error;
pub mod memory;
pub mod queue;
pub mod ring;
pub mod wire;

pub use chain::{DescriptorChain, DescriptorChainRwIter};
pub use descriptor::{
    Descriptor, VirtqUsedElem, VIRTQ_DESCRIPTOR_SIZE, VIRTQ_DESC_F_INDIRECT, VIRTQ_DESC_F_NEXT,
    VIRTQ_DESC_F_WRITE,
};
pub use error::Error;
pub use queue::{AvailIter, Queue, QueueDefect};
pub use ring::VIRTQ_USED_F_NO_NOTIFY;
