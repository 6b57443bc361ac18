//! What can go wrong on a virtqueue.

use vm_memory::guest_memory::Error as GuestMemoryError;
use vstd::prelude::*;

verus! {

/// Virtio Queue related errors.
#[derive(Debug)]
pub enum Error {
    /// Failed to access guest memory.
    GuestMemory(GuestMemoryError),
    /// Invalid indirect descriptor.
    InvalidIndirectDescriptor,
    /// Invalid indirect descriptor table.
    InvalidIndirectDescriptorTable,
    /// Invalid descriptor chain.
    InvalidChain,
    /// Invalid descriptor index.
    InvalidDescriptorIndex,
}

impl Error {
    /// The text that describes the error.
    pub open spec fn spec_message(&self) -> Seq<char> {
        match self {
            Error::GuestMemory(_) => "error accessing guest memory"@,
            Error::InvalidChain => "invalid descriptor chain"@,
            Error::InvalidIndirectDescriptor => "invalid indirect descriptor"@,
            Error::InvalidIndirectDescriptorTable => "invalid indirect descriptor table"@,
            Error::InvalidDescriptorIndex => "invalid descriptor index"@,
        }
    }

    /// What the outcome of an access to guest memory is to the queue: the
    /// value that the access gave, or the failure of the memory as an error
    /// of the queue.
    pub open spec fn spec_from_memory<T>(outcome: Result<T, GuestMemoryError>) -> Result<T, Error> {
        match outcome {
            Ok(value) => Ok(value),
            Err(e) => Err(Error::GuestMemory(e)),
        }
    }

    /// Turns the outcome of an access to guest memory into the queue's own:
    /// a value stays what it is, and a failure of the memory becomes
    /// `Error::GuestMemory`, which holds it.
    pub fn from_memory<T>(outcome: Result<T, GuestMemoryError>) -> (r: Result<T, Error>)
        ensures
            r == Self::spec_from_memory(outcome),
    {
        match outcome {
            Ok(value) => Ok(value),
            Err(e) => Err(Error::GuestMemory(e)),
        }
    }

    /// Describes the error in words.
    pub fn message(&self) -> (s: String)
        ensures
            s@ == self.spec_message(),
    {
        match self {
            Error::GuestMemory(_) => "error accessing guest memory".to_owned(),
            Error::InvalidChain => "invalid descriptor chain".to_owned(),
            Error::InvalidIndirectDescriptor => "invalid indirect descriptor".to_owned(),
            Error::InvalidIndirectDescriptorTable => "invalid indirect descriptor table".to_owned(),
            Error::InvalidDescriptorIndex => "invalid descriptor index".to_owned(),
        }
    }
}

} // verus!
