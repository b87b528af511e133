//! File fetcher: the size policy and the outcome of a transfer.
//!
//! A remote file is fetched in three steps: its size is queried, the size is
//! held against the policy, and the file is transferred in one piece into a
//! zeroed buffer of exactly that size. Either the whole file arrives or an
//! error is returned; no partial buffer is handed on.

use vstd::prelude::*;
use crate::status::BootError;

verus! {

/// The two artifacts that are fetched.
#[derive(Clone, Copy, Debug, PartialEq, Eq, Structural)]
pub enum Artifact {
    Kernel,
    Ramdisk,
}

/// Largest kernel admitted by default: 32 MiB.
pub const MAX_KERNEL_BYTES: u64 = 33_554_432;

/// Largest ramdisk admitted by default: 1 GiB.
pub const MAX_RAMDISK_BYTES: u64 = 1_073_741_824;

/// The size caps that guard against unbounded memory staging.
#[derive(Clone, Copy, Debug, PartialEq, Eq, Structural)]
pub struct FetchPolicy {
    pub max_kernel_bytes: u64,
    pub max_ramdisk_bytes: u64,
}

impl FetchPolicy {
    /// The default policy.
    pub open spec fn standard() -> FetchPolicy {
        FetchPolicy { max_kernel_bytes: MAX_KERNEL_BYTES, max_ramdisk_bytes: MAX_RAMDISK_BYTES }
    }

    /// The cap that applies to `artifact`.
    pub open spec fn spec_limit(self, artifact: Artifact) -> u64 {
        match artifact {
            Artifact::Kernel => self.max_kernel_bytes,
            Artifact::Ramdisk => self.max_ramdisk_bytes,
        }
    }

    /// The cap that applies to `artifact`.
    pub fn limit(&self, artifact: Artifact) -> (limit: u64)
        ensures
            limit == self.spec_limit(artifact),
    {
        match artifact {
            Artifact::Kernel => self.max_kernel_bytes,
            Artifact::Ramdisk => self.max_ramdisk_bytes,
        }
    }
}

impl Default for FetchPolicy {
    /// The default policy: 32 MiB for the kernel, 1 GiB for the ramdisk.
    fn default() -> (policy: FetchPolicy)
        ensures
            policy == FetchPolicy::standard(),
    {
        FetchPolicy { max_kernel_bytes: MAX_KERNEL_BYTES, max_ramdisk_bytes: MAX_RAMDISK_BYTES }
    }
}

impl Artifact {
    /// The name under which the boot server offers the artifact.
    pub open spec fn spec_file_name(self) -> Seq<char> {
        match self {
            Artifact::Kernel => "bzImage"@,
            Artifact::Ramdisk => "initrd"@,
        }
    }

    /// The name under which the boot server offers the artifact.
    pub fn file_name(&self) -> (name: &'static str)
        ensures
            name@ == self.spec_file_name(),
    {
        match self {
            Artifact::Kernel => "bzImage",
            Artifact::Ramdisk => "initrd",
        }
    }
}

/// Whether a file of `reported` bytes is admitted under a cap of `limit` bytes.
/// A size that no buffer of this machine can have is never admitted.
pub open spec fn admitted(reported: u64, limit: u64) -> bool {
    reported <= limit && reported <= usize::MAX
}

/// What a size query leads to: the length of the buffer to transfer into, or
/// the error that ends the fetch. `query` is the reported size, or the status
/// code with which the query failed.
pub open spec fn size_outcome(query: Result<u64, usize>, limit: u64) -> Result<usize, BootError> {
    match query {
        Err(_) => Err(BootError::NotFound),
        Ok(reported) => if admitted(reported, limit) {
            Ok(reported as usize)
        } else {
            Err(BootError::TooLarge)
        },
    }
}

/// Holds a reported size against the cap.
pub fn admit_size(reported: u64, limit: u64) -> (admission: Result<usize, BootError>)
    ensures
        admission == size_outcome(Ok(reported), limit),
        reported > limit ==> admission == Err::<usize, BootError>(BootError::TooLarge),
        admission matches Ok(len) ==> len == reported && reported <= limit,
{
    if reported > limit || reported > usize::MAX as u64 {
        Err(BootError::TooLarge)
    } else {
        Ok(reported as usize)
    }
}

/// Decides what follows a size query.
pub fn after_size_query(query: Result<u64, usize>, limit: u64) -> (outcome: Result<
    usize,
    BootError,
>)
    ensures
        outcome == size_outcome(query, limit),
{
    match query {
        Err(_) => Err(BootError::NotFound),
        Ok(reported) => admit_size(reported, limit),
    }
}

/// A buffer of `len` zero bytes, into which a file of that size is transferred.
pub fn zeroed_buffer(len: usize) -> (buffer: Vec<u8>)
    ensures
        buffer@.len() == len,
        forall|i: int| 0 <= i < len ==> buffer@[i] == 0u8,
{
    let mut buffer: Vec<u8> = Vec::new();
    let mut filled: usize = 0;
    while filled < len
        invariant
            filled <= len,
            buffer@.len() == filled,
            forall|i: int| 0 <= i < filled ==> buffer@[i] == 0u8,
        decreases len - filled,
    {
        buffer.push(0u8);
        filled = filled + 1;
    }
    buffer
}

/// Decides what follows a transfer: the populated buffer is handed on as it
/// is, a failure becomes a transfer error with the underlying cause.
pub fn after_transfer(transfer: Result<Vec<u8>, usize>) -> (outcome: Result<Vec<u8>, BootError>)
    ensures
        outcome is Ok <==> transfer is Ok,
        outcome matches Ok(data) ==> transfer matches Ok(given) && data@ == given@,
        outcome matches Err(error) ==> transfer matches Err(code) && error == (
        BootError::Transfer { code }),
{
    match transfer {
        Ok(data) => Ok(data),
        Err(code) => Err(BootError::Transfer { code }),
    }
}

/// A file larger than the cap is refused at the size query: the outcome is
/// `TooLarge`, so no buffer length is handed out and no transfer can follow.
pub proof fn lemma_oversize_is_refused(reported: u64, limit: u64)
    requires
        reported > limit,
    ensures
        size_outcome(Ok(reported), limit) == Err::<usize, BootError>(BootError::TooLarge),
{
}

} // verus!
