//! Firmware status codes and the loader's error taxonomy.

use vstd::prelude::*;

verus! {

/// The bit that marks a status code as an error: the top bit of a machine word.
pub open spec fn error_bit() -> int {
    usize::MAX - usize::MAX / 2
}

/// The status code of the firmware error with ordinal `n`.
pub open spec fn error_code(n: int) -> int {
    error_bit() + n
}

/// Status code for success.
pub open spec fn success_code() -> int {
    0
}

/// Status code for "a resource has run out".
pub open spec fn out_of_resources_code() -> int {
    error_code(9)
}

/// Status code for "the item was not found".
pub open spec fn not_found_code() -> int {
    error_code(14)
}

/// Status code for "the operation was aborted".
pub open spec fn aborted_code() -> int {
    error_code(21)
}

/// Reads `uefi::Status::SUCCESS`. Trusted: the constant is zero.
#[verifier::external_body]
fn firmware_success() -> (code: usize)
    ensures
        code == success_code(),
{
    uefi::Status::SUCCESS.0
}

/// Reads `uefi::Status::OUT_OF_RESOURCES`. Trusted: the constant is the error
/// bit of a machine word combined with ordinal 9.
#[verifier::external_body]
fn firmware_out_of_resources() -> (code: usize)
    ensures
        code == out_of_resources_code(),
{
    uefi::Status::OUT_OF_RESOURCES.0
}

/// Reads `uefi::Status::NOT_FOUND`. Trusted: the constant is the error bit of a
/// machine word combined with ordinal 14.
#[verifier::external_body]
fn firmware_not_found() -> (code: usize)
    ensures
        code == not_found_code(),
{
    uefi::Status::NOT_FOUND.0
}

/// Reads `uefi::Status::ABORTED`. Trusted: the constant is the error bit of a
/// machine word combined with ordinal 21.
#[verifier::external_body]
fn firmware_aborted() -> (code: usize)
    ensures
        code == aborted_code(),
{
    uefi::Status::ABORTED.0
}

/// Why a boot attempt ended. Every error is terminal for the attempt.
#[derive(Clone, Copy, Debug, PartialEq, Eq, Structural)]
pub enum BootError {
    /// The network-boot capability or a remote file is absent.
    NotFound,
    /// A remote file exceeds the size the policy admits.
    TooLarge,
    /// The network failed while a file was transferred.
    Transfer { code: usize },
    /// Physical memory could not be allocated, or the allocation was unusable.
    Allocation { code: usize },
    /// The kernel image was malformed or of an unsupported format.
    Load { code: usize },
    /// The loaded kernel image could not be started.
    Start { code: usize },
    /// Any other firmware failure, passed through.
    Status { code: usize },
}

impl BootError {
    /// The status code with which the loader leaves after this error.
    pub open spec fn spec_status_code(self) -> int {
        match self {
            BootError::NotFound => not_found_code(),
            BootError::TooLarge => aborted_code(),
            BootError::Transfer { code } => code as int,
            BootError::Allocation { code } => code as int,
            BootError::Load { code } => code as int,
            BootError::Start { code } => code as int,
            BootError::Status { code } => code as int,
        }
    }

    /// The error for a firmware failure that no dedicated variant covers:
    /// "not found" becomes [`BootError::NotFound`], anything else is passed
    /// through.
    pub open spec fn spec_from_code(code: usize) -> BootError {
        if code == not_found_code() {
            BootError::NotFound
        } else {
            BootError::Status { code }
        }
    }

    /// The status code with which the loader leaves after this error.
    pub fn status_code(&self) -> (code: usize)
        ensures
            code == self.spec_status_code(),
    {
        match self {
            BootError::NotFound => firmware_not_found(),
            BootError::TooLarge => firmware_aborted(),
            BootError::Transfer { code } => *code,
            BootError::Allocation { code } => *code,
            BootError::Load { code } => *code,
            BootError::Start { code } => *code,
            BootError::Status { code } => *code,
        }
    }

    /// The error for a firmware failure that no dedicated variant covers.
    pub fn from_code(code: usize) -> (error: BootError)
        ensures
            error == Self::spec_from_code(code),
    {
        if code == firmware_not_found() {
            BootError::NotFound
        } else {
            BootError::Status { code }
        }
    }

    /// The error for an allocation whose result cannot be used as a region.
    pub fn unusable_allocation() -> (error: BootError)
        ensures
            error == (BootError::Allocation { code: out_of_resources_code() as usize }),
            error.spec_status_code() == out_of_resources_code(),
    {
        BootError::Allocation { code: firmware_out_of_resources() }
    }
}

/// The status code a successful boot attempt leaves with.
pub fn success_status() -> (code: usize)
    ensures
        code == success_code(),
{
    firmware_success()
}

} // verus!
