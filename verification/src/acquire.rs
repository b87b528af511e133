//! Network acquirer: capability discovery, start-up, address configuration and
//! the addresses that the configuration yields.

use vstd::prelude::*;
use crate::status::BootError;

verus! {

/// An IPv4 address, octets in network order.
#[derive(Clone, Copy, Debug, PartialEq, Eq)]
pub struct Ipv4 {
    pub octets: [u8; 4],
}

/// What the loader reads of the last address-configuration acknowledgment.
#[derive(Clone, Copy, Debug, PartialEq, Eq)]
pub struct Acknowledgment {
    /// The address the server assigned to this machine.
    pub your_address: Ipv4,
    /// The address of the boot server.
    pub server_address: Ipv4,
}

/// The addresses a boot attempt works with; fixed once derived.
#[derive(Clone, Copy, Debug, PartialEq, Eq)]
pub struct AddressPair {
    pub local: Ipv4,
    pub server: Ipv4,
}

/// The addresses that an acknowledgment carries.
pub open spec fn addresses_of(acknowledgment: Acknowledgment) -> AddressPair {
    AddressPair { local: acknowledgment.your_address, server: acknowledgment.server_address }
}

/// Extracts the assigned local address and the boot-server address.
pub fn extract_addresses(acknowledgment: &Acknowledgment) -> (pair: AddressPair)
    ensures
        pair == addresses_of(*acknowledgment),
{
    AddressPair { local: acknowledgment.your_address, server: acknowledgment.server_address }
}

/// The capability must be started exactly when it reports that it is not.
pub fn start_needed(started: bool) -> (needed: bool)
    ensures
        needed == !started,
{
    !started
}

/// An address-configuration request is issued exactly when no acknowledgment
/// is present.
pub fn configuration_needed(acknowledged: bool) -> (needed: bool)
    ensures
        needed == !acknowledged,
{
    !acknowledged
}

/// The first handle to try after enumeration, or the error that ends
/// discovery. `located` is the number of handles found, or the status code
/// with which the enumeration failed.
pub open spec fn first_candidate(located: Result<usize, usize>) -> Result<usize, BootError> {
    match located {
        Err(code) => Err(BootError::spec_from_code(code)),
        Ok(count) => if count == 0 {
            Err(BootError::NotFound)
        } else {
            Ok(0usize)
        },
    }
}

/// The handle to try after handle `failed` of `count` could not be acquired,
/// or `NotFound` once all candidates are exhausted.
pub open spec fn next_candidate(failed: usize, count: usize) -> Result<usize, BootError> {
    if failed + 1 < count {
        Ok((failed + 1) as usize)
    } else {
        Err(BootError::NotFound)
    }
}

/// Decides what follows the enumeration of handles.
pub fn after_enumeration(located: Result<usize, usize>) -> (candidate: Result<usize, BootError>)
    ensures
        candidate == first_candidate(located),
{
    match located {
        Err(code) => Err(BootError::from_code(code)),
        Ok(count) => if count == 0 {
            Err(BootError::NotFound)
        } else {
            Ok(0)
        },
    }
}

/// Decides what follows a handle that could not be acquired.
pub fn after_failed_acquisition(failed: usize, count: usize) -> (candidate: Result<
    usize,
    BootError,
>)
    ensures
        candidate == next_candidate(failed, count),
{
    if failed < count && failed + 1 < count {
        Ok(failed + 1)
    } else {
        Err(BootError::NotFound)
    }
}

} // verus!
