//! Memory stager: page arithmetic and the staged-region abstraction.
//!
//! A [`StagedRegion`] describes a block of page-aligned physical memory together
//! with the bytes that belong at its start. It is built once, from the base
//! address the firmware allocator returned and the buffer to be staged, and is
//! read-only afterwards. The region is never freed: the memory stays reserved
//! for the program that is booted.

use vstd::prelude::*;
use crate::status::BootError;

verus! {

/// Size in bytes of a firmware page.
pub open spec fn page_size() -> int {
    4096
}

/// The number of pages needed to hold `len` bytes: `len / page_size()`, rounded up.
pub open spec fn pages_needed(len: int) -> int {
    (len + page_size() - 1) / page_size()
}

/// Whether an allocation of `pages` pages at `base` can hold a staged payload:
/// the base is a non-null page boundary and the end of the allocation is an
/// address.
pub open spec fn usable_allocation(base: int, pages: int) -> bool {
    &&& base > 0
    &&& base % page_size() == 0
    &&& base + pages * page_size() <= usize::MAX
}

/// Reads `uefi::boot::PAGE_SIZE`. Trusted: the constant is 4096.
#[verifier::external_body]
fn firmware_page_size() -> (size: usize)
    ensures
        size == page_size(),
{
    uefi::boot::PAGE_SIZE
}

/// The number of pages to request for a buffer of `len` bytes.
pub fn page_count(len: usize) -> (pages: usize)
    ensures
        pages == pages_needed(len as int),
        pages * page_size() >= len,
        pages * page_size() < len + page_size(),
{
    let page: usize = firmware_page_size();
    let whole: usize = len / page;
    if len % page == 0 {
        whole
    } else {
        whole + 1
    }
}

/// Whether the firmware's answer to a request for `pages` pages can be used.
pub fn allocation_is_usable(base: usize, pages: usize) -> (usable: bool)
    ensures
        usable == usable_allocation(base as int, pages as int),
{
    let page: usize = firmware_page_size();
    if base == 0 || base % page != 0 {
        return false;
    }
    let room: usize = (usize::MAX - base) / page;
    assert(pages <= room <==> pages * 4096 <= usize::MAX - base) by (nonlinear_arith)
        requires
            room == (usize::MAX - base) / 4096,
    ;
    pages <= room
}

/// What a staged region is: where it lies, how much was allocated for it and
/// which bytes belong at its start.
pub struct RegionView {
    pub base: int,
    pub pages: int,
    pub payload: Seq<u8>,
}

/// A page-aligned block of physical memory holding one boot artifact.
pub struct StagedRegion {
    base: usize,
    pages: usize,
    payload: Vec<u8>,
}

impl View for StagedRegion {
    type V = RegionView;

    closed spec fn view(&self) -> RegionView {
        RegionView { base: self.base as int, pages: self.pages as int, payload: self.payload@ }
    }
}

impl RegionView {
    /// The invariant of every staged region.
    pub open spec fn wf(self) -> bool {
        &&& self.pages == pages_needed(self.payload.len() as int)
        &&& usable_allocation(self.base, self.pages)
    }

    /// The number of bytes allocated for the region.
    pub open spec fn allocated_bytes(self) -> int {
        self.pages * page_size()
    }
}

impl StagedRegion {
    #[verifier::type_invariant]
    spec fn inv(self) -> bool {
        self@.wf()
    }

    /// Seals `buffer` into the allocation at `base`, which the firmware returned
    /// for a request of `page_count(buffer.len())` pages. An unusable allocation
    /// is an allocation error.
    pub fn seal(base: usize, buffer: Vec<u8>) -> (staged: Result<StagedRegion, BootError>)
        ensures
            staged is Ok <==> usable_allocation(base as int, pages_needed(buffer@.len() as int)),
            staged matches Ok(region) ==> {
                &&& region@.wf()
                &&& region@.base == base
                &&& region@.base % page_size() == 0
                &&& region@.payload == buffer@
                &&& region@.payload.len() <= region@.allocated_bytes()
            },
            staged matches Err(error) ==> error == (BootError::Allocation {
                code: crate::status::out_of_resources_code() as usize,
            }),
    {
        let pages: usize = page_count(buffer.len());
        if allocation_is_usable(base, pages) {
            Ok(StagedRegion { base, pages, payload: buffer })
        } else {
            Err(BootError::unusable_allocation())
        }
    }

    /// The address of the first byte of the region: a non-null page boundary.
    pub fn base(&self) -> (base: usize)
        ensures
            base == self@.base,
            base % 4096 == 0,
            base != 0,
    {
        proof {
            use_type_invariant(self);
        }
        self.base
    }

    /// The number of pages allocated for the region.
    pub fn pages(&self) -> (pages: usize)
        ensures
            pages == self@.pages,
            pages == pages_needed(self@.payload.len() as int),
    {
        proof {
            use_type_invariant(self);
        }
        self.pages
    }

    /// The length in bytes of the artifact that was staged.
    pub fn len(&self) -> (len: usize)
        ensures
            len == self@.payload.len(),
            self@.base + len <= usize::MAX,
    {
        proof {
            use_type_invariant(self);
        }
        self.payload.len()
    }

    /// The number of bytes allocated: a whole number of pages, at least `len()`.
    pub fn allocated_bytes(&self) -> (bytes: usize)
        ensures
            bytes == self@.allocated_bytes(),
            bytes >= self@.payload.len(),
            bytes % 4096 == 0,
            self@.base + bytes <= usize::MAX,
    {
        proof {
            use_type_invariant(self);
            assert((self.pages * 4096) % 4096 == 0) by (nonlinear_arith);
        }
        self.pages * firmware_page_size()
    }

    /// The bytes that belong at the start of the region, in order.
    pub fn payload(&self) -> (bytes: &[u8])
        ensures
            bytes@ == self@.payload,
    {
        self.payload.as_slice()
    }
}

/// Every well-formed region starts at a page boundary, ends at an address and
/// has room for its payload.
pub proof fn lemma_region_holds_payload(region: RegionView)
    requires
        region.wf(),
    ensures
        region.base % page_size() == 0,
        region.base > 0,
        region.payload.len() <= region.allocated_bytes(),
        region.allocated_bytes() < region.payload.len() + page_size(),
        region.base + region.payload.len() <= usize::MAX,
{
}

} // verus!
