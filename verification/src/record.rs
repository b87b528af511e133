//! Boot artifact registrar: the record that tells the booted kernel where its
//! ramdisk lies, and the identifier under which the firmware's
//! configuration-table registry holds it.
//!
//! Record layout and identifier are a wire-level contract with the kernel. The
//! record is two machine words, base address first and size second, without
//! padding, each in little-endian byte order, which is the native order of
//! every platform the firmware interface is defined for.

use vstd::prelude::*;
use vstd::arithmetic::power::{lemma_pow0, lemma_pow_positive, pow};
use crate::stage::StagedRegion;

verus! {

/// The number of bytes of a machine word.
pub open spec fn word_bytes() -> int {
    usize::BITS as int / 8
}

/// The little-endian encoding of `value` in `width` bytes.
pub open spec fn le_bytes(value: int, width: nat) -> Seq<u8>
    decreases width,
{
    if width == 0 {
        Seq::empty()
    } else {
        seq![(value % 256) as u8] + le_bytes(value / 256, (width - 1) as nat)
    }
}

/// The number that `bytes` encode in little-endian order.
pub open spec fn le_value(bytes: Seq<u8>) -> int
    decreases bytes.len(),
{
    if bytes.len() == 0 {
        0
    } else {
        bytes[0] as int + 256 * le_value(bytes.skip(1))
    }
}

/// An encoding has the width it was asked for.
pub proof fn lemma_le_bytes_len(value: int, width: nat)
    ensures
        le_bytes(value, width).len() == width,
    decreases width,
{
    if width > 0 {
        lemma_le_bytes_len(value / 256, (width - 1) as nat);
    }
}

/// Bytes encode a number below 256 to the power of their count.
pub proof fn lemma_le_value_bound(bytes: Seq<u8>)
    ensures
        0 <= le_value(bytes) < pow(256, bytes.len()),
    decreases bytes.len(),
{
    if bytes.len() == 0 {
        lemma_pow0(256);
    } else {
        let rest = bytes.skip(1);
        lemma_le_value_bound(rest);
        lemma_pow_step(rest.len());
    }
}

/// Decoding undoes encoding for every number that fits the width.
pub proof fn lemma_le_round_trip(value: int, width: nat)
    requires
        0 <= value < pow(256, width),
    ensures
        le_value(le_bytes(value, width)) == value,
    decreases width,
{
    if width == 0 {
        lemma_pow0(256);
    } else {
        let rest = le_bytes(value / 256, (width - 1) as nat);
        lemma_pow_step((width - 1) as nat);
        lemma_le_round_trip(value / 256, (width - 1) as nat);
        assert(le_bytes(value, width).skip(1) =~= rest);
    }
}

/// One more byte multiplies the range by 256.
proof fn lemma_pow_step(n: nat)
    ensures
        pow(256, n + 1) == 256 * pow(256, n),
        pow(256, n) > 0,
{
    reveal(pow);
    lemma_pow_positive(256, n);
}

/// A machine word holds exactly the numbers below 256 to the power of its width.
pub proof fn lemma_word_range()
    ensures
        pow(256, word_bytes() as nat) == usize::MAX + 1,
{
    lemma_pow0(256);
    lemma_pow_step(0);
    lemma_pow_step(1);
    lemma_pow_step(2);
    lemma_pow_step(3);
    assert(pow(256, 4) == 0x1_0000_0000);
    lemma_pow_step(4);
    lemma_pow_step(5);
    lemma_pow_step(6);
    lemma_pow_step(7);
    assert(pow(256, 8) == 0x1_0000_0000_0000_0000);
}

/// The width of a machine word in bytes.
pub fn word_width() -> (width: usize)
    ensures
        width == word_bytes(),
        width == 4 || width == 8,
{
    (usize::BITS / 8) as usize
}

/// Appends the little-endian encoding of `value` in `width` bytes to `out`.
fn push_le(out: &mut Vec<u8>, value: u64, width: usize)
    ensures
        final(out)@ == old(out)@ + le_bytes(value as int, width as nat),
{
    let ghost start = out@;
    let mut rest: u64 = value;
    let mut done: usize = 0;
    while done < width
        invariant
            done <= width,
            start + le_bytes(value as int, width as nat) == out@ + le_bytes(
                rest as int,
                (width - done) as nat,
            ),
        decreases width - done,
    {
        let ghost before = out@;
        let low: u8 = (rest % 256) as u8;
        out.push(low);
        proof {
            let tail = le_bytes(rest as int / 256, (width - done - 1) as nat);
            assert(le_bytes(rest as int, (width - done) as nat) == seq![low] + tail);
            assert(before + (seq![low] + tail) =~= before.push(low) + tail);
        }
        rest = rest / 256;
        done = done + 1;
    }
    assert(le_bytes(rest as int, 0) =~= Seq::<u8>::empty());
    assert(out@ + Seq::<u8>::empty() =~= out@);
}

/// Appends the big-endian encoding of `value` in `width` bytes to `out`.
fn push_be(out: &mut Vec<u8>, value: u64, width: usize)
    ensures
        final(out)@ == old(out)@ + le_bytes(value as int, width as nat).reverse(),
{
    let ghost start = out@;
    let mut low_first: Vec<u8> = Vec::new();
    push_le(&mut low_first, value, width);
    proof {
        lemma_le_bytes_len(value as int, width as nat);
        assert(low_first@ =~= le_bytes(value as int, width as nat));
    }
    let mut left: usize = width;
    while left > 0
        invariant
            left <= width,
            low_first@.len() == width,
            out@ == start + Seq::new((width - left) as nat, |k: int| low_first@[width - 1 - k]),
        decreases left,
    {
        left = left - 1;
        out.push(low_first[left]);
        assert(out@ =~= start + Seq::new(
            (width - left) as nat,
            |k: int| low_first@[width - 1 - k],
        ));
    }
    assert(out@ =~= start + low_first@.reverse());
}

/// Reads the machine word that starts at `bytes[at]`.
fn read_word(bytes: &[u8], at: usize) -> (value: usize)
    requires
        at + word_bytes() <= bytes@.len(),
    ensures
        value == le_value(bytes@.subrange(at as int, at + word_bytes())),
{
    let width: usize = word_width();
    let total: usize = bytes.len();
    let ghost end = at + width;
    let mut value: usize = 0;
    let mut left: usize = width;
    proof {
        assert(bytes@.subrange(end, end).len() == 0);
    }
    while left > 0
        invariant
            left <= width,
            width == word_bytes(),
            end == at + width,
            end <= total == bytes@.len(),
            value == le_value(bytes@.subrange(at + left, end)),
        decreases left,
    {
        left = left - 1;
        let byte: u8 = bytes[at + left];
        proof {
            let next = bytes@.subrange(at + left, end);
            assert(next.skip(1) =~= bytes@.subrange(at + left + 1, end));
            lemma_le_value_bound(next);
            lemma_pow_grows(next.len(), width as nat);
            lemma_word_range();
        }
        value = value * 256 + byte as usize;
    }
    value
}

/// More bytes never shrink the range.
proof fn lemma_pow_grows(small: nat, large: nat)
    requires
        small <= large,
    ensures
        pow(256, small) <= pow(256, large),
    decreases large - small,
{
    if small < large {
        lemma_pow_step(small);
        lemma_pow_grows(small + 1, large);
    }
}

/// The descriptor of the staged ramdisk that the booted kernel reads: where
/// the ramdisk starts and how many bytes it has.
#[derive(Clone, Copy, Debug, PartialEq, Eq, Structural)]
pub struct BootArtifactRecord {
    pub base: usize,
    pub size: usize,
}

/// The bytes of a record as they lie in memory.
pub open spec fn record_bytes(record: BootArtifactRecord) -> Seq<u8> {
    le_bytes(record.base as int, word_bytes() as nat) + le_bytes(
        record.size as int,
        word_bytes() as nat,
    )
}

/// The record that `bytes` hold, if they are exactly one record.
pub open spec fn record_of_bytes(bytes: Seq<u8>) -> Option<BootArtifactRecord> {
    if bytes.len() == 2 * word_bytes() {
        Some(
            BootArtifactRecord {
                base: le_value(bytes.subrange(0, word_bytes())) as usize,
                size: le_value(bytes.subrange(word_bytes(), 2 * word_bytes())) as usize,
            },
        )
    } else {
        None
    }
}

impl BootArtifactRecord {
    /// The record that describes a staged region: its base address and the
    /// length of the artifact staged in it, not the length of the allocation.
    pub fn describe(region: &StagedRegion) -> (record: BootArtifactRecord)
        ensures
            record.base == region@.base,
            record.size == region@.payload.len(),
    {
        BootArtifactRecord { base: region.base(), size: region.len() }
    }

    /// The record as it is written to the page handed to the firmware.
    pub fn to_bytes(&self) -> (bytes: Vec<u8>)
        ensures
            bytes@ == record_bytes(*self),
            bytes@.len() == 2 * word_bytes(),
    {
        let mut bytes: Vec<u8> = Vec::new();
        let width: usize = word_width();
        push_le(&mut bytes, self.base as u64, width);
        push_le(&mut bytes, self.size as u64, width);
        proof {
            lemma_le_bytes_len(self.base as int, word_bytes() as nat);
            lemma_le_bytes_len(self.size as int, word_bytes() as nat);
            assert(bytes@ =~= record_bytes(*self));
        }
        bytes
    }

    /// Reads a record back from the bytes of a configuration-table entry.
    pub fn from_bytes(bytes: &[u8]) -> (record: Option<BootArtifactRecord>)
        ensures
            record == record_of_bytes(bytes@),
            record is Some <==> bytes@.len() == 2 * word_bytes(),
    {
        let width: usize = word_width();
        if bytes.len() != 2 * width {
            return None;
        }
        let base: usize = read_word(bytes, 0);
        let size: usize = read_word(bytes, width);
        Some(BootArtifactRecord { base, size })
    }
}

/// Reading back the bytes written for a record yields that record: both
/// fields, exactly.
pub proof fn lemma_record_round_trip(record: BootArtifactRecord)
    ensures
        record_of_bytes(record_bytes(record)) == Some(record),
{
    let width = word_bytes() as nat;
    let first = le_bytes(record.base as int, width);
    let second = le_bytes(record.size as int, width);
    lemma_le_bytes_len(record.base as int, width);
    lemma_le_bytes_len(record.size as int, width);
    lemma_word_range();
    lemma_le_round_trip(record.base as int, width);
    lemma_le_round_trip(record.size as int, width);
    assert((first + second).subrange(0, word_bytes()) =~= first);
    assert((first + second).subrange(word_bytes(), 2 * word_bytes()) =~= second);
}

/// The record written for a staged ramdisk reads back as the region's base
/// address and the byte length of the ramdisk itself.
pub proof fn lemma_registered_record_reads_back(region: crate::stage::RegionView)
    requires
        region.wf(),
    ensures
        ({
            let record = BootArtifactRecord {
                base: region.base as usize,
                size: region.payload.len() as usize,
            };
            &&& record_of_bytes(record_bytes(record)) == Some(record)
            &&& record.base == region.base
            &&& record.size == region.payload.len()
        }),
{
    let record = BootArtifactRecord {
        base: region.base as usize,
        size: region.payload.len() as usize,
    };
    lemma_record_round_trip(record);
}

/// Identifier of a configuration-table entry: the four fields of a firmware
/// GUID, each as the number that its textual form shows.
#[derive(Clone, Copy, Debug, PartialEq, Eq, Structural)]
pub struct TableId {
    /// The first group of the textual form.
    pub data1: u32,
    /// The second group.
    pub data2: u16,
    /// The third group.
    pub data3: u16,
    /// The fourth and fifth group, read as one number.
    pub data4: u64,
}

/// The identifier as it lies in memory: the first three fields little-endian,
/// the last one in the order of its textual form.
pub open spec fn table_id_bytes(id: TableId) -> Seq<u8> {
    le_bytes(id.data1 as int, 4) + le_bytes(id.data2 as int, 2) + le_bytes(id.data3 as int, 2)
        + le_bytes(id.data4 as int, 8).reverse()
}

/// The identifier reserved for the initial ramdisk that a Linux-style kernel
/// picks up: `5568e427-68fc-4f3d-ac74-ca555231cc68`.
pub open spec fn ramdisk_table_id() -> TableId {
    TableId { data1: 0x5568e427, data2: 0x68fc, data3: 0x4f3d, data4: 0xac74ca555231cc68 }
}

impl TableId {
    /// The identifier under which the ramdisk record is installed.
    pub fn ramdisk() -> (id: TableId)
        ensures
            id == ramdisk_table_id(),
    {
        TableId { data1: 0x5568e427, data2: 0x68fc, data3: 0x4f3d, data4: 0xac74ca555231cc68 }
    }

    /// The sixteen bytes of the identifier as the firmware reads them.
    pub fn to_bytes(&self) -> (bytes: Vec<u8>)
        ensures
            bytes@ == table_id_bytes(*self),
            bytes@.len() == 16,
    {
        let mut bytes: Vec<u8> = Vec::new();
        push_le(&mut bytes, self.data1 as u64, 4);
        push_le(&mut bytes, self.data2 as u64, 2);
        push_le(&mut bytes, self.data3 as u64, 2);
        push_be(&mut bytes, self.data4, 8);
        proof {
            lemma_le_bytes_len(self.data1 as int, 4);
            lemma_le_bytes_len(self.data2 as int, 2);
            lemma_le_bytes_len(self.data3 as int, 2);
            lemma_le_bytes_len(self.data4 as int, 8);
            assert(bytes@ =~= table_id_bytes(*self));
        }
        bytes
    }
}

/// The bytes of the ramdisk identifier, spelled out.
pub proof fn lemma_ramdisk_table_id_bytes()
    ensures
        table_id_bytes(ramdisk_table_id()) == seq![
            0x27u8, 0xe4, 0x68, 0x55, 0xfc, 0x68, 0x3d, 0x4f,
            0xac, 0x74, 0xca, 0x55, 0x52, 0x31, 0xcc, 0x68,
        ],
{
    reveal_with_fuel(le_bytes, 9);
    let id = ramdisk_table_id();
    assert(le_bytes(id.data1 as int, 4) =~= seq![0x27u8, 0xe4, 0x68, 0x55]);
    assert(le_bytes(id.data2 as int, 2) =~= seq![0xfcu8, 0x68]);
    assert(le_bytes(id.data3 as int, 2) =~= seq![0x3du8, 0x4f]);
    assert(le_bytes(id.data4 as int, 8) =~= seq![
        0x68u8, 0xcc, 0x31, 0x52, 0x55, 0xca, 0x74, 0xac,
    ]);
    assert(table_id_bytes(id) =~= seq![
        0x27u8, 0xe4, 0x68, 0x55, 0xfc, 0x68, 0x3d, 0x4f,
        0xac, 0x74, 0xca, 0x55, 0x52, 0x31, 0xcc, 0x68,
    ]);
}

} // verus!
