//! Segment descriptors in the CPU's bit-exact wire format.
//!
//! A descriptor is eight bytes that the CPU reads directly out of the GDT:
//! limit[15:0] and base[15:0] in the low doubleword; base[23:16], the type
//! nibble, the S flag, the privilege level, the present bit, limit[19:16],
//! the D/B and granularity flags and base[31:24] in the high doubleword.
//! The builders of the `x86` crate produce these bytes; the layout is
//! stated here as spec functions, and verified accessors read the fields
//! back out of the raw bits.

use vstd::prelude::*;

use x86::segmentation::BuildDescriptor;
use x86::segmentation::DescriptorBuilder;
use x86::segmentation::GateDescriptorBuilder;
use x86::segmentation::SegmentDescriptorBuilder;

verus! {

/// Hardware privilege tier: ring 0 (kernel) or ring 3 (user). These are the
/// only two rings this kernel uses.
#[derive(Clone, Copy, PartialEq, Eq, Structural, Debug)]
pub enum Ring {
    Ring0,
    Ring3,
}

impl Ring {
    /// The numeric privilege level the CPU encodes in descriptors.
    pub open spec fn spec_level(self) -> u32 {
        match self {
            Ring::Ring0 => 0,
            Ring::Ring3 => 3,
        }
    }

    pub fn level(self) -> (l: u32)
        ensures
            l == self.spec_level(),
    {
        match self {
            Ring::Ring0 => 0,
            Ring::Ring3 => 3,
        }
    }
}

/// Type nibble of an execute/read code segment.
pub const TYPE_CODE_EXECUTE_READ: u32 = 0x0a;

/// Type nibble of a read/write data segment.
pub const TYPE_DATA_READ_WRITE: u32 = 0x02;

/// Type nibble of an available 32-bit task-state segment.
pub const TYPE_TSS_AVAILABLE_32: u32 = 0x09;

/// Low doubleword of a descriptor: base[15:0] over limit[15:0].
pub open spec fn spec_descriptor_lower(base: u32, limit: u32) -> u32 {
    ((base & 0xffff) << 16) | (limit & 0xffff)
}

/// High doubleword of a descriptor. `s` is the code/data flag (clear for
/// system segments such as a TSS), `db` the 32-bit default-operation flag,
/// `g` the 4 KiB-granularity flag.
pub open spec fn spec_descriptor_upper(
    base: u32,
    limit: u32,
    typ: u32,
    s: bool,
    dpl: u32,
    present: bool,
    db: bool,
    g: bool,
) -> u32 {
    ((base >> 16) & 0xff) | ((typ & 0xf) << 8) | (if s {
        0x1000u32
    } else {
        0u32
    }) | ((dpl & 0x3) << 13) | (if present {
        0x8000u32
    } else {
        0u32
    }) | (((limit >> 16) & 0xf) << 16) | (if db {
        0x400000u32
    } else {
        0u32
    }) | (if g {
        0x800000u32
    } else {
        0u32
    }) | ((base >> 24) << 24)
}

/// The eight descriptor bytes as one value, high doubleword on top.
pub open spec fn spec_descriptor(lower: u32, upper: u32) -> u64 {
    ((upper as u64) << 32) | (lower as u64)
}

/// A present execute/read code segment with 4 KiB granularity and 32-bit
/// default operation size, as this kernel installs for rings 0 and 3.
pub open spec fn spec_code_descriptor(base: u32, limit: u32, ring: Ring) -> u64 {
    spec_descriptor(
        spec_descriptor_lower(base, limit),
        spec_descriptor_upper(
            base,
            limit,
            TYPE_CODE_EXECUTE_READ,
            true,
            ring.spec_level(),
            true,
            true,
            true,
        ),
    )
}

/// A present read/write data segment with 4 KiB granularity and 32-bit
/// default operation size.
pub open spec fn spec_data_descriptor(base: u32, limit: u32, ring: Ring) -> u64 {
    spec_descriptor(
        spec_descriptor_lower(base, limit),
        spec_descriptor_upper(
            base,
            limit,
            TYPE_DATA_READ_WRITE,
            true,
            ring.spec_level(),
            true,
            true,
            true,
        ),
    )
}

/// A present, available 32-bit TSS descriptor at ring 0, byte granularity.
pub open spec fn spec_tss_descriptor(base: u32, limit: u32) -> u64 {
    spec_descriptor(
        spec_descriptor_lower(base, limit),
        spec_descriptor_upper(base, limit, TYPE_TSS_AVAILABLE_32, false, 0, true, false, false),
    )
}

/// Privilege level stored in descriptor bits 45..47.
pub open spec fn spec_descriptor_dpl(d: u64) -> u32 {
    ((d >> 45) & 3) as u32
}

/// Present flag stored in descriptor bit 47.
pub open spec fn spec_descriptor_present(d: u64) -> bool {
    (d >> 47) & 1 == 1
}

/// Relies on `x86::segmentation::DescriptorBuilder::code_descriptor` and
/// `Descriptor::apply_builder_settings`: an execute/read code segment
/// descriptor with the 4 KiB-granularity, 32-bit and present flags set and
/// the given base, limit and privilege level, in the CPU's bit layout.
#[verifier::external_body]
fn x86_code_descriptor(base: u32, limit: u32, ring: Ring) -> (d: (u32, u32))
    ensures
        d.0 == spec_descriptor_lower(base, limit),
        d.1 == spec_descriptor_upper(
            base,
            limit,
            TYPE_CODE_EXECUTE_READ,
            true,
            ring.spec_level(),
            true,
            true,
            true,
        ),
{
    let dpl = match ring {
        Ring::Ring0 => x86::Ring::Ring0,
        Ring::Ring3 => x86::Ring::Ring3,
    };
    let d: x86::segmentation::Descriptor = DescriptorBuilder::code_descriptor(
        base,
        limit,
        x86::segmentation::CodeSegmentType::ExecuteRead,
    ).limit_granularity_4kb().db().present().dpl(dpl).finish();
    (d.lower, d.upper)
}

/// Relies on `x86::segmentation::DescriptorBuilder::data_descriptor` and
/// `Descriptor::apply_builder_settings`: a read/write data segment
/// descriptor with the 4 KiB-granularity, 32-bit and present flags set and
/// the given base, limit and privilege level, in the CPU's bit layout.
#[verifier::external_body]
fn x86_data_descriptor(base: u32, limit: u32, ring: Ring) -> (d: (u32, u32))
    ensures
        d.0 == spec_descriptor_lower(base, limit),
        d.1 == spec_descriptor_upper(
            base,
            limit,
            TYPE_DATA_READ_WRITE,
            true,
            ring.spec_level(),
            true,
            true,
            true,
        ),
{
    let dpl = match ring {
        Ring::Ring0 => x86::Ring::Ring0,
        Ring::Ring3 => x86::Ring::Ring3,
    };
    let d: x86::segmentation::Descriptor = DescriptorBuilder::data_descriptor(
        base,
        limit,
        x86::segmentation::DataSegmentType::ReadWrite,
    ).limit_granularity_4kb().db().present().dpl(dpl).finish();
    (d.lower, d.upper)
}

/// Relies on `x86::segmentation::GateDescriptorBuilder::<u32>::tss_descriptor`
/// and `Descriptor::apply_builder_settings`: a present, available 32-bit TSS
/// descriptor at ring 0 with the given base and limit, byte granularity, in
/// the CPU's bit layout.
#[verifier::external_body]
fn x86_tss_descriptor(base: u32, limit: u32) -> (d: (u32, u32))
    ensures
        d.0 == spec_descriptor_lower(base, limit),
        d.1 == spec_descriptor_upper(
            base,
            limit,
            TYPE_TSS_AVAILABLE_32,
            false,
            0,
            true,
            false,
            false,
        ),
{
    let d: x86::segmentation::Descriptor = <DescriptorBuilder as GateDescriptorBuilder<u32>>::tss_descriptor(
        base as u64,
        limit as u64,
        true,
    ).present().dpl(x86::Ring::Ring0).finish();
    (d.lower, d.upper)
}

/// Selector bits for a GDT slot: the index over the requested privilege.
pub open spec fn spec_selector(index: u16, ring: Ring) -> u16 {
    ((index << 3) | (ring.spec_level() as u16)) as u16
}

/// Relies on `x86::segmentation::SegmentSelector::new`: the selector is the
/// table index shifted past the table-indicator and privilege bits, with the
/// requested privilege level in the low two bits.
#[verifier::external_body]
pub(crate) fn segment_selector(index: u16, ring: Ring) -> (s: u16)
    requires
        index < 0x2000,
    ensures
        s == spec_selector(index, ring),
{
    let rpl = match ring {
        Ring::Ring0 => x86::Ring::Ring0,
        Ring::Ring3 => x86::Ring::Ring3,
    };
    x86::segmentation::SegmentSelector::new(index, rpl).bits()
}

/// Pure construction of the code segment descriptor this kernel uses:
/// execute/read, present, 4 KiB granularity, 32-bit operand size.
pub fn build_code_segment(base: u32, limit: u32, ring: Ring) -> (d: u64)
    requires
        limit <= 0xfffff,
    ensures
        d == spec_code_descriptor(base, limit, ring),
{
    let (lower, upper) = x86_code_descriptor(base, limit, ring);
    ((upper as u64) << 32) | (lower as u64)
}

/// Pure construction of the data segment descriptor this kernel uses:
/// read/write, present, 4 KiB granularity, 32-bit operand size.
pub fn build_data_segment(base: u32, limit: u32, ring: Ring) -> (d: u64)
    requires
        limit <= 0xfffff,
    ensures
        d == spec_data_descriptor(base, limit, ring),
{
    let (lower, upper) = x86_data_descriptor(base, limit, ring);
    ((upper as u64) << 32) | (lower as u64)
}

/// Pure construction of the TSS descriptor: present, ring 0, available.
pub fn build_tss_segment(base: u32, limit: u32) -> (d: u64)
    requires
        limit <= 0xfffff,
    ensures
        d == spec_tss_descriptor(base, limit),
{
    let (lower, upper) = x86_tss_descriptor(base, limit);
    ((upper as u64) << 32) | (lower as u64)
}

/// Read the privilege level back out of a raw descriptor.
pub fn descriptor_dpl(d: u64) -> (l: u32)
    ensures
        l == spec_descriptor_dpl(d),
{
    ((d >> 45) & 3) as u32
}

/// Read the present flag back out of a raw descriptor.
pub fn descriptor_present(d: u64) -> (p: bool)
    ensures
        p == spec_descriptor_present(d),
{
    (d >> 47) & 1 == 1
}

/// In an application (code or data) descriptor built with the present,
/// 4 KiB-granularity and 32-bit flags, the privilege and present fields
/// read back exactly as they were written.
pub proof fn lemma_app_descriptor_fields(base: u32, limit: u32, typ: u32, dpl: u32)
    requires
        dpl <= 3,
    ensures
        spec_descriptor_dpl(
            spec_descriptor(
                spec_descriptor_lower(base, limit),
                spec_descriptor_upper(base, limit, typ, true, dpl, true, true, true),
            ),
        ) == dpl,
        spec_descriptor_present(
            spec_descriptor(
                spec_descriptor_lower(base, limit),
                spec_descriptor_upper(base, limit, typ, true, dpl, true, true, true),
            ),
        ),
{
    let lo = spec_descriptor_lower(base, limit);
    let up = spec_descriptor_upper(base, limit, typ, true, dpl, true, true, true);
    assert(((((up as u64) << 32) | (lo as u64)) >> 45) & 3 == ((up >> 13) & 3) as u64)
        by (bit_vector);
    assert(((((up as u64) << 32) | (lo as u64)) >> 47) & 1 == ((up >> 15) & 1) as u64)
        by (bit_vector);
    assert((up >> 13) & 3 == dpl && (up >> 15) & 1 == 1) by (bit_vector)
        requires
            dpl <= 3,
            up == ((base >> 16) & 0xff) | ((typ & 0xf) << 8) | 0x1000u32 | ((dpl & 0x3) << 13)
                | 0x8000u32 | (((limit >> 16) & 0xf) << 16) | 0x400000u32 | 0x800000u32 | ((base
                >> 24) << 24),
    ;
}

/// In the TSS descriptor, a system descriptor built with only the present
/// flag, the privilege field reads back as ring 0 and the present flag as
/// set.
pub proof fn lemma_tss_descriptor_fields(base: u32, limit: u32)
    ensures
        spec_descriptor_dpl(spec_tss_descriptor(base, limit)) == 0,
        spec_descriptor_present(spec_tss_descriptor(base, limit)),
{
    let lo = spec_descriptor_lower(base, limit);
    let up = spec_descriptor_upper(base, limit, TYPE_TSS_AVAILABLE_32, false, 0, true, false, false);
    assert(((((up as u64) << 32) | (lo as u64)) >> 45) & 3 == ((up >> 13) & 3) as u64)
        by (bit_vector);
    assert(((((up as u64) << 32) | (lo as u64)) >> 47) & 1 == ((up >> 15) & 1) as u64)
        by (bit_vector);
    assert((up >> 13) & 3 == 0 && (up >> 15) & 1 == 1) by (bit_vector)
        requires
            up == ((base >> 16) & 0xff) | ((0x09u32 & 0xf) << 8) | 0u32 | ((0u32 & 0x3) << 13)
                | 0x8000u32 | (((limit >> 16) & 0xf) << 16) | 0u32 | 0u32 | ((base >> 24) << 24),
    ;
}

} // verus!
