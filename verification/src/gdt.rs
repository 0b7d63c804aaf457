//! The global descriptor table and the task-state segment.
//!
//! The GDT is a fixed table of 128 raw descriptors with a reserved layout:
//! slot 0 stays null, slots 1 and 2 are the kernel code and data segments,
//! slot 3 the TSS descriptor, slots 4 and 5 the user code and data
//! segments. The TSS holds the ring-0 stack selector and pointer the CPU
//! switches to on a ring 3 to ring 0 transition. Loading the finished
//! table into the CPU's descriptor-table register is the unverified
//! shell's job; everything up to those bytes is built and proved here.

use vstd::prelude::*;

use crate::descriptor::Ring;
use crate::descriptor::build_code_segment;
use crate::descriptor::build_data_segment;
use crate::descriptor::build_tss_segment;
use crate::descriptor::lemma_app_descriptor_fields;
use crate::descriptor::lemma_tss_descriptor_fields;
use crate::descriptor::segment_selector;
use crate::descriptor::spec_code_descriptor;
use crate::descriptor::spec_data_descriptor;
use crate::descriptor::spec_descriptor_dpl;
use crate::descriptor::spec_descriptor_present;
use crate::descriptor::spec_selector;
use crate::descriptor::spec_tss_descriptor;
use crate::descriptor::TYPE_CODE_EXECUTE_READ;
use crate::descriptor::TYPE_DATA_READ_WRITE;

verus! {

/// Number of slots in the GDT.
pub const GDT_SIZE: usize = 128;

/// Reserved slot of the kernel code segment.
pub const KERNEL_CODE_IDX: usize = 1;

/// Reserved slot of the kernel data segment.
pub const KERNEL_DATA_IDX: usize = 2;

/// Reserved slot of the kernel TSS descriptor.
pub const KERNEL_TSS_IDX: usize = 3;

/// Reserved slot of the user code segment.
pub const USER_CODE_IDX: usize = 4;

/// Reserved slot of the user data segment.
pub const USER_DATA_IDX: usize = 5;

/// Base address the flat segments describe.
pub const SEGMENT_BASE: u32 = 0;

/// Segment limit before granularity scaling, in 4 KiB units once the
/// granularity flag is set.
pub const SEGMENT_LIMIT: u32 = 0xffff;

/// The global descriptor table: 128 raw eight-byte descriptors.
pub struct Gdt {
    pub entries: Vec<u64>,
}

/// The task-state segment fields this kernel uses: the ring-0 stack
/// segment selector and stack pointer installed on a privilege-level
/// transition.
#[derive(Clone, Copy, PartialEq, Eq, Structural, Debug)]
pub struct Tss {
    pub esp0: u32,
    pub ss0: u16,
}

impl Tss {
    pub fn new() -> (t: Tss)
        ensures
            t == (Tss { esp0: 0, ss0: 0 }),
    {
        Tss { esp0: 0, ss0: 0 }
    }

    /// The scheduler points `esp0` at the next task's kernel stack before
    /// any return to ring 3.
    pub fn set_esp0(&mut self, esp: u32)
        ensures
            *final(self) == (Tss { esp0: esp, ss0: old(self).ss0 }),
    {
        self.esp0 = esp;
    }
}

impl Gdt {
    pub open spec fn wf(self) -> bool {
        self.entries@.len() == GDT_SIZE
    }

    /// A fresh table of null descriptors.
    pub fn new() -> (g: Gdt)
        ensures
            g.wf(),
            forall|i: int| 0 <= i < GDT_SIZE ==> g.entries@[i] == 0u64,
    {
        let mut entries: Vec<u64> = Vec::new();
        let mut i: usize = 0;
        while i < GDT_SIZE
            invariant
                i <= GDT_SIZE,
                entries@.len() == i,
                forall|j: int| 0 <= j < i ==> entries@[j] == 0u64,
            decreases GDT_SIZE - i,
        {
            entries.push(0u64);
            i = i + 1;
        }
        Gdt { entries }
    }
}

/// The table after the four flat segments are written: kernel code and
/// data at ring 0, user code and data at ring 3, everything else as it
/// was.
pub open spec fn spec_install_gdt(t: Seq<u64>) -> Seq<u64> {
    t.update(
        KERNEL_CODE_IDX as int,
        spec_code_descriptor(SEGMENT_BASE, SEGMENT_LIMIT, Ring::Ring0),
    ).update(
        KERNEL_DATA_IDX as int,
        spec_data_descriptor(SEGMENT_BASE, SEGMENT_LIMIT, Ring::Ring0),
    ).update(
        USER_CODE_IDX as int,
        spec_code_descriptor(SEGMENT_BASE, SEGMENT_LIMIT, Ring::Ring3),
    ).update(
        USER_DATA_IDX as int,
        spec_data_descriptor(SEGMENT_BASE, SEGMENT_LIMIT, Ring::Ring3),
    )
}

/// The table after the TSS descriptor for a TSS at `base` with the given
/// limit is written into its reserved slot.
pub open spec fn spec_install_tss(t: Seq<u64>, base: u32, limit: u32) -> Seq<u64> {
    t.update(KERNEL_TSS_IDX as int, spec_tss_descriptor(base, limit))
}

/// Write the four flat segment descriptors into their reserved slots.
pub fn init_gdt(gdt: &mut Gdt)
    requires
        old(gdt).wf(),
    ensures
        final(gdt).wf(),
        final(gdt).entries@ == spec_install_gdt(old(gdt).entries@),
{
    let kernel_code = build_code_segment(SEGMENT_BASE, SEGMENT_LIMIT, Ring::Ring0);
    let kernel_data = build_data_segment(SEGMENT_BASE, SEGMENT_LIMIT, Ring::Ring0);
    let user_code = build_code_segment(SEGMENT_BASE, SEGMENT_LIMIT, Ring::Ring3);
    let user_data = build_data_segment(SEGMENT_BASE, SEGMENT_LIMIT, Ring::Ring3);
    gdt.entries[KERNEL_CODE_IDX] = kernel_code;
    gdt.entries[KERNEL_DATA_IDX] = kernel_data;
    gdt.entries[USER_CODE_IDX] = user_code;
    gdt.entries[USER_DATA_IDX] = user_data;
}

/// Point the TSS's ring-0 stack segment at the kernel data segment and
/// write the TSS descriptor into its reserved slot. Runs after `init_gdt`.
pub fn init_tss(gdt: &mut Gdt, tss: &mut Tss, tss_base: u32, tss_limit: u32)
    requires
        old(gdt).wf(),
        tss_limit <= 0xfffff,
    ensures
        final(gdt).wf(),
        final(gdt).entries@ == spec_install_tss(old(gdt).entries@, tss_base, tss_limit),
        final(tss).ss0 == spec_selector(KERNEL_DATA_IDX as u16, Ring::Ring0),
        final(tss).esp0 == old(tss).esp0,
{
    tss.ss0 = segment_selector(KERNEL_DATA_IDX as u16, Ring::Ring0);
    let tss_descriptor = build_tss_segment(tss_base, tss_limit);
    gdt.entries[KERNEL_TSS_IDX] = tss_descriptor;
}

/// Limit value for the descriptor-table register: the last byte offset of
/// the full table.
pub fn gdt_pointer_limit() -> (l: u16)
    ensures
        l == GDT_SIZE * 8 - 1,
{
    (GDT_SIZE * 8 - 1) as u16
}

/// Installing the segments and the TSS twice leaves the table exactly as
/// installing them once does: the writes go to fixed slots, last write
/// wins, nothing accumulates.
pub proof fn lemma_install_idempotent(t: Seq<u64>, base: u32, limit: u32)
    requires
        t.len() == GDT_SIZE,
    ensures
        spec_install_tss(spec_install_gdt(spec_install_tss(spec_install_gdt(t), base, limit)), base, limit)
            == spec_install_tss(spec_install_gdt(t), base, limit),
{
    assert(spec_install_tss(
        spec_install_gdt(spec_install_tss(spec_install_gdt(t), base, limit)),
        base,
        limit,
    ) =~= spec_install_tss(spec_install_gdt(t), base, limit));
}

/// Every reserved slot of the installed table carries its intended ring:
/// kernel code, kernel data and the TSS at ring 0, user code and user data
/// at ring 3, and all five are present.
pub proof fn lemma_reserved_gdt_privileges(t: Seq<u64>, tss_base: u32, tss_limit: u32)
    requires
        t.len() == GDT_SIZE,
    ensures
        ({
            let g = spec_install_tss(spec_install_gdt(t), tss_base, tss_limit);
            &&& spec_descriptor_dpl(g[KERNEL_CODE_IDX as int]) == 0
            &&& spec_descriptor_dpl(g[KERNEL_DATA_IDX as int]) == 0
            &&& spec_descriptor_dpl(g[KERNEL_TSS_IDX as int]) == 0
            &&& spec_descriptor_dpl(g[USER_CODE_IDX as int]) == 3
            &&& spec_descriptor_dpl(g[USER_DATA_IDX as int]) == 3
            &&& forall|i: int|
                KERNEL_CODE_IDX <= i <= USER_DATA_IDX ==> spec_descriptor_present(#[trigger] g[i])
        }),
{
    lemma_app_descriptor_fields(SEGMENT_BASE, SEGMENT_LIMIT, TYPE_CODE_EXECUTE_READ, 0);
    lemma_app_descriptor_fields(SEGMENT_BASE, SEGMENT_LIMIT, TYPE_DATA_READ_WRITE, 0);
    lemma_app_descriptor_fields(SEGMENT_BASE, SEGMENT_LIMIT, TYPE_CODE_EXECUTE_READ, 3);
    lemma_app_descriptor_fields(SEGMENT_BASE, SEGMENT_LIMIT, TYPE_DATA_READ_WRITE, 3);
    lemma_tss_descriptor_fields(tss_base, tss_limit);
}

} // verus!
