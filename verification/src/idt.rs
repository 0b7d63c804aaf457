//! The interrupt descriptor table.
//!
//! One entry per vector: either missing (present flag clear; the CPU
//! escalates any interrupt routed there) or bound to an entry-point
//! address behind an interrupt gate. Installation binds the 48 trampoline
//! vectors at ring 0, routes the external IRQ vectors to the default
//! handler, and binds the syscall vector at ring 3 so user mode may call
//! through it. Loading the finished table into the CPU's register is the
//! unverified shell's job.

use vstd::prelude::*;

use crate::descriptor::Ring;
use crate::descriptor::spec_selector;
use crate::handler::Handler;
use crate::handler::HandlerTable;

verus! {

/// Number of vectors the CPU can address in this table.
pub const IDT_SIZE: usize = 256;

/// Number of vectors backed by entry trampolines: the CPU exceptions and
/// the 16 external IRQ vectors.
pub const ENTRY_SIZE: usize = 48;

/// First external IRQ vector after remapping.
pub const IRQ_MASTER_NR: usize = 32;

/// The vector reserved for system calls, callable from ring 3.
pub const SYSCALL_VECTOR: usize = 0x80;

/// Selector of the kernel code segment, which every gate targets.
pub const KERNEL_CODE_SELECTOR: u16 = 8;

/// Every installed slot targets exactly the kernel code segment's selector.
pub proof fn lemma_kernel_code_selector()
    ensures
        spec_selector(crate::gdt::KERNEL_CODE_IDX as u16, Ring::Ring0) == KERNEL_CODE_SELECTOR,
{
    assert((1u16 << 3) | 0u16 == 8u16) by (bit_vector);
}

/// Access-control record of one gate: whether the slot is bound and which
/// ring may call through it with a software interrupt.
#[derive(Clone, Copy, PartialEq, Eq, Structural, Debug)]
pub struct EntryOptions {
    pub present: bool,
    pub privilege_level: u32,
}

impl EntryOptions {
    /// Lower the slot to ring 3 (or restore ring 0), as for the syscall
    /// vector.
    pub fn set_privilege_level(&mut self, level: u32)
        requires
            level == 0 || level == 3,
        ensures
            *final(self) == (EntryOptions { present: old(self).present, privilege_level: level }),
    {
        self.privilege_level = level;
    }
}

/// One IDT slot: target entry-point address, code segment selector, and
/// the access options.
#[derive(Clone, Copy, PartialEq, Eq, Structural, Debug)]
pub struct Entry {
    pub handler: u32,
    pub selector: u16,
    pub options: EntryOptions,
}

impl Entry {
    /// The unbound slot value.
    pub open spec fn spec_missing() -> Entry {
        Entry { handler: 0, selector: 0, options: EntryOptions { present: false, privilege_level: 0 } }
    }

    /// A slot bound to `addr` behind an interrupt gate at the given ring.
    pub open spec fn spec_bound(addr: u32, dpl: u32) -> Entry {
        Entry {
            handler: addr,
            selector: KERNEL_CODE_SELECTOR,
            options: EntryOptions { present: true, privilege_level: dpl },
        }
    }

    /// The default value of a slot: present flag clear, so any interrupt
    /// delivered to it is a fault.
    pub fn missing() -> (e: Entry)
        ensures
            e == Entry::spec_missing(),
    {
        Entry { handler: 0, selector: 0, options: EntryOptions { present: false, privilege_level: 0 } }
    }

    /// Bind the slot to an entry-point address: interrupt gate, kernel
    /// code segment, ring 0. Hands back the options so a caller may
    /// lower the privilege level afterwards.
    pub fn set_handler_fn(&mut self, addr: u32) -> (opts: &mut EntryOptions)
        ensures
            *opts == (EntryOptions { present: true, privilege_level: 0 }),
            *final(self) == (Entry {
                handler: addr,
                selector: KERNEL_CODE_SELECTOR,
                options: *final(opts),
            }),
    {
        self.handler = addr;
        self.selector = KERNEL_CODE_SELECTOR;
        self.options = EntryOptions { present: true, privilege_level: 0 };
        &mut self.options
    }

    /// Low doubleword of the encoded slot as the CPU reads it: the selector over
    /// offset[15:0].
    pub open spec fn spec_gate_lower(self) -> u32 {
        ((self.selector as u32) << 16) | (self.handler & 0xffff)
    }

    /// High doubleword of the encoded slot: offset[31:16], the present bit, the
    /// privilege level, and the 32-bit interrupt-gate type.
    pub open spec fn spec_gate_upper(self) -> u32 {
        (self.handler & 0xffff0000) | (if self.options.present {
            0x8000u32
        } else {
            0u32
        }) | ((self.options.privilege_level & 3) << 13) | 0xe00
    }

    /// The eight gate bytes as one value, high doubleword on top.
    pub fn encode(&self) -> (bits: u64)
        ensures
            bits == ((self.spec_gate_upper() as u64) << 32) | (self.spec_gate_lower() as u64),
    {
        let lower: u32 = ((self.selector as u32) << 16) | (self.handler & 0xffff);
        let upper: u32 = (self.handler & 0xffff0000) | (if self.options.present {
            0x8000u32
        } else {
            0u32
        }) | ((self.options.privilege_level & 3) << 13) | 0xe00;
        ((upper as u64) << 32) | (lower as u64)
    }
}

/// The interrupt descriptor table: one entry per vector.
pub struct Idt {
    pub entries: Vec<Entry>,
}

impl Idt {
    pub open spec fn wf(self) -> bool {
        self.entries@.len() == IDT_SIZE
    }

    /// A fresh table with every vector missing.
    pub fn new() -> (t: Idt)
        ensures
            t.wf(),
            forall|v: int| 0 <= v < IDT_SIZE ==> t.entries@[v] == Entry::spec_missing(),
    {
        let mut entries: Vec<Entry> = Vec::new();
        let mut i: usize = 0;
        while i < IDT_SIZE
            invariant
                i <= IDT_SIZE,
                entries@.len() == i,
                forall|j: int| 0 <= j < i ==> entries@[j] == Entry::spec_missing(),
            decreases IDT_SIZE - i,
        {
            entries.push(Entry::missing());
            i = i + 1;
        }
        Idt { entries }
    }
}

/// The table after installation: each trampoline vector bound to its
/// entry stub at ring 0, the syscall vector bound to the syscall entry at
/// ring 3, every other slot as it was.
pub open spec fn spec_install_idt(t: Seq<Entry>, trampolines: Seq<u32>, syscall_entry: u32) -> Seq<
    Entry,
> {
    Seq::new(
        t.len(),
        |v: int|
            if v == SYSCALL_VECTOR {
                Entry::spec_bound(syscall_entry, 3)
            } else if 0 <= v < ENTRY_SIZE {
                Entry::spec_bound(trampolines[v], 0)
            } else {
                t[v]
            },
    )
}

/// The handler table after installation: the external IRQ vectors routed
/// to the default external handler, every other binding as it was.
pub open spec fn spec_install_handlers(h: Seq<Handler>) -> Seq<Handler> {
    Seq::new(
        h.len(),
        |v: int|
            if IRQ_MASTER_NR <= v < ENTRY_SIZE {
                Handler::DefaultExternal
            } else {
                h[v]
            },
    )
}

/// Populate the IDT and the handler table: bind every trampoline vector,
/// route unclaimed external IRQ vectors to the default handler, and bind
/// the syscall vector at ring 3. `trampolines` are the 48 entry-stub
/// addresses, `syscall_entry` the syscall entry point.
pub fn init_idt(
    idt: &mut Idt,
    handlers: &mut HandlerTable,
    trampolines: &Vec<u32>,
    syscall_entry: u32,
)
    requires
        old(idt).wf(),
        old(handlers).wf(),
        trampolines@.len() == ENTRY_SIZE,
    ensures
        final(idt).wf(),
        final(handlers).wf(),
        final(idt).entries@ == spec_install_idt(old(idt).entries@, trampolines@, syscall_entry),
        final(handlers).handlers@ == spec_install_handlers(old(handlers).handlers@),
{
    let mut index: usize = 0;
    while index < ENTRY_SIZE
        invariant
            idt.wf(),
            trampolines@.len() == ENTRY_SIZE,
            index <= ENTRY_SIZE,
            forall|j: int| 0 <= j < index ==> idt.entries@[j] == Entry::spec_bound(
                trampolines@[j],
                0,
            ),
            forall|j: int| index <= j < IDT_SIZE ==> idt.entries@[j] == old(idt).entries@[j],
        decreases ENTRY_SIZE - index,
    {
        let mut entry = idt.entries[index];
        entry.set_handler_fn(trampolines[index]);
        idt.entries[index] = entry;
        index = index + 1;
    }

    let mut v: usize = IRQ_MASTER_NR;
    while v < ENTRY_SIZE
        invariant
            handlers.wf(),
            IRQ_MASTER_NR <= v <= ENTRY_SIZE,
            forall|j: int|
                IRQ_MASTER_NR <= j < v ==> handlers.handlers@[j] == Handler::DefaultExternal,
            forall|j: int|
                0 <= j < ENTRY_SIZE && !(IRQ_MASTER_NR <= j < v) ==> handlers.handlers@[j] == old(
                    handlers,
                ).handlers@[j],
        decreases ENTRY_SIZE - v,
    {
        handlers.set_interrupt_handler(v, Handler::DefaultExternal);
        v = v + 1;
    }

    let mut syscall_slot = idt.entries[SYSCALL_VECTOR];
    syscall_slot.set_handler_fn(syscall_entry);
    syscall_slot.options.set_privilege_level(3);
    idt.entries[SYSCALL_VECTOR] = syscall_slot;

    proof {
        assert(idt.entries@ =~= spec_install_idt(old(idt).entries@, trampolines@, syscall_entry));
        assert(handlers.handlers@ =~= spec_install_handlers(old(handlers).handlers@));
    }
}

/// After installing into fresh tables, every trampoline vector is present
/// at ring 0, the syscall vector is present at ring 3, and nothing else
/// is present: the post-initialization invariant of the IDT.
pub proof fn lemma_idt_invariant(t: Seq<Entry>, trampolines: Seq<u32>, syscall_entry: u32)
    requires
        t.len() == IDT_SIZE,
        trampolines.len() == ENTRY_SIZE,
        forall|v: int| 0 <= v < IDT_SIZE ==> t[v] == Entry::spec_missing(),
    ensures
        ({
            let idt = spec_install_idt(t, trampolines, syscall_entry);
            &&& forall|v: int|
                0 <= v < IDT_SIZE ==> ((#[trigger] idt[v]).options.present <==> (v < ENTRY_SIZE
                    || v == SYSCALL_VECTOR))
            &&& forall|v: int|
                0 <= v < IDT_SIZE ==> (#[trigger] idt[v]).options.privilege_level == (
                if v == SYSCALL_VECTOR {
                    3u32
                } else {
                    0u32
                })
        }),
{
}

/// Installing the IDT and handler bindings twice leaves both tables as
/// one installation does: every write lands on a fixed slot, last write
/// wins.
pub proof fn lemma_install_idt_idempotent(
    t: Seq<Entry>,
    h: Seq<Handler>,
    trampolines: Seq<u32>,
    syscall_entry: u32,
)
    ensures
        spec_install_idt(spec_install_idt(t, trampolines, syscall_entry), trampolines, syscall_entry)
            == spec_install_idt(t, trampolines, syscall_entry),
        spec_install_handlers(spec_install_handlers(h)) == spec_install_handlers(h),
{
    assert(spec_install_idt(
        spec_install_idt(t, trampolines, syscall_entry),
        trampolines,
        syscall_entry,
    ) =~= spec_install_idt(t, trampolines, syscall_entry));
    assert(spec_install_handlers(spec_install_handlers(h)) =~= spec_install_handlers(h));
}

/// Limit value for the interrupt descriptor-table register: the last byte
/// offset of the full table.
pub fn idt_pointer_limit() -> (l: u16)
    ensures
        l == IDT_SIZE * 8 - 1,
{
    (IDT_SIZE * 8 - 1) as u16
}

} // verus!
