use kernel_core::descriptor::{
    build_code_segment, build_data_segment, build_tss_segment, descriptor_dpl,
    descriptor_present, Ring,
};
use kernel_core::gdt::{
    gdt_pointer_limit, init_gdt, init_tss, Gdt, Tss, GDT_SIZE, KERNEL_CODE_IDX, KERNEL_DATA_IDX,
    KERNEL_TSS_IDX, USER_CODE_IDX, USER_DATA_IDX,
};
use kernel_core::handler::{Handler, HandlerTable};
use kernel_core::idt::{
    idt_pointer_limit, init_idt, Entry, Idt, ENTRY_SIZE, IDT_SIZE, IRQ_MASTER_NR,
    KERNEL_CODE_SELECTOR, SYSCALL_VECTOR,
};

fn trampoline_table() -> Vec<u32> {
    (0..ENTRY_SIZE as u32).map(|v| 0x0010_0000 + v * 16).collect()
}

#[test]
fn flat_segment_descriptors_match_the_documented_layout() {
    // The classic flat 4 GiB segments: limit 0xfffff in 4 KiB units.
    assert_eq!(build_code_segment(0, 0xfffff, Ring::Ring0), 0x00CF9A000000FFFF);
    assert_eq!(build_data_segment(0, 0xfffff, Ring::Ring0), 0x00CF92000000FFFF);
    assert_eq!(build_code_segment(0, 0xfffff, Ring::Ring3), 0x00CFFA000000FFFF);
    assert_eq!(build_data_segment(0, 0xfffff, Ring::Ring3), 0x00CFF2000000FFFF);
    // A nonzero base splits across the three base fields.
    assert_eq!(build_tss_segment(0x12345678, 0x68), 0x1200893456780068);
}

#[test]
fn installed_gdt_has_the_reserved_layout() {
    let mut gdt = Gdt::new();
    let mut tss = Tss::new();
    init_gdt(&mut gdt);
    init_tss(&mut gdt, &mut tss, 0x12345678, 0x68);

    assert_eq!(gdt.entries.len(), GDT_SIZE);
    assert_eq!(gdt.entries[0], 0);
    assert_eq!(gdt.entries[KERNEL_CODE_IDX], 0x00C09A000000FFFF);
    assert_eq!(gdt.entries[KERNEL_DATA_IDX], 0x00C092000000FFFF);
    assert_eq!(gdt.entries[KERNEL_TSS_IDX], 0x1200893456780068);
    assert_eq!(gdt.entries[USER_CODE_IDX], 0x00C0FA000000FFFF);
    assert_eq!(gdt.entries[USER_DATA_IDX], 0x00C0F2000000FFFF);
    // Slots past the reserved ones stay null.
    assert!(gdt.entries[6..].iter().all(|&d| d == 0));

    // The privilege fields read back per reserved index: 1,2,3 kernel,
    // 4,5 user, all five present.
    for idx in [KERNEL_CODE_IDX, KERNEL_DATA_IDX, KERNEL_TSS_IDX] {
        assert_eq!(descriptor_dpl(gdt.entries[idx]), 0);
        assert!(descriptor_present(gdt.entries[idx]));
    }
    for idx in [USER_CODE_IDX, USER_DATA_IDX] {
        assert_eq!(descriptor_dpl(gdt.entries[idx]), 3);
        assert!(descriptor_present(gdt.entries[idx]));
    }

    // The TSS's ring-0 stack selector names the kernel data segment.
    assert_eq!(tss.ss0, 0x10);
    assert_eq!(tss.esp0, 0);
}

#[test]
fn installing_twice_equals_installing_once() {
    let mut once_gdt = Gdt::new();
    let mut once_tss = Tss::new();
    init_gdt(&mut once_gdt);
    init_tss(&mut once_gdt, &mut once_tss, 0x1000, 0x68);

    let mut twice_gdt = Gdt::new();
    let mut twice_tss = Tss::new();
    init_gdt(&mut twice_gdt);
    init_tss(&mut twice_gdt, &mut twice_tss, 0x1000, 0x68);
    init_gdt(&mut twice_gdt);
    init_tss(&mut twice_gdt, &mut twice_tss, 0x1000, 0x68);

    assert_eq!(once_gdt.entries, twice_gdt.entries);
    assert_eq!(once_tss, twice_tss);

    let trampolines = trampoline_table();
    let mut once_idt = Idt::new();
    let mut once_handlers = HandlerTable::new();
    init_idt(&mut once_idt, &mut once_handlers, &trampolines, 0x00200000);

    let mut twice_idt = Idt::new();
    let mut twice_handlers = HandlerTable::new();
    init_idt(&mut twice_idt, &mut twice_handlers, &trampolines, 0x00200000);
    init_idt(&mut twice_idt, &mut twice_handlers, &trampolines, 0x00200000);

    assert_eq!(once_idt.entries, twice_idt.entries);
    assert_eq!(once_handlers.handlers, twice_handlers.handlers);
}

#[test]
fn rings_and_selectors_surface_in_installed_tables() {
    assert_eq!(Ring::Ring0.level(), 0);
    assert_eq!(Ring::Ring3.level(), 3);

    // The selector the TSS records for its ring-0 stack segment: GDT
    // index 2 at ring 0.
    let mut gdt = Gdt::new();
    let mut tss = Tss::new();
    init_gdt(&mut gdt);
    init_tss(&mut gdt, &mut tss, 0, 0x68);
    assert_eq!(tss.ss0, (KERNEL_DATA_IDX as u16) << 3);

    // The scheduler moves only the ring-0 stack pointer.
    tss.set_esp0(0x0009_f000);
    assert_eq!(tss.esp0, 0x0009_f000);
    assert_eq!(tss.ss0, 0x10);

    // The selector every installed IDT slot targets: GDT index 1 at
    // ring 0.
    assert_eq!(KERNEL_CODE_SELECTOR, (KERNEL_CODE_IDX as u16) << 3);
}

#[test]
fn table_register_limits_cover_the_full_tables() {
    assert_eq!(gdt_pointer_limit(), 128 * 8 - 1);
    assert_eq!(idt_pointer_limit(), 256 * 8 - 1);
}

#[test]
fn installed_idt_binds_every_vector_as_documented() {
    let trampolines = trampoline_table();
    let syscall_entry = 0x00200000;
    let mut idt = Idt::new();
    let mut handlers = HandlerTable::new();
    init_idt(&mut idt, &mut handlers, &trampolines, syscall_entry);

    assert_eq!(idt.entries.len(), IDT_SIZE);
    for v in 0..ENTRY_SIZE {
        let e = idt.entries[v];
        assert!(e.options.present);
        assert_eq!(e.options.privilege_level, 0);
        assert_eq!(e.handler, trampolines[v]);
        assert_eq!(e.selector, KERNEL_CODE_SELECTOR);
    }
    let syscall = idt.entries[SYSCALL_VECTOR];
    assert!(syscall.options.present);
    assert_eq!(syscall.options.privilege_level, 3);
    assert_eq!(syscall.handler, syscall_entry);
    for v in ENTRY_SIZE..IDT_SIZE {
        if v != SYSCALL_VECTOR {
            assert!(!idt.entries[v].options.present);
        }
    }

    // The external IRQ vectors fall back to the default handler; the
    // exception vectors stay unclaimed until someone binds them.
    for v in 0..IRQ_MASTER_NR {
        assert_eq!(handlers.handlers[v], Handler::Missing);
    }
    for v in IRQ_MASTER_NR..ENTRY_SIZE {
        assert_eq!(handlers.handlers[v], Handler::DefaultExternal);
    }
}

#[test]
fn gate_encoding_matches_the_interrupt_gate_layout() {
    let mut e = Entry::missing();
    // An unbound slot still encodes the 32-bit interrupt-gate type; its
    // present bit stays clear.
    assert_eq!(e.encode(), 0x00000E0000000000);

    e.set_handler_fn(0xdeadbeef);
    // offset 0xdeadbeef behind selector 8: present, ring 0, 32-bit
    // interrupt gate type.
    assert_eq!(e.encode(), 0xDEAD8E000008BEEF);

    e.options.set_privilege_level(3);
    assert_eq!(e.encode(), 0xDEADEE000008BEEF);
}
