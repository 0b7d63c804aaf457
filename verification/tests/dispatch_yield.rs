use kernel_core::dispatch::{
    deliver, gate_check, has_cpu_error_code, interrupt_entry, trampoline, Fault, Invocation,
    SYNTHETIC_ERROR_CODE,
};
use kernel_core::handler::{Handler, HandlerTable};
use kernel_core::idt::{init_idt, Idt, ENTRY_SIZE, SYSCALL_VECTOR};
use kernel_core::task::{
    idle, sys_yield, system_call, IdleAction, IdlePhase, TaskContext, TaskSet, SYS_YIELD,
};

fn installed_tables() -> (Idt, HandlerTable) {
    let trampolines: Vec<u32> = (0..ENTRY_SIZE as u32).map(|v| 0x0010_0000 + v * 16).collect();
    let mut idt = Idt::new();
    let mut handlers = HandlerTable::new();
    init_idt(&mut idt, &mut handlers, &trampolines, 0x00200000);
    (idt, handlers)
}

#[test]
fn cpu_error_code_vectors_are_exactly_the_documented_eight() {
    let with_code = [0x08, 0x0a, 0x0b, 0x0c, 0x0d, 0x0e, 0x11, 0x15];
    for v in 0..ENTRY_SIZE as u32 {
        assert_eq!(has_cpu_error_code(v), with_code.contains(&v), "vector {v}");
    }
}

#[test]
fn sentinel_is_observed_for_vectors_without_cpu_error_code() {
    let (idt, mut handlers) = installed_tables();
    handlers.set_interrupt_handler(3, Handler::Bound(7));
    let mut stack: Vec<u32> = vec![0x1111, 0x2222];
    let inv = deliver(&idt, &handlers, 0, 3, None, &mut stack).unwrap();
    assert_eq!(inv.handler, Handler::Bound(7));
    assert_eq!(inv.error_code, SYNTHETIC_ERROR_CODE);
    assert_eq!(inv.vector, 3);
    assert_eq!(stack, vec![0x1111, 0x2222]);
}

#[test]
fn cpu_error_code_is_observed_unmodified() {
    let (idt, mut handlers) = installed_tables();
    handlers.set_interrupt_handler(0x0d, Handler::Bound(13));
    let mut stack: Vec<u32> = Vec::new();
    let inv = deliver(&idt, &handlers, 0, 0x0d, Some(0x42), &mut stack).unwrap();
    assert_eq!(inv, Invocation { handler: Handler::Bound(13), error_code: 0x42, vector: 0x0d });
    assert!(stack.is_empty());
}

#[test]
fn bound_vector_five_dispatch_restores_the_stack() {
    let (idt, mut handlers) = installed_tables();
    handlers.set_interrupt_handler(5, Handler::Bound(42));
    let mut stack: Vec<u32> = vec![0xaaaa_aaaa];
    let depth_before = stack.len();
    let inv = deliver(&idt, &handlers, 0, 5, None, &mut stack).unwrap();
    assert_eq!(inv.handler, Handler::Bound(42));
    assert_eq!(inv.error_code, SYNTHETIC_ERROR_CODE);
    assert_eq!(inv.vector, 5);
    // Stack pointer delta of zero across the full cycle.
    assert_eq!(stack.len(), depth_before);
    assert_eq!(stack, vec![0xaaaa_aaaa]);
}

#[test]
fn trampoline_and_dispatcher_agree_on_the_frame() {
    let (_, mut handlers) = installed_tables();
    handlers.set_interrupt_handler(5, Handler::Bound(42));
    let mut stack: Vec<u32> = vec![0x77];
    trampoline(5, None, &mut stack);
    assert_eq!(stack, vec![0x77, SYNTHETIC_ERROR_CODE, 5]);
    let inv = interrupt_entry(&handlers, &mut stack);
    assert_eq!(inv, Invocation { handler: Handler::Bound(42), error_code: SYNTHETIC_ERROR_CODE, vector: 5 });
    assert_eq!(stack, vec![0x77]);
}

#[test]
fn privilege_gate_admits_ring_three_only_where_lowered() {
    let (idt, handlers) = installed_tables();

    // The syscall gate was installed at privilege level 3: a ring 3
    // caller passes.
    assert_eq!(gate_check(&idt.entries[SYSCALL_VECTOR], 3), Ok(()));
    assert_eq!(gate_check(&idt.entries[SYSCALL_VECTOR], 0), Ok(()));

    // A vector still bound at privilege level 0 rejects ring 3 with a
    // protection fault.
    assert_eq!(gate_check(&idt.entries[5], 3), Err(Fault::GeneralProtection));
    let mut stack: Vec<u32> = Vec::new();
    let r = deliver(&idt, &handlers, 3, 5, None, &mut stack);
    assert_eq!(r, Err(Fault::GeneralProtection));
    assert!(stack.is_empty());

    // An unbound vector faults regardless of ring.
    let fresh = Idt::new();
    assert_eq!(gate_check(&fresh.entries[5], 0), Err(Fault::NotPresent));
    let r = deliver(&fresh, &handlers, 0, 5, None, &mut stack);
    assert_eq!(r, Err(Fault::NotPresent));
}

#[test]
fn rebinding_an_irq_vector_dispatches_without_losing_others() {
    let trampolines: Vec<u32> = (0..ENTRY_SIZE as u32).map(|v| 0x0010_0000 + v * 16).collect();
    let mut idt = Idt::new();
    let mut handlers = HandlerTable::new();

    // Vector 33 starts missing; rebind it to the default handler.
    assert_eq!(handlers.handlers[33], Handler::Missing);
    init_idt(&mut idt, &mut handlers, &trampolines, 0x00200000);
    assert_eq!(handlers.handlers[33], Handler::DefaultExternal);

    // Dispatching it invokes the default handler exactly once...
    let mut stack: Vec<u32> = Vec::new();
    let first = deliver(&idt, &handlers, 0, 33, None, &mut stack).unwrap();
    assert_eq!(first.handler, Handler::DefaultExternal);
    assert_eq!(first.vector, 33);

    // ...and a pending interrupt on another vector still goes through.
    let second = deliver(&idt, &handlers, 0, 34, None, &mut stack).unwrap();
    assert_eq!(second.handler, Handler::DefaultExternal);
    assert_eq!(second.vector, 34);
    assert!(stack.is_empty());
}

#[test]
fn yield_walks_the_round_robin_and_returns_to_the_caller() {
    let contexts = vec![
        TaskContext { cpl: 0 },
        TaskContext { cpl: 3 },
        TaskContext { cpl: 3 },
    ];
    let mut tasks = TaskSet::new(contexts.clone());
    assert_eq!(tasks.current, 0);

    sys_yield(&mut tasks);
    assert_eq!(tasks.current, 1);
    sys_yield(&mut tasks);
    assert_eq!(tasks.current, 2);
    sys_yield(&mut tasks);

    // After every other task yielded once, the first task runs again and
    // its saved context is untouched: no stale privilege state.
    assert_eq!(tasks.current, 0);
    assert_eq!(tasks.contexts, contexts);
}

#[test]
fn only_the_yield_call_reschedules() {
    let contexts = vec![TaskContext { cpl: 0 }, TaskContext { cpl: 3 }];
    let mut tasks = TaskSet::new(contexts);
    system_call(&mut tasks, 0, SYS_YIELD + 1);
    assert_eq!(tasks.current, 0);
    system_call(&mut tasks, 0, SYS_YIELD);
    assert_eq!(tasks.current, 1);
    // A single task yields to itself.
    let mut solo = TaskSet::new(vec![TaskContext { cpl: 0 }]);
    sys_yield(&mut solo);
    assert_eq!(solo.current, 0);
}

#[test]
fn idle_cycles_through_halt_print_yield_forever() {
    let (a1, p1) = idle(IdlePhase::Halting);
    assert_eq!(a1, IdleAction::HaltUntilInterrupt);
    let (a2, p2) = idle(p1);
    assert_eq!(a2, IdleAction::PrintMark);
    let (a3, p3) = idle(p2);
    assert_eq!(a3, IdleAction::YieldCpu);
    // The cycle closes: no terminal phase exists.
    assert_eq!(p3, IdlePhase::Halting);
}
