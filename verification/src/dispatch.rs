//! Entry trampolines and the shared dispatch path.
//!
//! The CPU pushes an error code for some exceptions and not for others.
//! Each per-vector trampoline normalizes this: where the CPU pushed no
//! code, the stub pushes a fixed sentinel, then the vector number, so the
//! dispatcher always finds a uniform two-word frame on the stack. The
//! dispatcher reads the vector off the top, calls the typed handler bound
//! to it, discards the two words and returns from the interrupt — the
//! stack pointer is exactly where it was before the trampoline ran.
//!
//! The hardware delivers these frames on the machine stack; here the
//! stack is a vector of words and a handler call is recorded as an
//! `Invocation`, which the unverified shell (or a test) carries out.

use vstd::prelude::*;

use crate::handler::Handler;
use crate::handler::HandlerTable;
use crate::idt::ENTRY_SIZE;
use crate::idt::Entry;
use crate::idt::Idt;

verus! {

/// The sentinel a trampoline pushes when the CPU pushed no error code.
pub const SYNTHETIC_ERROR_CODE: u32 = 0x20230612;

/// Whether the CPU itself pushes an error code for this vector: double
/// fault, invalid TSS, segment not present, stack-segment fault, general
/// protection fault, page fault, alignment check and control protection.
pub open spec fn spec_has_cpu_error_code(vector: int) -> bool {
    vector == 0x08 || vector == 0x0a || vector == 0x0b || vector == 0x0c || vector == 0x0d
        || vector == 0x0e || vector == 0x11 || vector == 0x15
}

pub fn has_cpu_error_code(vector: u32) -> (b: bool)
    ensures
        b == spec_has_cpu_error_code(vector as int),
{
    vector == 0x08 || vector == 0x0a || vector == 0x0b || vector == 0x0c || vector == 0x0d
        || vector == 0x0e || vector == 0x11 || vector == 0x15
}

/// The error code the dispatcher observes for a vector: the CPU's own
/// code where the CPU pushed one, the sentinel everywhere else.
pub open spec fn spec_frame_error_code(vector: int, cpu_pushed: Option<u32>) -> u32 {
    if spec_has_cpu_error_code(vector) {
        cpu_pushed->0
    } else {
        SYNTHETIC_ERROR_CODE
    }
}

/// One recorded handler call: which handler, with which arguments.
#[derive(Clone, Copy, PartialEq, Eq, Structural, Debug)]
pub struct Invocation {
    pub handler: Handler,
    pub error_code: u32,
    pub vector: u32,
}

/// A fault raised instead of delivery.
#[derive(Clone, Copy, PartialEq, Eq, Structural, Debug)]
pub enum Fault {
    /// The vector's slot has its present flag clear; the CPU escalates
    /// this towards a double fault.
    NotPresent,
    /// A software interrupt from a ring that the slot's privilege level
    /// does not admit: general-protection fault.
    GeneralProtection,
}

/// The per-vector entry stub. Where the CPU pushed an error code the stub
/// leaves it alone; otherwise it pushes the sentinel. It then pushes the
/// vector number and jumps to the dispatcher, so the frame on top of the
/// stack is uniform: error code below, vector on top.
pub fn trampoline(vector: u32, cpu_pushed: Option<u32>, stack: &mut Vec<u32>)
    requires
        vector < ENTRY_SIZE,
        cpu_pushed is Some <==> spec_has_cpu_error_code(vector as int),
        old(stack)@.len() + 2 <= usize::MAX,
    ensures
        final(stack)@ == old(stack)@.push(
            spec_frame_error_code(vector as int, cpu_pushed),
        ).push(vector),
{
    match cpu_pushed {
        Some(code) => {
            stack.push(code);
        },
        None => {
            stack.push(SYNTHETIC_ERROR_CODE);
        },
    }
    stack.push(vector);
}

/// The shared dispatcher. It reads the vector number from the top of the
/// stack, looks the typed handler up in the table and records its call
/// with the frame's error code and vector, then discards the two pushed
/// words so the interrupt return sees the pre-interrupt stack.
pub fn interrupt_entry(handlers: &HandlerTable, stack: &mut Vec<u32>) -> (inv: Invocation)
    requires
        handlers.wf(),
        old(stack)@.len() >= 2,
        old(stack)@.last() < ENTRY_SIZE,
    ensures
        final(stack)@ == old(stack)@.subrange(0, old(stack)@.len() - 2),
        inv == (Invocation {
            handler: handlers.handlers@[old(stack)@.last() as int],
            error_code: old(stack)@[old(stack)@.len() - 2],
            vector: old(stack)@.last(),
        }),
{
    let vector = stack.pop().unwrap();
    let error_code = stack.pop().unwrap();
    let handler = handlers.handler_for(vector as usize);
    proof {
        assert(stack@ =~= old(stack)@.subrange(0, old(stack)@.len() - 2));
    }
    Invocation { handler, error_code, vector }
}

/// Hardware admission of a software interrupt arriving from ring
/// `cpl`: the slot must be present and its privilege level must
/// admit the caller. Interrupts raised by hardware or by the CPU itself
/// enter with `cpl` 0 and always pass a present gate.
pub fn gate_check(entry: &Entry, cpl: u32) -> (r: Result<(), Fault>)
    ensures
        !entry.options.present ==> r == Result::<(), Fault>::Err(Fault::NotPresent),
        entry.options.present && cpl > entry.options.privilege_level ==> r == Result::<
            (),
            Fault,
        >::Err(Fault::GeneralProtection),
        entry.options.present && cpl <= entry.options.privilege_level ==> r == Result::<
            (),
            Fault,
        >::Ok(()),
{
    if !entry.options.present {
        Err(Fault::NotPresent)
    } else if cpl > entry.options.privilege_level {
        Err(Fault::GeneralProtection)
    } else {
        Ok(())
    }
}

/// One full entry/dispatch/return cycle for a trampoline-backed vector,
/// raised from ring `cpl`: presence and privilege are checked, the trampoline normalizes
/// the frame, the dispatcher calls the bound handler, and the stack ends
/// exactly where it began. On a fault nothing is pushed and no handler
/// runs.
pub fn deliver(
    idt: &Idt,
    handlers: &HandlerTable,
    cpl: u32,
    vector: u32,
    cpu_pushed: Option<u32>,
    stack: &mut Vec<u32>,
) -> (r: Result<Invocation, Fault>)
    requires
        idt.wf(),
        handlers.wf(),
        vector < ENTRY_SIZE,
        cpu_pushed is Some <==> spec_has_cpu_error_code(vector as int),
        old(stack)@.len() + 2 <= usize::MAX,
    ensures
        final(stack)@ == old(stack)@,
        ({
            let entry = idt.entries@[vector as int];
            &&& !entry.options.present ==> r == Result::<Invocation, Fault>::Err(Fault::NotPresent)
            &&& entry.options.present && cpl > entry.options.privilege_level ==> r == Result::<
                Invocation,
                Fault,
            >::Err(Fault::GeneralProtection)
            &&& entry.options.present && cpl <= entry.options.privilege_level ==> r == Result::<
                Invocation,
                Fault,
            >::Ok(
                Invocation {
                    handler: handlers.handlers@[vector as int],
                    error_code: spec_frame_error_code(vector as int, cpu_pushed),
                    vector: vector,
                },
            )
        }),
{
    let entry = idt.entries[vector as usize];
    match gate_check(&entry, cpl) {
        Err(fault) => Err(fault),
        Ok(()) => {
            trampoline(vector, cpu_pushed, stack);
            let inv = interrupt_entry(handlers, stack);
            proof {
                assert(stack@ =~= old(stack)@);
            }
            Ok(inv)
        },
    }
}

} // verus!
