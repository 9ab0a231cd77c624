//! Construction and population of the interrupt table at boot.
//!
//! Boot order is strict: the task and segment setup (`crate::gdt`) runs
//! first, because the double-fault entry's stack-table index is meaningless
//! before the task-state segment's interrupt stack table exists; then the
//! table built here is loaded; only then are interrupts enabled. The loads
//! and the enable instruction are privileged and live with the kernel glue,
//! which performs them on the values built here in exactly that order.

pub mod idt;

use vstd::prelude::*;

use crate::gdt::DOUBLE_FAULT_IST_INDEX;
use crate::gdt::SegmentSelector;
use crate::gdt::TaskStateSegment;
use crate::interrupts::idt::Entry;
use crate::interrupts::idt::EntryOptions;
use crate::interrupts::idt::ExceptionType;
use crate::interrupts::idt::OPTIONS_PRESENT_INTERRUPT_GATE;
use crate::interrupts::idt::Idt;
use crate::interrupts::idt::VirtAddr;

verus! {

/// The vectors `init` wires up.
pub open spec fn init_installed_vector(v: int) -> bool {
    ||| v == ExceptionType::DivisionError.vector_spec()
    ||| v == ExceptionType::Breakpoint.vector_spec()
    ||| v == ExceptionType::DoubleFault.vector_spec()
}

/// Build the fully populated interrupt table of the minimal kernel: present
/// interrupt-gate entries for divide error, breakpoint and double fault,
/// each through the given code-segment selector, with the double-fault
/// entry pointed at interrupt-stack-table slot `DOUBLE_FAULT_IST_INDEX` so
/// that its handler runs on the alternate stack even when the kernel stack
/// is exhausted. Every other vector stays absent and is never dispatched.
///
/// The caller loads the result exactly once, from storage that does not
/// move afterwards, before enabling interrupts.
pub fn init(
    code_selector: SegmentSelector,
    divide_error: VirtAddr,
    breakpoint: VirtAddr,
    double_fault: VirtAddr,
) -> (r: Idt)
    ensures
        r.wf(),
        r.dispatches_to(ExceptionType::DivisionError.vector_spec() as int) == Some(
            divide_error.0,
        ),
        r.dispatches_to(ExceptionType::Breakpoint.vector_spec() as int) == Some(breakpoint.0),
        r.dispatches_to(ExceptionType::DoubleFault.vector_spec() as int) == Some(double_fault.0),
        r@[ExceptionType::DivisionError.vector_spec() as int].options_spec()
            == EntryOptions::new_spec(),
        r@[ExceptionType::Breakpoint.vector_spec() as int].options_spec()
            == EntryOptions::new_spec(),
        r@[ExceptionType::DoubleFault.vector_spec() as int].options_spec().bits() == (
        OPTIONS_PRESENT_INTERRUPT_GATE & 0xfff8) | ((DOUBLE_FAULT_IST_INDEX + 1) as u16),
        r@[ExceptionType::DoubleFault.vector_spec() as int].options_spec().ist_field()
            == DOUBLE_FAULT_IST_INDEX + 1,
        r@[ExceptionType::DoubleFault.vector_spec() as int].options_spec().is_present(),
        forall|v: int|
            0 <= v < idt::IDT_ENTRIES && !init_installed_vector(v) ==> #[trigger] r@[v]
                == Entry::missing_spec(),
        forall|v: int|
            0 <= v < idt::IDT_ENTRIES && !init_installed_vector(v) ==> #[trigger] r.dispatches_to(
                v,
            ) is None,
        forall|v: int|
            0 <= v < idt::IDT_ENTRIES && init_installed_vector(v) ==> #[trigger] r@[v].selector_spec()
                == code_selector,
{
    let mut table = Idt::new();
    table.set_handler(ExceptionType::DivisionError, divide_error, code_selector);
    table.set_handler(ExceptionType::Breakpoint, breakpoint, code_selector);
    let options = table.set_handler(ExceptionType::DoubleFault, double_fault, code_selector);
    options.set_stack_index(DOUBLE_FAULT_IST_INDEX);
    proof {
        assert(0x8e00u16 >> 15 & 1 == 1 && 0x0e00u16 >> 15 & 1 != 1 && (0x8e00u16 & 0xfff8) | 1
            == 0x8e01 && 0x8e01u16 >> 15 & 1 == 1 && 0x8e01u16 & 0b111 == 1) by (bit_vector);
    }
    table
}

/// The stack the processor switches to when it dispatches vector `v`
/// through `table`, with `tss` loaded in the task register: the address in
/// the interrupt-stack-table slot the entry's stack-table field selects,
/// or nothing when the field is zero and the current stack is kept.
pub open spec fn dispatch_stack(table: Idt, tss: TaskStateSegment, v: int) -> Option<u64> {
    if table@[v].options_spec().ist_field() == 0 {
        None
    } else {
        Some(tss.ist_spec(table@[v].options_spec().ist_field() - 1))
    }
}

/// The defining guarantee of the double-fault configuration: with the
/// table `init` builds and a task-state segment whose slot
/// `DOUBLE_FAULT_IST_INDEX` holds the top of the reserved alternate stack
/// region, a double fault is dispatched on that region — whatever the
/// kernel stack's state at the time, since the stack switch depends only
/// on the entry's stack-table field, not on the faulting stack pointer.
pub proof fn lemma_double_fault_uses_alternate_stack(
    table: Idt,
    tss: TaskStateSegment,
    stack_top: u64,
)
    requires
        tss.wf(),
        tss.ist_spec(DOUBLE_FAULT_IST_INDEX as int) == stack_top,
        table.wf(),
        table@[ExceptionType::DoubleFault.vector_spec() as int].options_spec().ist_field()
            == DOUBLE_FAULT_IST_INDEX + 1,
    ensures
        dispatch_stack(table, tss, ExceptionType::DoubleFault.vector_spec() as int) == Some(
            stack_top,
        ),
{
}

} // verus!
