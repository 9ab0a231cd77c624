use black_os::gdt::SegmentSelector;
use black_os::interrupts::idt::Entry;
use black_os::interrupts::idt::VirtAddr;
use black_os::interrupts::idt::IDT_ENTRIES;
use black_os::interrupts::init;

#[test]
fn init_installs_the_three_handlers() {
    let divide_error = VirtAddr::new(0x10_0000);
    let breakpoint = VirtAddr::new(0x20_0000);
    let double_fault = VirtAddr::new(0x30_0000);
    let table = init(SegmentSelector(8), divide_error, breakpoint, double_fault);

    assert_eq!(table.entries[0].pointer_low, 0x0000);
    assert_eq!(table.entries[0].pointer_middle, 0x0010);
    assert_eq!(table.entries[0].options.0, 0x8e00);

    assert_eq!(table.entries[3].pointer_middle, 0x0020);
    assert_eq!(table.entries[3].options.0, 0x8e00);

    assert_eq!(table.entries[8].pointer_middle, 0x0030);
    assert_eq!(table.entries[8].gdt_selector, SegmentSelector(8));
}

#[test]
fn init_points_double_fault_at_alternate_stack_slot() {
    let table = init(
        SegmentSelector(8),
        VirtAddr::new(0x1000),
        VirtAddr::new(0x2000),
        VirtAddr::new(0x3000),
    );
    // Stack-table field is the slot number plus one: slot 0 of the
    // task-state segment's interrupt stack table.
    assert_eq!(table.entries[8].options.0 & 0b111, 1);
    assert_eq!(table.entries[8].options.0 & 0x8000, 0x8000);
}

#[test]
fn init_leaves_every_other_vector_absent() {
    let table = init(
        SegmentSelector(8),
        VirtAddr::new(0x1000),
        VirtAddr::new(0x2000),
        VirtAddr::new(0x3000),
    );
    let missing = Entry::missing();
    for vector in 0..IDT_ENTRIES {
        if vector != 0 && vector != 3 && vector != 8 {
            assert_eq!(table.entries[vector], missing);
        }
    }
}
