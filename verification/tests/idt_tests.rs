use black_os::gdt::PrivilegeLevel;
use black_os::gdt::SegmentSelector;
use black_os::interrupts::idt::Entry;
use black_os::interrupts::idt::EntryOptions;
use black_os::interrupts::idt::ExceptionType;
use black_os::interrupts::idt::HandlerType;
use black_os::interrupts::idt::Idt;
use black_os::interrupts::idt::VirtAddr;
use black_os::interrupts::idt::IDT_ENTRIES;

#[test]
fn minimal_options_bits() {
    assert_eq!(EntryOptions::minimal().0, 0x0e00);
}

#[test]
fn new_options_bits() {
    assert_eq!(EntryOptions::new().0, 0x8e00);
}

#[test]
fn set_present_sets_and_clears_bit_15() {
    let mut options = EntryOptions::minimal();
    options.set_present(true);
    assert_eq!(options.0, 0x8e00);
    options.set_present(false);
    assert_eq!(options.0, 0x0e00);
}

#[test]
fn disable_interrupts_toggles_bit_8() {
    let mut options = EntryOptions::new();
    options.disable_interrupts(false);
    assert_eq!(options.0, 0x8f00);
    options.disable_interrupts(true);
    assert_eq!(options.0, 0x8e00);
}

#[test]
fn set_privilage_level_writes_bits_13_to_14() {
    let mut options = EntryOptions::new();
    options.set_privilage_level(3);
    assert_eq!(options.0, 0xee00);
    options.set_privilage_level(0);
    assert_eq!(options.0, 0x8e00);
}

#[test]
fn set_stack_index_stores_slot_plus_one() {
    let mut options = EntryOptions::new();
    options.set_stack_index(0);
    assert_eq!(options.0, 0x8e01);
    options.set_stack_index(6);
    assert_eq!(options.0, 0x8e07);
}

#[test]
fn missing_entry_presence_bit_clear() {
    let entry = Entry::missing();
    assert_eq!(entry.options.0 & 0x8000, 0);
    assert_eq!(entry.pointer_low, 0);
    assert_eq!(entry.pointer_middle, 0);
    assert_eq!(entry.pointer_high, 0);
    assert_eq!(entry.gdt_selector, SegmentSelector(0));
}

#[test]
fn entry_address_split_round_trip() {
    let addr: u64 = 0x1_2345_6789;
    let entry = Entry::new(SegmentSelector(8), VirtAddr::new(addr));
    assert_eq!(entry.pointer_low, 0x6789);
    assert_eq!(entry.pointer_middle, 0x2345);
    assert_eq!(entry.pointer_high, 0x1);
    let reassembled =
        entry.pointer_low as u64 | (entry.pointer_middle as u64) << 16 | (entry.pointer_high as u64) << 32;
    assert_eq!(reassembled, addr);
}

#[test]
fn new_entry_is_present_interrupt_gate() {
    let entry = Entry::new(SegmentSelector(8), VirtAddr::new(0xdead_beef));
    assert_eq!(entry.options.0, 0x8e00);
    assert_eq!(entry.gdt_selector, SegmentSelector(8));
    assert_eq!(entry.reserved, 0);
}

#[test]
fn virt_addr_new_keeps_value() {
    assert_eq!(VirtAddr::new(0x42).0, 0x42);
    assert_eq!(VirtAddr::new(0x42).to_virt_addr().0, 0x42);
}

#[test]
fn exception_vector_numbers() {
    assert_eq!(ExceptionType::DivisionError.vector(), 0);
    assert_eq!(ExceptionType::Breakpoint.vector(), 3);
    assert_eq!(ExceptionType::DoubleFault.vector(), 8);
    assert_eq!(ExceptionType::PageFault.vector(), 14);
    assert_eq!(ExceptionType::SecurityException.vector(), 0x1e);
}

#[test]
fn fresh_table_is_all_missing() {
    let table = Idt::new();
    assert_eq!(table.entries.len(), IDT_ENTRIES);
    let missing = Entry::missing();
    for entry in &table.entries {
        assert_eq!(*entry, missing);
    }
}

#[test]
fn set_handler_installs_present_entry() {
    let mut table = Idt::new();
    table.set_handler(ExceptionType::Breakpoint, VirtAddr::new(0xcafe_f00d), SegmentSelector(8));
    let entry = &table.entries[3];
    assert_eq!(entry.options.0, 0x8e00);
    assert_eq!(entry.pointer_low, 0xf00d);
    assert_eq!(entry.pointer_middle, 0xcafe);
    assert_eq!(entry.pointer_high, 0);
    assert_eq!(entry.gdt_selector, SegmentSelector(8));
}

#[test]
fn set_handler_handle_configures_stack_index() {
    let mut table = Idt::new();
    let options =
        table.set_handler(ExceptionType::DoubleFault, VirtAddr::new(0x1000), SegmentSelector(8));
    options.set_stack_index(0);
    assert_eq!(table.entries[8].options.0, 0x8e01);
}

#[test]
fn install_at_maximum_vector_keeps_neighbours() {
    let mut table = Idt::new();
    let max = ExceptionType::SecurityException;
    table.set_handler(max, VirtAddr::new(0xffff_ffff_ffff_ffff), SegmentSelector(8));
    let v = max.vector() as usize;
    let missing = Entry::missing();
    assert_eq!(table.entries[v].pointer_low, 0xffff);
    assert_eq!(table.entries[v].pointer_high, 0xffff_ffff);
    assert_eq!(table.entries[v - 1], missing);
    assert_eq!(table.entries[v + 1], missing);
}

#[test]
fn pointer_limit_fits_limit_field() {
    let table = Idt::new();
    assert_eq!(table.pointer_limit(), 4095);
    assert_eq!(IDT_ENTRIES * 16 - 1, 4095);
}

#[test]
fn repeated_pointer_limit_without_mutation_is_identical() {
    let table = black_os::interrupts::init(
        SegmentSelector(8),
        VirtAddr::new(0x100),
        VirtAddr::new(0x200),
        VirtAddr::new(0x300),
    );
    let first = table.pointer_limit();
    let before: Vec<Entry> = table.entries.clone();
    let second = table.pointer_limit();
    assert_eq!(first, second);
    for (a, b) in before.iter().zip(table.entries.iter()) {
        assert_eq!(a, b);
    }
}

#[test]
fn selector_packs_index_and_rpl() {
    assert_eq!(SegmentSelector::new(1, PrivilegeLevel::Ring0).0, 8);
    assert_eq!(SegmentSelector::new(2, PrivilegeLevel::Ring3).0, 19);
}
