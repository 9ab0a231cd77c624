use black_os::gdt::build_gdt;
use black_os::gdt::build_tss;
use black_os::gdt::tss_descriptor;
use black_os::gdt::Gdt;
use black_os::gdt::DOUBLE_FAULT_IST_INDEX;
use black_os::gdt::IST_SLOTS;
use black_os::gdt::KERNEL_CODE_DESCRIPTOR;
use black_os::gdt::TSS_SIZE;

#[test]
fn kernel_code_descriptor_value() {
    assert_eq!(KERNEL_CODE_DESCRIPTOR, 0x00af_9b00_0000_ffff);
}

#[test]
fn tss_size_and_limit() {
    assert_eq!(TSS_SIZE, 104);
    let tss = build_tss(0);
    assert_eq!(tss.iomap_base, 104);
}

#[test]
fn tss_descriptor_encodes_base_and_limit() {
    let base: u64 = 0x1234_5678_9abc_def0;
    let (low, high) = tss_descriptor(base);
    assert_eq!(low, 0x9a00_89bc_def0_0067);
    assert_eq!(high, 0x1234_5678);
}

#[test]
fn tss_descriptor_round_trip() {
    let base: u64 = 0x0000_7fff_dead_beef;
    let (low, high) = tss_descriptor(base);
    let reassembled = ((low >> 16) & 0xff_ffff) | (((low >> 56) & 0xff) << 24) | (high << 32);
    assert_eq!(reassembled, base);
}

#[test]
fn built_tss_points_double_fault_slot_at_stack_top() {
    let stack_top: u64 = 0x5_0000;
    let tss = build_tss(stack_top);
    assert_eq!(tss.interrupt_stack_table[DOUBLE_FAULT_IST_INDEX as usize], stack_top);
    for slot in 0..IST_SLOTS {
        if slot != DOUBLE_FAULT_IST_INDEX as usize {
            assert_eq!(tss.interrupt_stack_table[slot], 0);
        }
    }
    for stack in &tss.privilege_stack_table {
        assert_eq!(*stack, 0);
    }
}

#[test]
fn built_gdt_holds_null_code_and_tss_descriptors() {
    let base: u64 = 0x1000;
    let (gdt, selectors) = build_gdt(base);
    let (low, high) = tss_descriptor(base);
    assert_eq!(gdt.table, vec![0, KERNEL_CODE_DESCRIPTOR, low, high]);
    assert_eq!(selectors.code.0, 8);
    assert_eq!(selectors.tss.0, 16);
}

#[test]
fn gdt_pointer_limit_counts_descriptor_words() {
    let gdt = Gdt::new();
    assert_eq!(gdt.pointer_limit(), 7);
    let (built, _) = build_gdt(0);
    assert_eq!(built.pointer_limit(), 31);
}
