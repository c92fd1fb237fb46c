use cjn_os::gdt::{
    gdt_with_task_state, task_state_with_fault_stack, SegmentDescriptor, DOUBLE_FAULT_IST_INDEX,
    IST_ENTRIES, STACK_SIZE,
};

#[test]
fn fault_stack_slot_holds_top_of_region() {
    let stack_start: u64 = 0x10_0000;
    let tss = task_state_with_fault_stack(stack_start);
    assert_eq!(STACK_SIZE, 4096 * 5);
    assert_eq!(
        tss.stack_top(DOUBLE_FAULT_IST_INDEX as usize),
        stack_start + STACK_SIZE as u64
    );
    for slot in 1..IST_ENTRIES {
        assert_eq!(tss.stack_top(slot), 0);
    }
}

#[test]
fn gdt_holds_code_then_task_state_with_their_selectors() {
    let top: u64 = 0x20_0000;
    let (gdt, selectors) = gdt_with_task_state(top);
    assert_eq!(gdt.len(), 2);
    assert_eq!(selectors.code_selector, 1);
    assert_eq!(selectors.tss_selector, 2);
    assert_eq!(gdt.entry_at(0), SegmentDescriptor::KernelCode);
    assert_eq!(gdt.entry_at(1), SegmentDescriptor::TaskState(top));
}

#[test]
fn fault_stack_region_disjoint_from_a_normal_stack() {
    // The configured slot address is the region's highest address; the
    // region below it must not intersect an elsewhere-placed normal stack.
    let stack_start: u64 = 0x10_0000;
    let tss = task_state_with_fault_stack(stack_start);
    let top = tss.stack_top(DOUBLE_FAULT_IST_INDEX as usize);
    let fault_lo = top - STACK_SIZE as u64;
    let fault_hi = top;
    let normal_lo: u64 = 0x80_0000;
    let normal_hi: u64 = 0x90_0000;
    assert!(fault_hi <= normal_lo || normal_hi <= fault_lo);
    assert_eq!(fault_lo, stack_start);
}
