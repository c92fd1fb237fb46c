//! Segment and task-state setup: the global descriptor table and the
//! task-state block that carries the dedicated double-fault stack.
//!
//! The table and the block are built here as plain values with proved shape;
//! loading them into the CPU (the register writes) happens outside this
//! crate, once, after construction.

use vstd::prelude::*;

verus! {

/// The interrupt-stack-table slot reserved for the double-fault handler.
pub const DOUBLE_FAULT_IST_INDEX: u16 = 0;

/// Size in bytes of the statically reserved double-fault stack region.
pub const STACK_SIZE: usize = 4096 * 5;

/// Number of interrupt-stack-table slots in a task-state block.
pub const IST_ENTRIES: usize = 7;

/// Highest address of the fault-stack region that starts at `stack_start`:
/// stacks grow downward, so this is the address stored in the task-state
/// block.
pub open spec fn fault_stack_top(stack_start: u64) -> int {
    stack_start + STACK_SIZE as int
}

/// Task-state block model: the interrupt stack table, one candidate stack
/// top per slot, with 0 meaning "unset".
pub struct TaskStateTable {
    ist: Vec<u64>,
}

impl View for TaskStateTable {
    type V = Seq<u64>;

    closed spec fn view(&self) -> Seq<u64> {
        self.ist@
    }
}

impl TaskStateTable {
    pub open spec fn wf(self) -> bool {
        self@.len() == IST_ENTRIES as int
    }

    /// A task-state block whose slots are all unset.
    pub fn new() -> (t: TaskStateTable)
        ensures
            t.wf(),
            forall|i: int| 0 <= i < IST_ENTRIES as int ==> t@[i] == 0,
    {
        let mut ist: Vec<u64> = Vec::new();
        while ist.len() < IST_ENTRIES
            invariant
                ist@.len() <= IST_ENTRIES as int,
                forall|i: int| 0 <= i < ist@.len() ==> ist@[i] == 0,
            decreases IST_ENTRIES as int - ist@.len(),
        {
            ist.push(0);
        }
        TaskStateTable { ist }
    }

    pub fn stack_top(&self, slot: usize) -> (a: u64)
        requires
            self.wf(),
            slot < IST_ENTRIES,
        ensures
            a == self@[slot as int],
    {
        self.ist[slot]
    }

    pub fn set_stack_top(&mut self, slot: usize, top: u64)
        requires
            old(self).wf(),
            slot < IST_ENTRIES,
        ensures
            final(self).wf(),
            final(self)@ == old(self)@.update(slot as int, top),
    {
        self.ist[slot] = top;
    }
}

/// A task-state block whose double-fault slot holds the top of the reserved
/// stack region beginning at `stack_start`; every other slot stays unset.
/// The stored address is the highest address of the region, since the stack
/// grows downward into it.
pub fn task_state_with_fault_stack(stack_start: u64) -> (t: TaskStateTable)
    requires
        stack_start + STACK_SIZE as int <= u64::MAX,
    ensures
        t.wf(),
        t@[DOUBLE_FAULT_IST_INDEX as int] == fault_stack_top(stack_start),
        forall|i: int|
            0 <= i < IST_ENTRIES as int && i != DOUBLE_FAULT_IST_INDEX as int ==> t@[i] == 0,
{
    let mut t = TaskStateTable::new();
    let top = stack_start + (STACK_SIZE as u64);
    t.set_stack_top(DOUBLE_FAULT_IST_INDEX as usize, top);
    t
}

/// The kinds of descriptor this table ever holds: the kernel code segment
/// and a task-state segment remembering the fault-stack top it was built
/// with.
#[derive(Debug, Clone, Copy, PartialEq, Eq, Structural)]
pub enum SegmentDescriptor {
    KernelCode,
    TaskState(u64),
}

/// Selector indices handed back at insertion time; the only valid selectors
/// for the table once it is loaded.
#[derive(Debug, Clone, Copy, PartialEq, Eq, Structural)]
pub struct Selectors {
    pub code_selector: u16,
    pub tss_selector: u16,
}

/// Global descriptor table model: an append-only sequence of descriptors.
/// Slot 0 is the hardware's mandatory null descriptor, so the first entry
/// added gets selector index 1.
pub struct DescriptorTable {
    entries: Vec<SegmentDescriptor>,
}

impl View for DescriptorTable {
    type V = Seq<SegmentDescriptor>;

    closed spec fn view(&self) -> Seq<SegmentDescriptor> {
        self.entries@
    }
}

/// One more entry than the null slot and the entries themselves can ever be:
/// enough to keep selector indices inside a `u16`.
pub const MAX_GDT_ENTRIES: usize = 8;

impl DescriptorTable {
    pub fn new() -> (t: DescriptorTable)
        ensures
            t@.len() == 0,
    {
        DescriptorTable { entries: Vec::new() }
    }

    /// Append a descriptor; the returned selector index is the only handle
    /// to it, and existing entries never move.
    pub fn add_entry(&mut self, descriptor: SegmentDescriptor) -> (selector: u16)
        requires
            old(self)@.len() < MAX_GDT_ENTRIES as int,
        ensures
            final(self)@ == old(self)@.push(descriptor),
            selector as int == old(self)@.len() + 1,
    {
        let selector = (self.entries.len() as u16) + 1;
        self.entries.push(descriptor);
        selector
    }

    pub fn len(&self) -> (n: usize)
        ensures
            n == self@.len(),
    {
        self.entries.len()
    }

    pub fn entry_at(&self, index: usize) -> (d: SegmentDescriptor)
        requires
            index < self@.len(),
        ensures
            d == self@[index as int],
    {
        self.entries[index]
    }
}

/// Build the boot descriptor table exactly as the loader needs it: the
/// kernel code segment first, then the task-state segment pointing at the
/// given fault-stack top, and the selectors returned at insertion time.
pub fn gdt_with_task_state(fault_stack_top: u64) -> (r: (DescriptorTable, Selectors))
    ensures
        r.0@ == seq![SegmentDescriptor::KernelCode, SegmentDescriptor::TaskState(fault_stack_top)],
        r.1.code_selector == 1,
        r.1.tss_selector == 2,
        r.0@[r.1.code_selector as int - 1] == SegmentDescriptor::KernelCode,
        r.0@[r.1.tss_selector as int - 1] == SegmentDescriptor::TaskState(fault_stack_top),
{
    let mut gdt = DescriptorTable::new();
    let code_selector = gdt.add_entry(SegmentDescriptor::KernelCode);
    let tss_selector = gdt.add_entry(SegmentDescriptor::TaskState(fault_stack_top));
    proof {
        assert(gdt@ =~= seq![
            SegmentDescriptor::KernelCode,
            SegmentDescriptor::TaskState(fault_stack_top),
        ]);
    }
    (gdt, Selectors { code_selector, tss_selector })
}

pub open spec fn ranges_disjoint(lo1: int, hi1: int, lo2: int, hi2: int) -> bool {
    hi1 <= lo2 || hi2 <= lo1
}

pub open spec fn addr_in_range(a: int, lo: int, hi: int) -> bool {
    lo <= a < hi
}

/// Law: with the double-fault stack top configured from a reserved region
/// that does not overlap the normal stack, every address the double-fault
/// handler's stack can use — the region below the configured top — lies
/// entirely outside the normal stack's bounds.
pub proof fn lemma_fault_stack_disjoint(stack_start: u64, normal_lo: int, normal_hi: int)
    requires
        stack_start + STACK_SIZE as int <= u64::MAX,
        ranges_disjoint(
            stack_start as int,
            stack_start as int + STACK_SIZE as int,
            normal_lo,
            normal_hi,
        ),
    ensures
        fault_stack_top(stack_start) - STACK_SIZE as int == stack_start as int,
        forall|a: int|
            #[trigger] addr_in_range(
                a,
                fault_stack_top(stack_start) - STACK_SIZE as int,
                fault_stack_top(stack_start),
            ) ==> !addr_in_range(a, normal_lo, normal_hi),
{
}

} // verus!
