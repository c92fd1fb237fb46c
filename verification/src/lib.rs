//! Boot-time hardware-isolation core of a minimal bare-metal kernel.
//!
//! The crate holds the logic of three coupled subsystems that must agree on
//! shared numeric contracts: segment/task-state setup with a dedicated fault
//! stack (`gdt`), the interrupt dispatch table, its device handlers and the
//! chained controller's vector numbering (`interrupts`), and the frame-buffer
//! text writer (`vga_buffer`). Everything that touches hardware directly
//! (register loads, port reads and writes, the memory-mapped frame buffer)
//! lives outside this crate; callers hand the results of those accesses in as
//! plain values and carry the decisions made here back out.

use vstd::prelude::*;

pub mod gdt;
pub mod interrupts;
pub mod vga_buffer;

verus! {

/// The stages of the one-time process-wide bring-up, in the order they must
/// be passed: load the segment table, load the dispatch table, remap the
/// interrupt controller pair, and only then enable hardware interrupts.
#[derive(Debug, Clone, Copy, PartialEq, Eq, Structural)]
pub enum BootStage {
    Start,
    SegmentsLoaded,
    DispatchLoaded,
    ControllersReady,
    InterruptsEnabled,
}

/// One-time initialization sequencer.
///
/// The caller performs each hardware step (load the segment table, load the
/// dispatch table, remap the controllers, enable interrupts) and records it
/// here; the preconditions force the strict order, since enabling interrupts
/// before the table and the controllers are ready would dispatch hardware
/// signals to an unprogrammed vector range.
pub struct InitSequencer {
    stage: BootStage,
}

impl InitSequencer {
    pub closed spec fn stage_spec(self) -> BootStage {
        self.stage
    }

    /// True once every bring-up step has been recorded, so hardware
    /// interrupts may be taken.
    pub open spec fn interrupts_allowed(self) -> bool {
        self.stage_spec() == BootStage::InterruptsEnabled
    }

    pub fn new() -> (s: InitSequencer)
        ensures
            s.stage_spec() == BootStage::Start,
    {
        InitSequencer { stage: BootStage::Start }
    }

    pub fn stage(&self) -> (b: BootStage)
        ensures
            b == self.stage_spec(),
    {
        self.stage
    }

    /// Record that the segment table and task-state block were built and
    /// loaded into the CPU.
    pub fn segments_loaded(&mut self)
        requires
            old(self).stage_spec() == BootStage::Start,
        ensures
            final(self).stage_spec() == BootStage::SegmentsLoaded,
    {
        self.stage = BootStage::SegmentsLoaded;
    }

    /// Record that the interrupt dispatch table was built and loaded.
    pub fn dispatch_loaded(&mut self)
        requires
            old(self).stage_spec() == BootStage::SegmentsLoaded,
        ensures
            final(self).stage_spec() == BootStage::DispatchLoaded,
    {
        self.stage = BootStage::DispatchLoaded;
    }

    /// Record that both controllers were remapped to their vector offsets.
    pub fn controllers_ready(&mut self)
        requires
            old(self).stage_spec() == BootStage::DispatchLoaded,
        ensures
            final(self).stage_spec() == BootStage::ControllersReady,
    {
        self.stage = BootStage::ControllersReady;
    }

    /// Record that hardware interrupts were enabled; legal only once the
    /// dispatch table and the controllers are in place.
    pub fn interrupts_enabled(&mut self)
        requires
            old(self).stage_spec() == BootStage::ControllersReady,
        ensures
            final(self).stage_spec() == BootStage::InterruptsEnabled,
            final(self).interrupts_allowed(),
    {
        self.stage = BootStage::InterruptsEnabled;
    }
}

} // verus!
