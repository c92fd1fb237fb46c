//! The interrupt dispatch table and its handlers, modelled as a state
//! machine over the CPU's execution mode.
//!
//! The table binds each CPU vector to a handler kind exactly once; loading
//! it into the CPU happens outside this crate. Each handler is a function
//! from the interrupt's data to a `HandlerOutcome` that says what the caller
//! owes the hardware afterwards: the next execution mode, and whether (and
//! for which vector) an end-of-interrupt must be sent to the controller.

use vstd::prelude::*;
use vstd::string::StringSliceAdditionalSpecFns;

use crate::gdt::DOUBLE_FAULT_IST_INDEX;
use crate::vga_buffer::{char_render_bytes, filtered, write_bytes_spec, write_string_spec, Writer};
use pics::{InterruptIndex, PIC_1_OFFSET};

pub mod keyboard;
pub mod pics;

use keyboard::{KeyPress, KeyboardDecoder};

verus! {

/// CPU-defined vector of the breakpoint exception.
pub const BREAKPOINT_VECTOR: u8 = 3;

/// CPU-defined vector of the double-fault exception.
pub const DOUBLE_FAULT_VECTOR: u8 = 8;

/// Number of entries in the dispatch table: one per CPU vector.
pub const IDT_ENTRIES: usize = 256;

/// The handler routines this core binds.
#[derive(Debug, Clone, Copy, PartialEq, Eq, Structural)]
pub enum HandlerKind {
    Breakpoint,
    DoubleFault,
    Timer,
    Keyboard,
}

/// CPU execution mode as the dispatch state machine sees it: normal
/// execution, inside a handler of some kind, or halted for good.
#[derive(Debug, Clone, Copy, PartialEq, Eq, Structural)]
pub enum CpuMode {
    Normal,
    InHandler(HandlerKind),
    Halted,
}

/// One dispatch table entry: the bound handler and, where set, the
/// interrupt-stack-table slot the CPU switches to before entering it.
#[derive(Debug, Clone, Copy, PartialEq, Eq)]
pub struct DispatchEntry {
    pub kind: HandlerKind,
    pub stack_index: Option<u16>,
}

/// The dispatch table: one slot per CPU vector, each either unset (the
/// default trap) or bound to a handler. Populated once and never mutated
/// after it is handed out to be loaded.
pub struct DispatchTable {
    entries: Vec<Option<DispatchEntry>>,
}

impl View for DispatchTable {
    type V = Seq<Option<DispatchEntry>>;

    closed spec fn view(&self) -> Seq<Option<DispatchEntry>> {
        self.entries@
    }
}

/// The bindings the boot table must carry: breakpoint and double fault on
/// their CPU-defined vectors — the double fault on the dedicated fault
/// stack — the two device handlers on the remapped controller vectors, and
/// nothing anywhere else.
pub open spec fn boot_bindings(t: Seq<Option<DispatchEntry>>) -> bool {
    &&& t.len() == IDT_ENTRIES as int
    &&& t[BREAKPOINT_VECTOR as int] == Some(
        DispatchEntry { kind: HandlerKind::Breakpoint, stack_index: None },
    )
    &&& t[DOUBLE_FAULT_VECTOR as int] == Some(
        DispatchEntry {
            kind: HandlerKind::DoubleFault,
            stack_index: Some(DOUBLE_FAULT_IST_INDEX),
        },
    )
    &&& t[InterruptIndex::Timer.spec_vector(PIC_1_OFFSET)] == Some(
        DispatchEntry { kind: HandlerKind::Timer, stack_index: None },
    )
    &&& t[InterruptIndex::Keyboard.spec_vector(PIC_1_OFFSET)] == Some(
        DispatchEntry { kind: HandlerKind::Keyboard, stack_index: None },
    )
    &&& forall|v: int|
        0 <= v < IDT_ENTRIES as int && v != BREAKPOINT_VECTOR as int && v
            != DOUBLE_FAULT_VECTOR as int && v != InterruptIndex::Timer.spec_vector(PIC_1_OFFSET)
            && v != InterruptIndex::Keyboard.spec_vector(PIC_1_OFFSET) ==> t[v] is None
}

impl DispatchTable {
    pub open spec fn wf(self) -> bool {
        self@.len() == IDT_ENTRIES as int
    }

    /// The entry the CPU would dispatch through for a vector.
    pub fn handler_for(&self, vector: u8) -> (e: Option<DispatchEntry>)
        requires
            self.wf(),
        ensures
            e == self@[vector as int],
    {
        self.entries[vector as usize]
    }
}

/// Build the boot dispatch table: the breakpoint and double-fault exception
/// handlers on their CPU-defined slots, the double fault redirected onto the
/// dedicated fault stack, and the timer and keyboard handlers on the vectors
/// derived from the controller's base offset.
pub fn init_idt() -> (t: DispatchTable)
    ensures
        t.wf(),
        boot_bindings(t@),
{
    let mut entries: Vec<Option<DispatchEntry>> = Vec::new();
    while entries.len() < IDT_ENTRIES
        invariant
            entries@.len() <= IDT_ENTRIES as int,
            forall|v: int| 0 <= v < entries@.len() ==> entries@[v] is None,
        decreases IDT_ENTRIES as int - entries@.len(),
    {
        entries.push(None);
    }
    entries[BREAKPOINT_VECTOR as usize] = Some(
        DispatchEntry { kind: HandlerKind::Breakpoint, stack_index: None },
    );
    entries[DOUBLE_FAULT_VECTOR as usize] = Some(
        DispatchEntry { kind: HandlerKind::DoubleFault, stack_index: Some(DOUBLE_FAULT_IST_INDEX) },
    );
    entries[InterruptIndex::Timer.as_usize()] = Some(
        DispatchEntry { kind: HandlerKind::Timer, stack_index: None },
    );
    entries[InterruptIndex::Keyboard.as_usize()] = Some(
        DispatchEntry { kind: HandlerKind::Keyboard, stack_index: None },
    );
    DispatchTable { entries }
}

/// What a handler hands back to the interrupted world: the execution mode to
/// resume in, and the vector to acknowledge to the controller, if any.
#[derive(Debug, Clone, Copy, PartialEq, Eq)]
pub struct HandlerOutcome {
    pub eoi: Option<u8>,
    pub next_mode: CpuMode,
}

/// The end-of-interrupt policy: device interrupts — and only they — owe the
/// controller exactly one acknowledgment, addressed by their own vector.
/// CPU exceptions are not mediated by the controller and owe none.
pub open spec fn eoi_for(kind: HandlerKind) -> Option<u8> {
    match kind {
        HandlerKind::Timer => Some(InterruptIndex::Timer.spec_vector(PIC_1_OFFSET) as u8),
        HandlerKind::Keyboard => Some(InterruptIndex::Keyboard.spec_vector(PIC_1_OFFSET) as u8),
        HandlerKind::Breakpoint => None,
        HandlerKind::DoubleFault => None,
    }
}

/// The mode a handler leaves the CPU in: only the double fault is terminal.
pub open spec fn handler_exit_mode(kind: HandlerKind) -> CpuMode {
    match kind {
        HandlerKind::DoubleFault => CpuMode::Halted,
        _ => CpuMode::Normal,
    }
}

/// Law: an end-of-interrupt is owed exactly once per serviced timer or
/// keyboard interrupt, addressed by that device's vector, and never for the
/// breakpoint or double-fault exception handlers.
pub proof fn lemma_eoi_policy(kind: HandlerKind)
    ensures
        eoi_for(kind) is Some <==> (kind == HandlerKind::Timer || kind == HandlerKind::Keyboard),
        kind == HandlerKind::Timer ==> eoi_for(kind) == Some(32u8),
        kind == HandlerKind::Keyboard ==> eoi_for(kind) == Some(33u8),
        eoi_for(HandlerKind::Breakpoint) is None,
        eoi_for(HandlerKind::DoubleFault) is None,
{
}

/// Law: handlers always return the CPU to normal execution, except the
/// double fault, which halts it for good.
pub proof fn lemma_exit_modes()
    ensures
        handler_exit_mode(HandlerKind::Breakpoint) == CpuMode::Normal,
        handler_exit_mode(HandlerKind::Timer) == CpuMode::Normal,
        handler_exit_mode(HandlerKind::Keyboard) == CpuMode::Normal,
        handler_exit_mode(HandlerKind::DoubleFault) == CpuMode::Halted,
{
}

/// Breakpoint trap: log the captured snapshot (already rendered as text by
/// the caller) and resume where the CPU was interrupted. No end-of-interrupt:
/// the exception is CPU-internal, not controller-mediated.
pub fn breakpoint_handler(w: &mut Writer, stack_frame: &str) -> (o: HandlerOutcome)
    requires
        old(w).wf(),
    ensures
        final(w).wf(),
        final(w)@ == write_string_spec(
            write_string_spec(
                write_string_spec(old(w)@, "EXCEPTION: BREAKPOINT\n".spec_bytes()),
                stack_frame.spec_bytes(),
            ),
            "\n".spec_bytes(),
        ),
        o.eoi == eoi_for(HandlerKind::Breakpoint),
        o.next_mode == handler_exit_mode(HandlerKind::Breakpoint),
{
    w.write_string("EXCEPTION: BREAKPOINT\n");
    w.write_string(stack_frame);
    w.write_string("\n");
    HandlerOutcome { eoi: None, next_mode: CpuMode::Normal }
}

/// Double fault: log the snapshot and enter the terminal halted state. The
/// CPU enters this handler on the dedicated stack slot from the task-state
/// block, so it stays viable even when the interrupted stack is corrupt; by
/// design it never resumes, and no end-of-interrupt is owed.
pub fn double_fault_handler(w: &mut Writer, stack_frame: &str) -> (o: HandlerOutcome)
    requires
        old(w).wf(),
    ensures
        final(w).wf(),
        final(w)@ == write_string_spec(
            write_string_spec(
                write_string_spec(old(w)@, "EXCEPTION: DOUBLE FAULT\n".spec_bytes()),
                stack_frame.spec_bytes(),
            ),
            "\n".spec_bytes(),
        ),
        o.eoi == eoi_for(HandlerKind::DoubleFault),
        o.next_mode == handler_exit_mode(HandlerKind::DoubleFault),
        o.next_mode == CpuMode::Halted,
{
    w.write_string("EXCEPTION: DOUBLE FAULT\n");
    w.write_string(stack_frame);
    w.write_string("\n");
    HandlerOutcome { eoi: None, next_mode: CpuMode::Halted }
}

/// Timer tick: render one dot as the visual tick indicator and resume; the
/// caller owes the controller exactly one end-of-interrupt for the timer
/// vector.
pub fn time_interrupt_handler(w: &mut Writer) -> (o: HandlerOutcome)
    requires
        old(w).wf(),
    ensures
        final(w).wf(),
        final(w)@ == write_string_spec(old(w)@, ".".spec_bytes()),
        o.eoi == eoi_for(HandlerKind::Timer),
        o.next_mode == handler_exit_mode(HandlerKind::Timer),
{
    w.write_string(".");
    HandlerOutcome {
        eoi: Some(InterruptIndex::Timer.as_u8()),
        next_mode: CpuMode::Normal,
    }
}

/// What the console renders for a resolved key press: the character's
/// encoded bytes under the string filter for a Unicode key, and the fixed
/// placeholder text for a named non-character key.
pub open spec fn key_render_bytes(key: KeyPress) -> Seq<u8> {
    match key {
        KeyPress::Unicode(c) => char_render_bytes(c),
        KeyPress::RawKey(_) => filtered("<key>".spec_bytes()),
    }
}

/// Forward one resolved key press to the console: a printable character as
/// itself, a named non-character key as the placeholder text.
pub fn render_key(w: &mut Writer, key: KeyPress)
    requires
        old(w).wf(),
    ensures
        final(w).wf(),
        final(w)@ == write_bytes_spec(old(w)@, key_render_bytes(key)),
{
    match key {
        KeyPress::Unicode(c) => w.write_char(c),
        KeyPress::RawKey(_) => w.write_string("<key>"),
    }
}

/// Keyboard interrupt: feed the one byte read from the keyboard data port to
/// the scancode decoder and render what it resolves to, if anything; whatever
/// the decoder answered, the caller owes the controller exactly one
/// end-of-interrupt for the keyboard vector.
pub fn keyboard_interrupt_handler(
    w: &mut Writer,
    decoder: &mut KeyboardDecoder,
    scancode: u8,
) -> (o: HandlerOutcome)
    requires
        old(w).wf(),
    ensures
        final(w).wf(),
        o.eoi == eoi_for(HandlerKind::Keyboard),
        o.next_mode == handler_exit_mode(HandlerKind::Keyboard),
{
    if let Some(key) = decoder.decode(scancode) {
        render_key(w, key);
    }
    HandlerOutcome {
        eoi: Some(InterruptIndex::Keyboard.as_u8()),
        next_mode: CpuMode::Normal,
    }
}

} // verus!
