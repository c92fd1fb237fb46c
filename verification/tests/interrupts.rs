use cjn_os::interrupts::keyboard::{KeyPress, KeyboardDecoder};
use cjn_os::interrupts::pics::{InterruptIndex, PIC_1_OFFSET, PIC_2_OFFSET};
use cjn_os::interrupts::{
    breakpoint_handler, double_fault_handler, init_idt, keyboard_interrupt_handler,
    time_interrupt_handler, CpuMode, HandlerKind, BREAKPOINT_VECTOR, DOUBLE_FAULT_VECTOR,
};
use cjn_os::gdt::DOUBLE_FAULT_IST_INDEX;
use cjn_os::vga_buffer::{Color, ColorCode, Writer};

fn default_writer() -> Writer {
    Writer::new(ColorCode::new(Color::LightCyan, Color::Black))
}

#[test]
fn controller_offsets_are_32_and_40() {
    assert_eq!(PIC_1_OFFSET, 32);
    assert_eq!(PIC_2_OFFSET, 40);
}

#[test]
fn device_vectors_are_32_and_33() {
    assert_eq!(InterruptIndex::Timer.as_u8(), 32);
    assert_eq!(InterruptIndex::Keyboard.as_u8(), 33);
    assert_eq!(InterruptIndex::Timer.as_usize(), 32);
    assert_eq!(InterruptIndex::Keyboard.as_usize(), 33);
}

#[test]
fn dispatch_table_binds_exactly_four_vectors() {
    let table = init_idt();
    let bp = table.handler_for(BREAKPOINT_VECTOR).unwrap();
    assert_eq!(bp.kind, HandlerKind::Breakpoint);
    assert_eq!(bp.stack_index, None);
    let df = table.handler_for(DOUBLE_FAULT_VECTOR).unwrap();
    assert_eq!(df.kind, HandlerKind::DoubleFault);
    assert_eq!(df.stack_index, Some(DOUBLE_FAULT_IST_INDEX));
    let timer = table.handler_for(32).unwrap();
    assert_eq!(timer.kind, HandlerKind::Timer);
    let keyboard = table.handler_for(33).unwrap();
    assert_eq!(keyboard.kind, HandlerKind::Keyboard);
    for v in 0..=255u8 {
        if v != 3 && v != 8 && v != 32 && v != 33 {
            assert!(table.handler_for(v).is_none());
        }
    }
}

#[test]
fn timer_handler_ticks_and_owes_one_eoi() {
    let mut w = default_writer();
    let outcome = time_interrupt_handler(&mut w);
    assert_eq!(outcome.eoi, Some(32));
    assert_eq!(outcome.next_mode, CpuMode::Normal);
    assert_eq!(w.char_at(0, 0).ascii_character, b'.');
    assert_eq!(w.column_position(), 1);
}

#[test]
fn breakpoint_handler_logs_and_resumes_without_eoi() {
    let mut w = default_writer();
    let outcome = breakpoint_handler(&mut w, "frame");
    assert_eq!(outcome.eoi, None);
    assert_eq!(outcome.next_mode, CpuMode::Normal);
    let expected = b"EXCEPTION: BREAKPOINT";
    for (i, &b) in expected.iter().enumerate() {
        assert_eq!(w.char_at(0, i).ascii_character, b);
    }
    assert_eq!(w.char_at(1, 0).ascii_character, b'f');
}

#[test]
fn double_fault_handler_halts_without_eoi() {
    let mut w = default_writer();
    let outcome = double_fault_handler(&mut w, "frame");
    assert_eq!(outcome.eoi, None);
    assert_eq!(outcome.next_mode, CpuMode::Halted);
    let expected = b"EXCEPTION: DOUBLE FAULT";
    for (i, &b) in expected.iter().enumerate() {
        assert_eq!(w.char_at(0, i).ascii_character, b);
    }
}

#[test]
fn keyboard_decoder_resolves_letter_scancode() {
    let mut decoder = KeyboardDecoder::new();
    // Scan code set 1: 0x1e is the make code of the A key.
    let key = decoder.decode(0x1e);
    assert_eq!(key, Some(KeyPress::Unicode('a')));
}

#[test]
fn keyboard_handler_renders_letter_and_owes_one_eoi() {
    let mut w = default_writer();
    let mut decoder = KeyboardDecoder::new();
    let outcome = keyboard_interrupt_handler(&mut w, &mut decoder, 0x1e);
    assert_eq!(outcome.eoi, Some(33));
    assert_eq!(outcome.next_mode, CpuMode::Normal);
    assert_eq!(w.char_at(0, 0).ascii_character, b'a');
    assert_eq!(w.column_position(), 1);
}

#[test]
fn keyboard_handler_renders_placeholder_for_named_key() {
    let mut w = default_writer();
    let mut decoder = KeyboardDecoder::new();
    // Scan code set 1: 0x3b is the make code of the F1 key, which resolves
    // to a named non-character key.
    match decoder.decode(0x3b) {
        Some(KeyPress::RawKey(_)) => {}
        other => panic!("F1 should resolve to a named key, got {:?}", other),
    }
    let mut decoder = KeyboardDecoder::new();
    let outcome = keyboard_interrupt_handler(&mut w, &mut decoder, 0x3b);
    assert_eq!(outcome.eoi, Some(33));
    let expected = b"<key>";
    for (i, &b) in expected.iter().enumerate() {
        assert_eq!(w.char_at(0, i).ascii_character, b);
    }
}

#[test]
fn keyboard_handler_owes_eoi_even_without_key_event() {
    let mut w = default_writer();
    let mut decoder = KeyboardDecoder::new();
    // A break code alone resolves to no key press; the console stays put but
    // the acknowledgment is still owed.
    let outcome = keyboard_interrupt_handler(&mut w, &mut decoder, 0x9e);
    assert_eq!(outcome.eoi, Some(33));
    assert_eq!(outcome.next_mode, CpuMode::Normal);
    assert_eq!(w.column_position(), 0);
    assert_eq!(w.char_at(0, 0).ascii_character, b' ');
}
