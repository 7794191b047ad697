use crossterm::console::MemoryConsole;
use crossterm::console::ScreenInfo;
use crossterm::cursor::position;
use crossterm::cursor::read_position_raw;
use crossterm::cursor::InputEvent;
use crossterm::cursor::ScriptedInput;
use crossterm::error::Error;
use crossterm::sink::BufferSink;
use crossterm::terminal::NOT_RAW_MODE_MASK;

const POSITION_QUERY: &[u8] = b"\x1B[6n";

fn cooked_console() -> MemoryConsole {
    MemoryConsole::new(
        ScreenInfo {
            buffer_width: 80,
            buffer_height: 25,
            window_left: 0,
            window_top: 0,
            window_right: 79,
            window_bottom: 24,
            cursor_x: 0,
            cursor_y: 0,
            attribute: 7,
        },
        0x1F0 | NOT_RAW_MODE_MASK,
        500,
        500,
    )
}

#[test]
fn position_returns_an_immediately_delivered_origin_report() {
    let mut console = cooked_console();
    let original_mode = console.mode_bits;
    let mut out = BufferSink::new();
    let mut input = ScriptedInput::new(vec![InputEvent::CursorPosition(0, 0)]);

    let pos = position(&mut console, &mut out, &mut input).unwrap();

    assert_eq!(pos, (0, 0));
    assert_eq!(out.data, POSITION_QUERY);
    assert_eq!(out.flush_count, 1);
    // raw mode was forced on for the query and restored afterward
    assert_eq!(console.mode_bits, original_mode);
}

#[test]
fn position_times_out_when_no_report_arrives_and_restores_raw_mode() {
    let mut console = cooked_console();
    let original_mode = console.mode_bits;
    let mut out = BufferSink::new();
    let mut input = ScriptedInput::new(vec![]);

    let error = position(&mut console, &mut out, &mut input).unwrap_err();

    assert_eq!(error, Error::CursorPositionTimeout);
    assert_eq!(console.mode_bits, original_mode);
}

#[test]
fn position_discards_events_that_are_not_position_reports() {
    let mut console = cooked_console();
    let mut out = BufferSink::new();
    let mut input = ScriptedInput::new(vec![
        InputEvent::Other,
        InputEvent::Other,
        InputEvent::CursorPosition(3, 17),
    ]);

    let pos = position(&mut console, &mut out, &mut input).unwrap();

    assert_eq!(pos, (3, 17));
    assert!(input.pending.is_empty());
}

#[test]
fn position_restores_a_partially_cooked_mode_exactly() {
    // only one of the three tracked bits set before the query
    let mut console = cooked_console();
    console.mode_bits = 0x1F0 | 0x2;
    let mut out = BufferSink::new();
    let mut input = ScriptedInput::new(vec![InputEvent::CursorPosition(8, 9)]);

    let pos = position(&mut console, &mut out, &mut input).unwrap();

    assert_eq!(pos, (8, 9));
    assert_eq!(console.mode_bits, 0x1F0 | 0x2);
}

#[test]
fn position_leaves_the_console_untouched_when_raw_mode_was_already_on() {
    let mut console = cooked_console();
    console.mode_bits = 0x1F0;
    let mut out = BufferSink::new();
    let mut input = ScriptedInput::new(vec![InputEvent::CursorPosition(5, 6)]);

    let pos = position(&mut console, &mut out, &mut input).unwrap();

    assert_eq!(pos, (5, 6));
    assert_eq!(console.mode_bits, 0x1F0);
}

#[test]
fn raw_query_sends_the_report_request_before_reading() {
    let mut out = BufferSink::new();
    let mut input = ScriptedInput::new(vec![InputEvent::CursorPosition(1, 2)]);

    let pos = read_position_raw(&mut out, &mut input).unwrap();

    assert_eq!(pos, (1, 2));
    assert_eq!(out.data, POSITION_QUERY);
    assert_eq!(out.flush_count, 1);
}

#[test]
fn raw_query_times_out_on_a_silent_channel() {
    let mut out = BufferSink::new();
    let mut input = ScriptedInput::new(vec![InputEvent::Other, InputEvent::Other]);

    let error = read_position_raw(&mut out, &mut input).unwrap_err();

    assert_eq!(error, Error::CursorPositionTimeout);
    assert!(input.pending.is_empty());
}
