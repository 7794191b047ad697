use crossterm::console::Console;
use crossterm::console::FillOp;
use crossterm::console::MemoryConsole;
use crossterm::console::ScreenInfo;
use crossterm::error::Error;
use crossterm::terminal::clear;
use crossterm::terminal::disable_raw_mode;
use crossterm::terminal::enable_raw_mode;
use crossterm::terminal::is_raw_mode_enabled;
use crossterm::terminal::scroll_down;
use crossterm::terminal::scroll_up;
use crossterm::terminal::set_size;
use crossterm::terminal::set_window_title;
use crossterm::terminal::size;
use crossterm::terminal::supports_keyboard_enhancement;
use crossterm::terminal::ClearType;
use crossterm::terminal::NOT_RAW_MODE_MASK;
use crossterm::terminal::RawModeContext;

fn standard_screen() -> ScreenInfo {
    ScreenInfo {
        buffer_width: 120,
        buffer_height: 3000,
        window_left: 0,
        window_top: 0,
        window_right: 79,
        window_bottom: 24,
        cursor_x: 10,
        cursor_y: 5,
        attribute: 7,
    }
}

#[test]
fn test_resize_winapi() {
    let mut console = MemoryConsole::new(standard_screen(), 7, 500, 500);
    let (width, height) = size(&console).unwrap();

    set_size(&mut console, 30, 30).unwrap();
    assert_eq!((30, 30), size(&console).unwrap());

    // reset to previous size
    set_size(&mut console, width, height).unwrap();
    assert_eq!((width, height), size(&console).unwrap());
}

#[test]
fn test_scroll_down_winapi() {
    let mut console = MemoryConsole::new(standard_screen(), 7, 500, 500);
    let current_window = console.screen_info().unwrap();

    scroll_down(&mut console, 2).unwrap();

    let new_window = console.screen_info().unwrap();

    assert_eq!(new_window.window_top, current_window.window_top + 2);
    assert_eq!(new_window.window_bottom, current_window.window_bottom + 2);
}

#[test]
fn test_scroll_up_winapi() {
    // move the terminal buffer down before moving it up
    let mut console = MemoryConsole::new(standard_screen(), 7, 500, 500);
    scroll_down(&mut console, 2).unwrap();

    let current_window = console.screen_info().unwrap();

    scroll_up(&mut console, 2).unwrap();

    let new_window = console.screen_info().unwrap();

    assert_eq!(new_window.window_top, current_window.window_top - 2);
    assert_eq!(new_window.window_bottom, current_window.window_bottom - 2);
}

#[test]
fn test_set_title_winapi() {
    let mut console = MemoryConsole::new(standard_screen(), 7, 500, 500);
    let test_title = "this is a crossterm test title";
    set_window_title(&mut console, test_title).unwrap();

    let raw = console.title().unwrap();
    let mut length = 0;
    while length < raw.len() && length < 128 && raw[length] != 0 {
        length += 1;
    }
    assert_ne!(0, length);

    let console_title = String::from_utf16(&raw[..length]).unwrap();
    assert_eq!(test_title, &console_title[..]);
}

#[test]
fn title_round_trips_for_non_ascii_text() {
    let mut console = MemoryConsole::new(standard_screen(), 7, 500, 500);
    let test_title = "gamme \u{2713} titel \u{1D11E} \u{30BF}\u{30A4}\u{30C8}\u{30EB}";
    set_window_title(&mut console, test_title).unwrap();

    let raw = console.title().unwrap();
    // the stored units are exactly the text's UTF-16 encoding, no terminator
    let expected: Vec<u16> = test_title.encode_utf16().collect();
    assert_eq!(raw, expected);

    let console_title = String::from_utf16(&raw).unwrap();
    assert_eq!(test_title, &console_title[..]);
}

#[test]
fn clear_entire_screen_blanks_whole_buffer_and_homes_cursor() {
    let mut console = MemoryConsole::new(standard_screen(), 7, 500, 500);
    clear(&mut console, ClearType::All).unwrap();
    let cells = 120u32 * 3000u32;
    assert_eq!(
        console.fills(),
        &vec![
            FillOp::Character { x: 0, y: 0, count: cells, ch: ' ' },
            FillOp::Attribute { x: 0, y: 0, count: cells, attr: 7 },
        ]
    );
    assert_eq!(console.screen.cursor_x, 0);
    assert_eq!(console.screen.cursor_y, 0);
}

#[test]
fn clear_purge_behaves_like_clearing_everything() {
    let mut console = MemoryConsole::new(standard_screen(), 7, 500, 500);
    clear(&mut console, ClearType::Purge).unwrap();
    let cells = 120u32 * 3000u32;
    assert_eq!(
        console.fills(),
        &vec![
            FillOp::Character { x: 0, y: 0, count: cells, ch: ' ' },
            FillOp::Attribute { x: 0, y: 0, count: cells, attr: 7 },
        ]
    );
    assert_eq!((console.screen.cursor_x, console.screen.cursor_y), (0, 0));
}

#[test]
fn clear_from_cursor_down_covers_exactly_the_cursor_to_end_range() {
    let mut console = MemoryConsole::new(standard_screen(), 7, 500, 500);
    clear(&mut console, ClearType::FromCursorDown).unwrap();
    // everything from the cursor at (10, 5) to the buffer's last cell
    let cells = 120u32 * 3000u32 - (5 * 120 + 10);
    assert_eq!(
        console.fills(),
        &vec![
            FillOp::Character { x: 10, y: 5, count: cells, ch: ' ' },
            FillOp::Attribute { x: 10, y: 5, count: cells, attr: 7 },
        ]
    );
    // the cursor keeps its place
    assert_eq!((console.screen.cursor_x, console.screen.cursor_y), (10, 5));
}

#[test]
fn clear_from_cursor_up_covers_rows_above_and_the_cursor_cell() {
    let mut console = MemoryConsole::new(standard_screen(), 7, 500, 500);
    clear(&mut console, ClearType::FromCursorUp).unwrap();
    // five full rows, the cursor's row up to column ten, and the cursor cell
    let cells = 120u32 * 5 + 10 + 1;
    assert_eq!(
        console.fills(),
        &vec![
            FillOp::Character { x: 0, y: 0, count: cells, ch: ' ' },
            FillOp::Attribute { x: 0, y: 0, count: cells, attr: 7 },
        ]
    );
    assert_eq!((console.screen.cursor_x, console.screen.cursor_y), (10, 5));
}

#[test]
fn clear_current_line_blanks_the_row_and_restores_the_cursor() {
    let mut console = MemoryConsole::new(standard_screen(), 7, 500, 500);
    clear(&mut console, ClearType::CurrentLine).unwrap();
    assert_eq!(
        console.fills(),
        &vec![
            FillOp::Character { x: 0, y: 5, count: 120, ch: ' ' },
            FillOp::Attribute { x: 0, y: 5, count: 120, attr: 7 },
        ]
    );
    assert_eq!((console.screen.cursor_x, console.screen.cursor_y), (10, 5));
}

#[test]
fn clear_until_line_end_blanks_the_rest_of_the_row() {
    let mut console = MemoryConsole::new(standard_screen(), 7, 500, 500);
    clear(&mut console, ClearType::UntilNewLine).unwrap();
    assert_eq!(
        console.fills(),
        &vec![
            FillOp::Character { x: 10, y: 5, count: 110, ch: ' ' },
            FillOp::Attribute { x: 10, y: 5, count: 110, attr: 7 },
        ]
    );
    assert_eq!((console.screen.cursor_x, console.screen.cursor_y), (10, 5));
}

#[test]
fn raw_mode_round_trips_for_every_tracked_bit_combination() {
    // every combination of the three tracked bits, on top of an untracked bit
    for bits in 0u32..8 {
        let mode = 0x1F0 | bits;
        let mut console = MemoryConsole::new(standard_screen(), mode, 500, 500);
        let mut ctx = RawModeContext::new();

        enable_raw_mode(&mut ctx, &mut console).unwrap();
        assert_eq!(console.mode_bits, mode & !NOT_RAW_MODE_MASK);
        assert!(is_raw_mode_enabled(&console).unwrap());

        // disabling restores exactly the bits that enabling cleared
        disable_raw_mode(&mut ctx, &mut console).unwrap();
        assert_eq!(console.mode_bits, mode);
    }
}

#[test]
fn disabling_raw_mode_without_a_saved_state_sets_the_cooked_bits() {
    let mut console = MemoryConsole::new(standard_screen(), 0x1F0, 500, 500);
    let mut ctx = RawModeContext::new();
    disable_raw_mode(&mut ctx, &mut console).unwrap();
    assert_eq!(console.mode_bits, 0x1F0 | NOT_RAW_MODE_MASK);
    assert!(!is_raw_mode_enabled(&console).unwrap());
}

#[test]
fn resize_round_trips_from_a_small_terminal() {
    let screen = ScreenInfo {
        buffer_width: 2,
        buffer_height: 2,
        window_left: 0,
        window_top: 0,
        window_right: 1,
        window_bottom: 1,
        cursor_x: 0,
        cursor_y: 0,
        attribute: 7,
    };
    let mut console = MemoryConsole::new(screen, 7, 500, 500);
    let (width, height) = size(&console).unwrap();
    assert_eq!((width, height), (2, 2));

    set_size(&mut console, 30, 30).unwrap();
    assert_eq!((30, 30), size(&console).unwrap());

    set_size(&mut console, width, height).unwrap();
    assert_eq!((width, height), size(&console).unwrap());
    assert_eq!(console.screen, screen);
}

#[test]
fn resize_rejects_degenerate_sizes_without_touching_the_console() {
    let mut console = MemoryConsole::new(standard_screen(), 7, 500, 500);
    let before = console.screen;

    assert_eq!(set_size(&mut console, 1, 30), Err(Error::TerminalWidthTooSmall));
    assert_eq!(set_size(&mut console, 0, 30), Err(Error::TerminalWidthTooSmall));
    assert_eq!(set_size(&mut console, 30, 1), Err(Error::TerminalHeightTooSmall));
    assert_eq!(set_size(&mut console, 30, 0), Err(Error::TerminalHeightTooSmall));

    assert_eq!(console.screen, before);
    assert!(console.fills().is_empty());
}

#[test]
fn resize_rejects_sizes_beyond_the_platform_maximum() {
    let mut console = MemoryConsole::new(standard_screen(), 7, 200, 100);
    assert_eq!(set_size(&mut console, 201, 50), Err(Error::TerminalWidthTooLarge));
    assert_eq!(set_size(&mut console, 50, 101), Err(Error::TerminalHeightTooLarge));
    assert_eq!(set_size(&mut console, 50, 50), Ok(()));
    assert_eq!((50, 50), size(&console).unwrap());
}

#[test]
fn scroll_past_the_buffer_edge_is_a_no_op() {
    let mut console = MemoryConsole::new(standard_screen(), 7, 500, 500);
    let before = console.screen;

    // the window already touches the buffer top
    scroll_up(&mut console, 2).unwrap();
    assert_eq!(console.screen, before);

    // further down than the buffer is tall
    scroll_down(&mut console, 4000).unwrap();
    assert_eq!(console.screen, before);
}

#[test]
fn utf16_encoding_matches_the_standard_encoder() {
    for text in ["", "plain ascii", "gr\u{00FC}n \u{2713}", "astral \u{1D11E}\u{10348}"] {
        let expected: Vec<u16> = text.encode_utf16().collect();
        assert_eq!(crossterm::terminal::encode_utf16_units(text), expected);
    }
}

#[test]
fn keyboard_enhancement_is_never_supported_natively() {
    assert_eq!(supports_keyboard_enhancement(), Ok(false));
}
