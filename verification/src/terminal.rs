//! The native console subsystem: raw-mode state, screen-buffer clearing,
//! scrolling and resizing, and the window title — all expressed as direct
//! calls against a [`Console`], with the exact effect of each operation
//! stated over the console's abstract state.

use vstd::prelude::*;
use vstd::string::StrSliceExecFns;

use crate::command::Capabilities;
use crate::command::Command;
use crate::console::Console;
use crate::console::ConsoleState;
use crate::console::FillOp;
use crate::console::ScreenInfo;
use crate::console::lemma_title_text_prefix;
use crate::console::title_text;
use crate::error::Error;

verus! {

/// Line input is buffered until a carriage return.
pub const ENABLE_LINE_INPUT: u32 = 0x0002;
/// Typed characters are echoed back to the screen.
pub const ENABLE_ECHO_INPUT: u32 = 0x0004;
/// Control sequences generate signals instead of being reported as input.
pub const ENABLE_PROCESSED_INPUT: u32 = 0x0001;

/// The cooked-mode bits: the ones which can't be set in raw mode.
pub const NOT_RAW_MODE_MASK: u32 = ENABLE_LINE_INPUT | ENABLE_ECHO_INPUT | ENABLE_PROCESSED_INPUT;

/// Raw mode holds exactly when none of the cooked-mode bits is set.
pub open spec fn raw_mode_enabled_spec(mode: u32) -> bool {
    mode & NOT_RAW_MODE_MASK == 0
}

/// The mode bitmask after enabling raw mode: the cooked-mode bits cleared,
/// every other bit untouched.
pub open spec fn raw_enabled_mode(mode: u32) -> u32 {
    mode & !NOT_RAW_MODE_MASK
}

/// The mode bitmask after disabling raw mode: the cooked-mode bits that were
/// saved when raw mode was enabled put back — all three when nothing was
/// saved — every other bit untouched.
pub open spec fn raw_disabled_mode(mode: u32, saved: Option<u32>) -> u32 {
    (mode & !NOT_RAW_MODE_MASK) | (match saved {
        Some(bits) => bits & NOT_RAW_MODE_MASK,
        None => NOT_RAW_MODE_MASK,
    })
}

/// The raw-mode bookkeeping a terminal owner holds: while raw mode is
/// enabled, the cooked-mode bits that enabling cleared, so that disabling
/// restores exactly them.
pub struct RawModeContext {
    /// The cooked-mode bits saved by the last enabling, while raw mode is on.
    pub saved_bits: Option<u32>,
}

impl RawModeContext {
    /// A context with no enabling recorded.
    pub fn new() -> (r: RawModeContext)
        ensures
            r.saved_bits is None,
    {
        RawModeContext { saved_bits: None }
    }
}

/// Whether raw mode is currently enabled on the console.
pub fn is_raw_mode_enabled<C: Console>(console: &C) -> (r: Result<bool, Error>)
    ensures
        r matches Ok(b) ==> b == raw_mode_enabled_spec(console.state().mode),
{
    let mode = match console.mode() {
        Ok(m) => m,
        Err(e) => {
            return Err(e);
        },
    };
    Ok(mode & NOT_RAW_MODE_MASK == 0)
}

/// Enable raw mode: clear exactly the cooked-mode bits, leaving all other
/// mode bits untouched, and remember the cleared bits in the context so that
/// disabling restores exactly them.
pub fn enable_raw_mode<C: Console>(ctx: &mut RawModeContext, console: &mut C) -> (r: Result<
    (),
    Error,
>)
    ensures
        r is Ok ==> final(console).state() == (ConsoleState {
            mode: raw_enabled_mode(old(console).state().mode),
            ..old(console).state()
        }) && final(ctx).saved_bits == Some(old(console).state().mode & NOT_RAW_MODE_MASK),
        r is Err ==> final(console).state() == old(console).state() && final(ctx).saved_bits
            == old(ctx).saved_bits,
{
    let mode = match console.mode() {
        Ok(m) => m,
        Err(e) => {
            return Err(e);
        },
    };
    let new_mode = mode & !NOT_RAW_MODE_MASK;
    match console.set_mode(new_mode) {
        Ok(()) => {},
        Err(e) => {
            return Err(e);
        },
    }
    ctx.saved_bits = Some(mode & NOT_RAW_MODE_MASK);
    Ok(())
}

/// Disable raw mode: restore exactly the cooked-mode bits the context saved
/// when raw mode was enabled — or set all three when none were saved —
/// leaving all other mode bits untouched.
pub fn disable_raw_mode<C: Console>(ctx: &mut RawModeContext, console: &mut C) -> (r: Result<
    (),
    Error,
>)
    ensures
        r is Ok ==> final(console).state() == (ConsoleState {
            mode: raw_disabled_mode(old(console).state().mode, old(ctx).saved_bits),
            ..old(console).state()
        }) && final(ctx).saved_bits is None,
        r is Err ==> final(console).state() == old(console).state() && final(ctx).saved_bits
            == old(ctx).saved_bits,
{
    let mode = match console.mode() {
        Ok(m) => m,
        Err(e) => {
            return Err(e);
        },
    };
    let restored_bits = match ctx.saved_bits {
        Some(bits) => bits & NOT_RAW_MODE_MASK,
        None => NOT_RAW_MODE_MASK,
    };
    let new_mode = (mode & !NOT_RAW_MODE_MASK) | restored_bits;
    match console.set_mode(new_mode) {
        Ok(()) => {},
        Err(e) => {
            return Err(e);
        },
    }
    ctx.saved_bits = None;
    Ok(())
}

/// Raw-mode toggling round-trips: for every initial mode bitmask — all
/// combinations of the three cooked-mode bits included — enabling raw mode
/// and then disabling it with the saved bits restores exactly the original
/// bitmask.
pub proof fn lemma_raw_mode_round_trip(mode: u32)
    ensures
        raw_disabled_mode(raw_enabled_mode(mode), Some(mode & NOT_RAW_MODE_MASK)) == mode,
{
    assert(((mode & !(0x2u32 | 0x4 | 0x1)) & !(0x2u32 | 0x4 | 0x1)) | ((mode & (0x2u32 | 0x4
        | 0x1)) & (0x2u32 | 0x4 | 0x1)) == mode) by (bit_vector);
}

/// Raw-mode toggling never disturbs any bit outside the cooked-mode mask, in
/// either direction; enabling always ends with raw mode on, and disabling
/// ends with it off exactly when the restored bits hold a cooked-mode bit.
pub proof fn lemma_raw_mode_preserves_other_bits(mode: u32, saved: Option<u32>)
    ensures
        raw_enabled_mode(mode) & !NOT_RAW_MODE_MASK == mode & !NOT_RAW_MODE_MASK,
        raw_disabled_mode(mode, saved) & !NOT_RAW_MODE_MASK == mode & !NOT_RAW_MODE_MASK,
        raw_mode_enabled_spec(raw_enabled_mode(mode)),
        saved is None ==> !raw_mode_enabled_spec(raw_disabled_mode(mode, saved)),
        saved matches Some(bits) ==> (raw_mode_enabled_spec(raw_disabled_mode(mode, saved)) <==> (
        bits & NOT_RAW_MODE_MASK == 0)),
{
    assert((mode & !(0x2u32 | 0x4 | 0x1)) & !(0x2u32 | 0x4 | 0x1) == mode & !(0x2u32 | 0x4 | 0x1))
        by (bit_vector);
    assert((mode & !(0x2u32 | 0x4 | 0x1)) & (0x2u32 | 0x4 | 0x1) == 0) by (bit_vector);
    assert(((mode & !(0x2u32 | 0x4 | 0x1)) | (0x2u32 | 0x4 | 0x1)) & !(0x2u32 | 0x4 | 0x1) == mode
        & !(0x2u32 | 0x4 | 0x1)) by (bit_vector);
    assert(((mode & !(0x2u32 | 0x4 | 0x1)) | (0x2u32 | 0x4 | 0x1)) & (0x2u32 | 0x4 | 0x1) != 0)
        by (bit_vector);
    if let Some(bits) = saved {
        assert(((mode & !(0x2u32 | 0x4 | 0x1)) | (bits & (0x2u32 | 0x4 | 0x1))) & !(0x2u32 | 0x4
            | 0x1) == mode & !(0x2u32 | 0x4 | 0x1)) by (bit_vector);
        assert((((mode & !(0x2u32 | 0x4 | 0x1)) | (bits & (0x2u32 | 0x4 | 0x1))) & (0x2u32 | 0x4
            | 0x1) == 0) <==> (bits & (0x2u32 | 0x4 | 0x1) == 0)) by (bit_vector);
    }
}

/// The terminal size (columns, rows) of the visible window, one-based: the
/// native window extents are zero-based maximum indexes, so each dimension is
/// the extent plus one.
pub open spec fn size_spec(screen: ScreenInfo) -> (int, int) {
    (
        screen.window_right - screen.window_left + 1,
        screen.window_bottom - screen.window_top + 1,
    )
}

/// The size (columns, rows) of the visible terminal window, one-based.
pub fn size<C: Console>(console: &C) -> (r: Result<(usize, usize), Error>)
    requires
        console.state().screen.wf(),
    ensures
        r matches Ok(s) ==> s.0 == size_spec(console.state().screen).0 && s.1 == size_spec(
            console.state().screen,
        ).1,
{
    let info = match console.screen_info() {
        Ok(i) => i,
        Err(e) => {
            return Err(e);
        },
    };
    let width_extent = info.window_right - info.window_left;
    let height_extent = info.window_bottom - info.window_top;
    Ok(((width_extent as usize) + 1, (height_extent as usize) + 1))
}

/// Whether the terminal supports the keyboard enhancement protocol. On the
/// native console control surface it never does.
pub fn supports_keyboard_enhancement() -> (r: Result<bool, Error>)
    ensures
        r == Ok::<bool, Error>(false),
{
    Ok(false)
}

/// The regions a clear operation can blank.
#[derive(Clone, Copy, Debug, PartialEq, Eq, Structural)]
pub enum ClearType {
    /// Blank every cell.
    All,
    /// Blank every cell; on the native surface this behaves as `All`.
    Purge,
    /// Blank from the cursor to the end of the buffer.
    FromCursorDown,
    /// Blank from the start of the buffer up to and including the cursor.
    FromCursorUp,
    /// Blank the row the cursor is on.
    CurrentLine,
    /// Blank from the cursor to the end of its row.
    UntilNewLine,
}

/// The cell where the blanked run begins for a clear variant.
pub open spec fn clear_start(t: ClearType, s: ScreenInfo) -> (int, int) {
    match t {
        ClearType::All => (0int, 0int),
        ClearType::Purge => (0int, 0int),
        ClearType::FromCursorDown => if s.cursor_x > s.buffer_width {
            (0int, s.cursor_y + 1)
        } else {
            (s.cursor_x as int, s.cursor_y as int)
        },
        ClearType::FromCursorUp => (0int, 0int),
        ClearType::CurrentLine => (0int, s.cursor_y as int),
        ClearType::UntilNewLine => (s.cursor_x as int, s.cursor_y as int),
    }
}

/// How many cells the blanked run covers for a clear variant: for the
/// cursor-to-end variant, exactly the cells from the run's start to the end
/// of the buffer.
pub open spec fn clear_count(t: ClearType, s: ScreenInfo) -> int {
    match t {
        ClearType::All => s.buffer_width * s.buffer_height,
        ClearType::Purge => s.buffer_width * s.buffer_height,
        ClearType::FromCursorDown => s.buffer_width * s.buffer_height - (clear_start(
            ClearType::FromCursorDown,
            s,
        ).1 * s.buffer_width + clear_start(ClearType::FromCursorDown, s).0),
        ClearType::FromCursorUp => s.buffer_width * s.cursor_y + s.cursor_x + 1,
        ClearType::CurrentLine => s.buffer_width as int,
        ClearType::UntilNewLine => s.buffer_width - s.cursor_x,
    }
}

/// Where the cursor stands after a clear variant: clearing everything
/// relocates it to the origin; every other variant ends with the cursor back
/// at its original position.
pub open spec fn clear_cursor(t: ClearType, s: ScreenInfo) -> (int, int) {
    match t {
        ClearType::All => (0int, 0int),
        ClearType::Purge => (0int, 0int),
        _ => (s.cursor_x as int, s.cursor_y as int),
    }
}

/// The character-fill request a clear variant records.
pub open spec fn clear_char_fill(t: ClearType, s: ScreenInfo) -> FillOp {
    FillOp::Character {
        x: clear_start(t, s).0 as i16,
        y: clear_start(t, s).1 as i16,
        count: clear_count(t, s) as u32,
        ch: ' ',
    }
}

/// The attribute-fill request a clear variant records: the same run, carrying
/// the current text attribute.
pub open spec fn clear_attr_fill(t: ClearType, s: ScreenInfo) -> FillOp {
    FillOp::Attribute {
        x: clear_start(t, s).0 as i16,
        y: clear_start(t, s).1 as i16,
        count: clear_count(t, s) as u32,
        attr: s.attribute,
    }
}

/// The console state after a clear variant: exactly the two fill requests for
/// the analytically computed run, and the variant's cursor side effect.
pub open spec fn cleared_state(t: ClearType, c: ConsoleState) -> ConsoleState {
    ConsoleState {
        screen: (ScreenInfo {
            cursor_x: clear_cursor(t, c.screen).0 as i16,
            cursor_y: clear_cursor(t, c.screen).1 as i16,
            ..c.screen
        }),
        fills: c.fills.push(clear_char_fill(t, c.screen)).push(clear_attr_fill(t, c.screen)),
        ..c
    }
}

/// What a failed clear may have left behind: nothing, the character fill
/// alone, or both fills with the cursor side effect still missing.
pub open spec fn clear_err(t: ClearType, pre: ConsoleState, post: ConsoleState) -> bool {
    ||| post == pre
    ||| post == (ConsoleState { fills: pre.fills.push(clear_char_fill(t, pre.screen)), ..pre })
    ||| post == (ConsoleState {
        fills: pre.fills.push(clear_char_fill(t, pre.screen)).push(clear_attr_fill(t, pre.screen)),
        ..pre
    })
}

/// Record the two fill requests that blank `count` cells starting at
/// (`x`, `y`): blanks carrying the current text attribute.
fn clear_winapi<C: Console>(console: &mut C, x: i16, y: i16, count: u32, attribute: u16) -> (r:
    Result<(), Error>)
    ensures
        r is Ok ==> final(console).state() == (ConsoleState {
            fills: old(console).state().fills.push(
                FillOp::Character { x, y, count, ch: ' ' },
            ).push(FillOp::Attribute { x, y, count, attr: attribute }),
            ..old(console).state()
        }),
        r is Err ==> final(console).state() == old(console).state() || final(console).state() == (
        ConsoleState {
            fills: old(console).state().fills.push(FillOp::Character { x, y, count, ch: ' ' }),
            ..old(console).state()
        }),
{
    match console.fill_with_character(x, y, count, ' ') {
        Ok(()) => {},
        Err(e) => {
            return Err(e);
        },
    }
    console.fill_with_attribute(x, y, count, attribute)
}

/// Blank from the cursor to the end of the buffer.
fn clear_after_cursor<C: Console>(
    console: &mut C,
    location: (i16, i16),
    buffer_size: (i16, i16),
    current_attribute: u16,
) -> (r: Result<(), Error>)
    requires
        old(console).state().screen.wf(),
        location.0 == old(console).state().screen.cursor_x,
        location.1 == old(console).state().screen.cursor_y,
        buffer_size.0 == old(console).state().screen.buffer_width,
        buffer_size.1 == old(console).state().screen.buffer_height,
        current_attribute == old(console).state().screen.attribute,
    ensures
        r is Ok ==> final(console).state() == cleared_state(
            ClearType::FromCursorDown,
            old(console).state(),
        ),
        r is Err ==> clear_err(ClearType::FromCursorDown, old(console).state(), final(console).state()),
{
    let (mut x, mut y) = location;

    // if the cursor rests past the outer right position, start on the next row
    if x > buffer_size.0 {
        y = y + 1;
        x = 0;
    }
    let area = cell_area(buffer_size.0, buffer_size.1);
    proof {
        lemma_cells_before_bound(
            buffer_size.0 as int,
            buffer_size.1 as int,
            x as int,
            y as int,
        );
    }
    // every cell from the run's start to the end of the buffer
    let cells_before = (buffer_size.0 as u32) * (y as u32) + (x as u32);
    let cells_to_write = area - cells_before;
    clear_winapi(console, x, y, cells_to_write, current_attribute)
}

/// The cells before a position stay within the buffer's cell count.
proof fn lemma_cells_before_bound(w: int, h: int, x: int, y: int)
    requires
        1 <= w <= 32767,
        1 <= h <= 32767,
        0 <= x <= w,
        0 <= y < h,
    ensures
        0 <= y * w + x <= w * h,
        0 <= w * y + x <= w * h,
{
    assert(0 <= y * w + x <= w * h && 0 <= w * y + x <= w * h) by (nonlinear_arith)
        requires
            1 <= w,
            0 <= x <= w,
            0 <= y < h,
    ;
}

/// Blank from the start of the buffer up to and including the cursor.
fn clear_before_cursor<C: Console>(
    console: &mut C,
    location: (i16, i16),
    buffer_size: (i16, i16),
    current_attribute: u16,
) -> (r: Result<(), Error>)
    requires
        old(console).state().screen.wf(),
        location.0 == old(console).state().screen.cursor_x,
        location.1 == old(console).state().screen.cursor_y,
        buffer_size.0 == old(console).state().screen.buffer_width,
        buffer_size.1 == old(console).state().screen.buffer_height,
        current_attribute == old(console).state().screen.attribute,
    ensures
        r is Ok ==> final(console).state() == cleared_state(
            ClearType::FromCursorUp,
            old(console).state(),
        ),
        r is Err ==> clear_err(ClearType::FromCursorUp, old(console).state(), final(console).state()),
{
    let (xpos, ypos) = location;
    proof {
        lemma_cell_area_bound(buffer_size.0 as int, ypos as int);
    }
    // every full row above the cursor, plus the cursor's row up to and
    // including the cursor itself
    let cells_to_write = (buffer_size.0 as u32) * (ypos as u32) + (xpos as u32 + 1);
    clear_winapi(console, 0, 0, cells_to_write, current_attribute)
}

/// Blank every cell, then relocate the cursor to the origin.
fn clear_entire_screen<C: Console>(
    console: &mut C,
    buffer_size: (i16, i16),
    current_attribute: u16,
) -> (r: Result<(), Error>)
    requires
        old(console).state().screen.wf(),
        buffer_size.0 == old(console).state().screen.buffer_width,
        buffer_size.1 == old(console).state().screen.buffer_height,
        current_attribute == old(console).state().screen.attribute,
    ensures
        r is Ok ==> final(console).state() == cleared_state(ClearType::All, old(console).state()),
        r is Err ==> clear_err(ClearType::All, old(console).state(), final(console).state()),
{
    let cells_to_write = cell_area(buffer_size.0, buffer_size.1);
    match clear_winapi(console, 0, 0, cells_to_write, current_attribute) {
        Ok(()) => {},
        Err(e) => {
            return Err(e);
        },
    }
    // put the cursor back at the origin
    console.set_cursor_position(0, 0)
}

/// Blank the row the cursor is on, then put the cursor back at its original
/// position.
fn clear_current_line<C: Console>(
    console: &mut C,
    location: (i16, i16),
    buffer_size: (i16, i16),
    current_attribute: u16,
) -> (r: Result<(), Error>)
    requires
        old(console).state().screen.wf(),
        location.0 == old(console).state().screen.cursor_x,
        location.1 == old(console).state().screen.cursor_y,
        buffer_size.0 == old(console).state().screen.buffer_width,
        buffer_size.1 == old(console).state().screen.buffer_height,
        current_attribute == old(console).state().screen.attribute,
    ensures
        r is Ok ==> final(console).state() == cleared_state(
            ClearType::CurrentLine,
            old(console).state(),
        ),
        r is Err ==> clear_err(ClearType::CurrentLine, old(console).state(), final(console).state()),
{
    let cells_to_write = buffer_size.0 as u32;
    match clear_winapi(console, 0, location.1, cells_to_write, current_attribute) {
        Ok(()) => {},
        Err(e) => {
            return Err(e);
        },
    }
    // put the cursor back at its position before the clearing
    console.set_cursor_position(location.0, location.1)
}

/// Blank from the cursor to the end of its row, then physically restore the
/// cursor to where it was.
fn clear_until_line<C: Console>(
    console: &mut C,
    location: (i16, i16),
    buffer_size: (i16, i16),
    current_attribute: u16,
) -> (r: Result<(), Error>)
    requires
        old(console).state().screen.wf(),
        location.0 == old(console).state().screen.cursor_x,
        location.1 == old(console).state().screen.cursor_y,
        buffer_size.0 == old(console).state().screen.buffer_width,
        buffer_size.1 == old(console).state().screen.buffer_height,
        current_attribute == old(console).state().screen.attribute,
    ensures
        r is Ok ==> final(console).state() == cleared_state(
            ClearType::UntilNewLine,
            old(console).state(),
        ),
        r is Err ==> clear_err(ClearType::UntilNewLine, old(console).state(), final(console).state()),
{
    let (x, y) = location;
    let cells_to_write = (buffer_size.0 - x) as u32;
    match clear_winapi(console, x, y, cells_to_write, current_attribute) {
        Ok(()) => {},
        Err(e) => {
            return Err(e);
        },
    }
    // put the cursor back at its position before the clearing
    console.set_cursor_position(x, y)
}

/// Blank the region a clear variant selects, computed from a fresh snapshot
/// of the cursor position, the buffer geometry and the current attribute,
/// then apply the variant's cursor side effect.
pub fn clear<C: Console>(console: &mut C, clear_type: ClearType) -> (r: Result<(), Error>)
    requires
        old(console).state().screen.wf(),
    ensures
        r is Ok ==> final(console).state() == cleared_state(clear_type, old(console).state()),
        r is Err ==> clear_err(clear_type, old(console).state(), final(console).state()),
{
    let csbi = match console.screen_info() {
        Ok(i) => i,
        Err(e) => {
            return Err(e);
        },
    };
    let pos = (csbi.cursor_x, csbi.cursor_y);
    let buffer_size = (csbi.buffer_width, csbi.buffer_height);
    let current_attribute = csbi.attribute;

    match clear_type {
        ClearType::All => clear_entire_screen(console, buffer_size, current_attribute),
        ClearType::FromCursorDown => clear_after_cursor(console, pos, buffer_size, current_attribute),
        ClearType::FromCursorUp => clear_before_cursor(console, pos, buffer_size, current_attribute),
        ClearType::CurrentLine => clear_current_line(console, pos, buffer_size, current_attribute),
        ClearType::UntilNewLine => clear_until_line(console, pos, buffer_size, current_attribute),
        ClearType::Purge => clear_entire_screen(console, buffer_size, current_attribute),
    }
}

/// The number of cells in a `width` by `height` buffer.
fn cell_area(width: i16, height: i16) -> (r: u32)
    requires
        1 <= width,
        1 <= height,
    ensures
        r == width * height,
{
    proof {
        lemma_cell_area_bound(width as int, height as int);
    }
    (width as u32) * (height as u32)
}

/// A product of screen coordinates stays far below the fill-count range.
proof fn lemma_cell_area_bound(w: int, h: int)
    requires
        0 <= w <= 32767,
        0 <= h <= 32767,
    ensures
        w * h <= 32767 * 32767,
{
    assert(w * h <= 32767 * 32767) by (nonlinear_arith)
        requires
            0 <= w <= 32767,
            0 <= h <= 32767,
    ;
}

/// The console state after scrolling the visible window up by `count` rows:
/// both window rows move up, unless that would leave the buffer, in which
/// case nothing changes.
pub open spec fn scrolled_up_state(c: ConsoleState, count: int) -> ConsoleState {
    if c.screen.window_top >= count {
        ConsoleState {
            screen: (ScreenInfo {
                window_top: (c.screen.window_top - count) as i16,
                window_bottom: (c.screen.window_bottom - count) as i16,
                ..c.screen
            }),
            ..c
        }
    } else {
        c
    }
}

/// The console state after scrolling the visible window down by `count`
/// rows: both window rows move down, unless that would leave the buffer, in
/// which case nothing changes.
pub open spec fn scrolled_down_state(c: ConsoleState, count: int) -> ConsoleState {
    if c.screen.window_bottom < c.screen.buffer_height - count {
        ConsoleState {
            screen: (ScreenInfo {
                window_top: (c.screen.window_top + count) as i16,
                window_bottom: (c.screen.window_bottom + count) as i16,
                ..c.screen
            }),
            ..c
        }
    } else {
        c
    }
}

/// Scroll the visible window up by `row_count` rows. A scroll that would
/// move the window outside the buffer is a no-op, not an error.
pub fn scroll_up<C: Console>(console: &mut C, row_count: usize) -> (r: Result<(), Error>)
    requires
        old(console).state().screen.wf(),
    ensures
        r is Ok ==> final(console).state() == scrolled_up_state(
            old(console).state(),
            row_count as int,
        ),
        r is Err ==> final(console).state() == old(console).state(),
{
    let csbi = match console.screen_info() {
        Ok(i) => i,
        Err(e) => {
            return Err(e);
        },
    };
    if row_count > 0x7FFF {
        // no window row can lie that far down, so the scroll cannot fit
        return Ok(());
    }
    let count = row_count as i16;
    // check whether the window is too close to the screen buffer top
    if csbi.window_top >= count {
        console.set_window_info(
            csbi.window_left,
            csbi.window_top - count,
            csbi.window_right,
            csbi.window_bottom - count,
        )
    } else {
        Ok(())
    }
}

/// Scroll the visible window down by `row_count` rows. A scroll that would
/// move the window outside the buffer is a no-op, not an error.
pub fn scroll_down<C: Console>(console: &mut C, row_count: usize) -> (r: Result<(), Error>)
    requires
        old(console).state().screen.wf(),
    ensures
        r is Ok ==> final(console).state() == scrolled_down_state(
            old(console).state(),
            row_count as int,
        ),
        r is Err ==> final(console).state() == old(console).state(),
{
    let csbi = match console.screen_info() {
        Ok(i) => i,
        Err(e) => {
            return Err(e);
        },
    };
    if row_count > 0x7FFF {
        // no buffer is tall enough for the window to move that far
        return Ok(());
    }
    let count = row_count as i16;
    // check whether the window is too close to the screen buffer bottom
    if csbi.window_bottom < csbi.buffer_height - count {
        console.set_window_info(
            csbi.window_left,
            csbi.window_top + count,
            csbi.window_right,
            csbi.window_bottom + count,
        )
    } else {
        Ok(())
    }
}

/// The geometry after growing the buffer just enough for a window of
/// `width` by `height` cells at the current origin.
pub open spec fn grown_screen(s: ScreenInfo, width: int, height: int) -> ScreenInfo {
    ScreenInfo {
        buffer_width: if s.buffer_width < s.window_left + width {
            (s.window_left + width) as i16
        } else {
            s.buffer_width
        },
        buffer_height: if s.buffer_height < s.window_top + height {
            (s.window_top + height) as i16
        } else {
            s.buffer_height
        },
        ..s
    }
}

/// The geometry after the window bounds are set to `width` by `height`
/// cells, preserving the window's top-left origin.
pub open spec fn sized_window(s: ScreenInfo, width: int, height: int) -> ScreenInfo {
    ScreenInfo {
        window_right: (s.window_left + width - 1) as i16,
        window_bottom: (s.window_top + height - 1) as i16,
        ..s
    }
}

/// The console state after a resize took full effect: the window bounds are
/// set, and the buffer — grown beforehand if it was too small — is back at
/// its original dimensions.
pub open spec fn resized_state(c: ConsoleState, width: int, height: int) -> ConsoleState {
    ConsoleState { screen: sized_window(c.screen, width, height), ..c }
}

/// What a failed resize may have left behind: nothing; the grown buffer
/// (the window could not be set and the grow could not be undone); the
/// window set with the buffer still grown (the shrink back failed); or the
/// full resize effect (the size validation at the end rejected it).
pub open spec fn set_size_err(c: ConsoleState, width: int, height: int, post: ConsoleState) -> bool {
    ||| post == c
    ||| post == (ConsoleState { screen: grown_screen(c.screen, width, height), ..c })
    ||| post == (ConsoleState {
        screen: sized_window(grown_screen(c.screen, width, height), width, height),
        ..c
    })
    ||| post == resized_state(c, width, height)
}

/// Resize the visible window to `width` columns by `height` rows, one-based,
/// preserving the window's top-left origin.
///
/// If the buffer is too small for the new window it is grown first and
/// shrunk back down afterward; a requested size the platform cannot show is
/// rejected with a size-too-large error, and a width or height of zero or
/// one with a size-too-small error before anything is touched.
pub fn set_size<C: Console>(console: &mut C, width: usize, height: usize) -> (r: Result<
    (),
    Error,
>)
    requires
        old(console).state().screen.wf(),
    ensures
        width <= 1 ==> r == Err::<(), Error>(Error::TerminalWidthTooSmall)
            && final(console).state() == old(console).state(),
        width >= 2 && height <= 1 ==> r == Err::<(), Error>(Error::TerminalHeightTooSmall)
            && final(console).state() == old(console).state(),
        r is Ok ==> 2 <= width && 2 <= height
            && width as int <= old(console).state().max_window_width
            && height as int <= old(console).state().max_window_height
            && final(console).state()
            == resized_state(old(console).state(), width as int, height as int),
        r is Err ==> set_size_err(
            old(console).state(),
            width as int,
            height as int,
            final(console).state(),
        ),
        2 <= width && 2 <= height && width > 0x7FFF ==> r == Err::<(), Error>(
            Error::TerminalWidthTooLarge,
        ) && final(console).state() == old(console).state(),
        2 <= width <= 0x7FFF && 2 <= height && height > 0x7FFF ==> r == Err::<(), Error>(
            Error::TerminalHeightTooLarge,
        ) && final(console).state() == old(console).state(),
{
    if width <= 1 {
        return Err(Error::TerminalWidthTooSmall);
    }
    if height <= 1 {
        return Err(Error::TerminalHeightTooSmall);
    }
    if width > 0x7FFF {
        // the native coordinate system cannot represent such a window
        return Err(Error::TerminalWidthTooLarge);
    }
    if height > 0x7FFF {
        return Err(Error::TerminalHeightTooLarge);
    }

    // the position of the current console window
    let csbi = match console.screen_info() {
        Ok(i) => i,
        Err(e) => {
            return Err(e);
        },
    };
    let current_width = csbi.buffer_width;
    let current_height = csbi.buffer_height;

    let width_native = width as i16;
    let height_native = height as i16;

    let mut new_width = current_width;
    let mut new_height = current_height;

    // If the buffer is smaller than this new window size, resize the
    // buffer to be large enough. Include window position.
    let mut resize_buffer = false;

    if (current_width as i32) < (csbi.window_left as i32) + (width_native as i32) {
        if csbi.window_left >= 0x7FFF - width_native {
            return Err(Error::TerminalWidthTooLarge);
        }
        new_width = csbi.window_left + width_native;
        resize_buffer = true;
    }
    if (current_height as i32) < (csbi.window_top as i32) + (height_native as i32) {
        if csbi.window_top >= 0x7FFF - height_native {
            return Err(Error::TerminalHeightTooLarge);
        }
        new_height = csbi.window_top + height_native;
        resize_buffer = true;
    }

    if resize_buffer {
        match console.set_buffer_size(new_width, new_height) {
            Ok(()) => {},
            Err(e) => {
                return Err(e);
            },
        }
    }

    // preserve the position, but change the size
    match console.set_window_info(
        csbi.window_left,
        csbi.window_top,
        csbi.window_left + width_native - 1,
        csbi.window_top + height_native - 1,
    ) {
        Ok(()) => {},
        Err(e) => {
            if resize_buffer {
                // undo the grow, so that a failure leaves the geometry as it was
                match console.set_buffer_size(current_width, current_height) {
                    Ok(()) => {},
                    Err(_) => {},
                }
            }
            return Err(e);
        },
    }

    // if we resized the buffer, un-resize it
    if resize_buffer {
        match console.set_buffer_size(current_width, current_height) {
            Ok(()) => {},
            Err(e) => {
                return Err(e);
            },
        }
    }

    let bounds = match console.largest_window_size() {
        Ok(b) => b,
        Err(e) => {
            return Err(e);
        },
    };
    if width_native > bounds.0 {
        return Err(Error::TerminalWidthTooLarge);
    }
    if height_native > bounds.1 {
        return Err(Error::TerminalHeightTooLarge);
    }

    Ok(())
}

/// Resizing round-trips: resizing to 30 by 30 and then back to the original
/// window size restores the original console state exactly, for any starting
/// geometry of at least 2 by 2 whose origin leaves room for a 30-cell
/// window in the native coordinate range.
pub proof fn lemma_resize_round_trip(c: ConsoleState, width0: int, height0: int)
    requires
        c.screen.wf(),
        width0 == c.screen.window_right - c.screen.window_left + 1,
        height0 == c.screen.window_bottom - c.screen.window_top + 1,
        2 <= width0,
        2 <= height0,
        c.screen.window_left + 30 <= 32767,
        c.screen.window_top + 30 <= 32767,
    ensures
        resized_state(resized_state(c, 30, 30), width0, height0) == c,
{
    let mid = resized_state(c, 30, 30);
    assert(mid.screen.window_left == c.screen.window_left);
    assert(mid.screen.window_top == c.screen.window_top);
    assert(resized_state(mid, width0, height0).screen == c.screen);
}

/// The UTF-16 code units encoding one character: characters below the
/// astral planes are one unit, all others a high and a low surrogate.
pub open spec fn utf16_encode_char(c: char) -> Seq<u16> {
    if (c as u32) < 0x10000 {
        seq![(c as u32) as u16]
    } else {
        seq![
            (0xD800 + ((c as u32 - 0x10000) / 0x400)) as u16,
            (0xDC00 + ((c as u32 - 0x10000) % 0x400)) as u16,
        ]
    }
}

/// The UTF-16 encoding of a character sequence.
pub open spec fn utf16_encode(s: Seq<char>) -> Seq<u16>
    decreases s.len(),
{
    if s.len() == 0 {
        Seq::empty()
    } else {
        utf16_encode_char(s[0]) + utf16_encode(s.drop_first())
    }
}

/// The characters a UTF-16 code unit sequence denotes: a unit outside the
/// surrogate range stands alone, a high surrogate followed by a low one
/// forms one astral character, and an unpaired surrogate denotes nothing.
pub open spec fn utf16_decode(u: Seq<u16>) -> Seq<char>
    decreases u.len(),
{
    if u.len() == 0 {
        Seq::empty()
    } else if u[0] < 0xD800 || u[0] >= 0xE000 {
        seq![(u[0] as u32) as char] + utf16_decode(u.drop_first())
    } else if u[0] < 0xDC00 && u.len() >= 2 && 0xDC00 <= u[1] < 0xE000 {
        seq![((0x10000 + (u[0] - 0xD800) * 0x400 + (u[1] - 0xDC00)) as u32) as char]
            + utf16_decode(u.skip(2))
    } else {
        utf16_decode(u.drop_first())
    }
}

/// Encoding one more character appends that character's code units.
proof fn lemma_utf16_encode_push(s: Seq<char>, c: char)
    ensures
        utf16_encode(s.push(c)) == utf16_encode(s) + utf16_encode_char(c),
    decreases s.len(),
{
    if s.len() == 0 {
        assert(s.push(c).drop_first() =~= Seq::<char>::empty());
        assert(s.push(c)[0] == c);
        assert(utf16_encode(Seq::<char>::empty()) == Seq::<u16>::empty());
        assert(s =~= Seq::<char>::empty());
        assert(utf16_encode(s.push(c)) =~= utf16_encode(s) + utf16_encode_char(c));
    } else {
        assert(s.push(c).drop_first() =~= s.drop_first().push(c));
        assert(s.push(c)[0] == s[0]);
        lemma_utf16_encode_push(s.drop_first(), c);
        assert(utf16_encode(s.push(c)) == utf16_encode_char(s[0]) + (utf16_encode(s.drop_first())
            + utf16_encode_char(c)));
        assert(utf16_encode_char(s[0]) + (utf16_encode(s.drop_first()) + utf16_encode_char(c)) =~= (
        utf16_encode_char(s[0]) + utf16_encode(s.drop_first())) + utf16_encode_char(c));
        assert(utf16_encode(s.push(c)) =~= utf16_encode(s) + utf16_encode_char(c));
    }
}

/// The UTF-16 code units of `s`, in order.
pub fn encode_utf16_units(s: &str) -> (r: Vec<u16>)
    ensures
        r@ == utf16_encode(s@),
{
    let len = s.unicode_len();
    let mut units: Vec<u16> = Vec::new();
    let mut i: usize = 0;
    while i < len
        invariant
            i <= len,
            len == s@.len(),
            units@ == utf16_encode(s@.take(i as int)),
        decreases len - i,
    {
        let c = s.get_char(i);
        proof {
            assert(s@.take(i as int + 1) =~= s@.take(i as int).push(s@[i as int]));
            lemma_utf16_encode_push(s@.take(i as int), s@[i as int]);
        }
        let code = c as u32;
        if code < 0x10000 {
            units.push(code as u16);
            proof {
                assert(units@ =~= utf16_encode(s@.take(i as int + 1)));
            }
        } else {
            let offset = code - 0x10000;
            proof {
                vstd::utf8::char_is_scalar(c);
                assert(vstd::utf8::is_scalar(code));
                vstd::arithmetic::div_mod::lemma_fundamental_div_mod(offset as int, 0x400);
                vstd::arithmetic::div_mod::lemma_mod_bound(offset as int, 0x400);
                assert(0 <= offset as int / 0x400 < 0x400);
            }
            units.push(0xD800 + (offset / 0x400) as u16);
            units.push(0xDC00 + (offset % 0x400) as u16);
            proof {
                assert(units@ =~= utf16_encode(s@.take(i as int + 1)));
            }
        }
        i = i + 1;
    }
    proof {
        assert(s@.take(len as int) =~= s@);
    }
    units
}

/// Set the window title: the title's UTF-16 code units, null-terminated,
/// handed to the native title call, of which the console keeps the text
/// before the first null terminator.
pub fn set_window_title<C: Console>(console: &mut C, title: &str) -> (r: Result<(), Error>)
    ensures
        r is Ok ==> final(console).state() == (ConsoleState {
            title: title_text(utf16_encode(title@).push(0)),
            ..old(console).state()
        }),
        r is Err ==> final(console).state() == old(console).state(),
{
    let mut title_utf16 = encode_utf16_units(title);
    title_utf16.push(0);
    console.set_title(&title_utf16)
}

/// The ANSI bytes that begin a synchronized update: the private-mode set
/// sequence for the synchronized-output extension.
pub open spec fn begin_sync_ansi() -> Seq<u8> {
    seq![0x1Bu8, 0x5Bu8, 0x3Fu8, 0x32u8, 0x30u8, 0x32u8, 0x36u8, 0x68u8]
}

/// The ANSI bytes that end a synchronized update: the matching private-mode
/// reset sequence.
pub open spec fn end_sync_ansi() -> Seq<u8> {
    seq![0x1Bu8, 0x5Bu8, 0x3Fu8, 0x32u8, 0x30u8, 0x32u8, 0x36u8, 0x6Cu8]
}

/// A command that instructs the terminal to suspend rendering until the
/// matching [`EndSynchronizedUpdate`] arrives.
///
/// This capability has no native equivalent: it is ANSI-only, and on a
/// terminal that does not honor ANSI sequences it silently does nothing —
/// a graceful no-op on a legacy surface, not a failure.
pub struct BeginSynchronizedUpdate;

impl Command for BeginSynchronizedUpdate {
    open spec fn ansi(&self) -> Seq<u8> {
        begin_sync_ansi()
    }

    open spec fn ansi_viable(&self, ansi_supported: bool) -> bool {
        ansi_supported
    }

    open spec fn native_req(&self, pre: ConsoleState) -> bool {
        true
    }

    open spec fn native_ok(&self, pre: ConsoleState, post: ConsoleState) -> bool {
        post == pre
    }

    open spec fn native_err(&self, pre: ConsoleState, post: ConsoleState) -> bool {
        false
    }

    fn write_ansi(&self, f: &mut Vec<u8>) {
        f.push(0x1B);
        f.push(0x5B);
        f.push(0x3F);
        f.push(0x32);
        f.push(0x30);
        f.push(0x32);
        f.push(0x36);
        f.push(0x68);
        proof {
            assert(f@ =~= old(f)@ + begin_sync_ansi());
        }
    }

    fn execute_winapi<C: Console>(&self, console: &mut C) -> (r: Result<(), Error>) {
        Ok(())
    }

    fn is_ansi_code_supported(&self, caps: &Capabilities) -> (r: bool) {
        caps.ansi_supported
    }
}

/// A command that instructs the terminal to resume rendering, delivering
/// everything drawn since the matching [`BeginSynchronizedUpdate`] at once.
///
/// Like its counterpart this is ANSI-only and silently does nothing on a
/// terminal that does not honor ANSI sequences.
pub struct EndSynchronizedUpdate;

impl Command for EndSynchronizedUpdate {
    open spec fn ansi(&self) -> Seq<u8> {
        end_sync_ansi()
    }

    open spec fn ansi_viable(&self, ansi_supported: bool) -> bool {
        ansi_supported
    }

    open spec fn native_req(&self, pre: ConsoleState) -> bool {
        true
    }

    open spec fn native_ok(&self, pre: ConsoleState, post: ConsoleState) -> bool {
        post == pre
    }

    open spec fn native_err(&self, pre: ConsoleState, post: ConsoleState) -> bool {
        false
    }

    fn write_ansi(&self, f: &mut Vec<u8>) {
        f.push(0x1B);
        f.push(0x5B);
        f.push(0x3F);
        f.push(0x32);
        f.push(0x30);
        f.push(0x32);
        f.push(0x36);
        f.push(0x6C);
        proof {
            assert(f@ =~= old(f)@ + end_sync_ansi());
        }
    }

    fn execute_winapi<C: Console>(&self, console: &mut C) -> (r: Result<(), Error>) {
        Ok(())
    }

    fn is_ansi_code_supported(&self, caps: &Capabilities) -> (r: bool) {
        caps.ansi_supported
    }
}

/// No code unit of the encoding of a text without the null character is
/// zero: a plane-zero character encodes as its own nonzero value, and
/// surrogates are never zero.
proof fn lemma_utf16_encode_no_nul(s: Seq<char>)
    requires
        forall|i: int| 0 <= i < s.len() ==> s[i] != '\0',
    ensures
        forall|i: int| 0 <= i < utf16_encode(s).len() ==> #[trigger] utf16_encode(s)[i] != 0,
    decreases s.len(),
{
    if s.len() > 0 {
        let c = s[0];
        vstd::utf8::char_is_scalar(c);
        let cu = c as u32;
        if cu == 0 {
            vstd::utf8::char_u32_cast(c, cu);
            vstd::utf8::char_u32_cast('\0', 0u32);
            assert(false);
        }
        let head = utf16_encode_char(c);
        if cu >= 0x10000 {
            let v = cu as int - 0x10000;
            vstd::arithmetic::div_mod::lemma_fundamental_div_mod(v, 0x400);
            vstd::arithmetic::div_mod::lemma_mod_bound(v, 0x400);
            assert(0 <= v / 0x400 < 0x400);
            assert(head[0] != 0 && head[1] != 0);
        } else {
            assert(head[0] == cu as u16);
            assert(head[0] != 0);
        }
        lemma_utf16_encode_no_nul(s.drop_first());
        assert forall|i: int| 0 <= i < utf16_encode(s).len() implies #[trigger] utf16_encode(s)[i]
            != 0 by {
            if i < head.len() {
                assert(utf16_encode(s)[i] == head[i]);
            } else {
                assert(utf16_encode(s)[i] == utf16_encode(s.drop_first())[i - head.len()]);
            }
        }
    }
}

/// The title round trip is lossless for every title without the null
/// character: the console keeps exactly the title's UTF-16 code units —
/// the null-terminated buffer cut at its terminator — and decoding the
/// read-back yields the title identically. A title that itself contains the
/// null character is cut short at it by the null-terminated native call, so
/// such titles are left out here.
pub proof fn lemma_title_round_trip(s: Seq<char>)
    requires
        forall|i: int| 0 <= i < s.len() ==> s[i] != '\0',
    ensures
        title_text(utf16_encode(s).push(0)) == utf16_encode(s),
        utf16_decode(title_text(utf16_encode(s).push(0))) == s,
{
    lemma_utf16_encode_no_nul(s);
    let u = utf16_encode(s);
    assert forall|j: int| 0 <= j < u.len() implies u.push(0)[j] != 0 by {
        assert(u.push(0)[j] == u[j]);
    }
    lemma_title_text_prefix(u.push(0), u.len() as int);
    assert(u.push(0).take(u.len() as int) =~= u);
    lemma_utf16_round_trip(s);
}

/// The UTF-16 round trip is lossless: decoding the encoding of any character
/// sequence yields that sequence again, so a title read back from the
/// console denotes exactly the text that was set.
pub proof fn lemma_utf16_round_trip(s: Seq<char>)
    ensures
        utf16_decode(utf16_encode(s)) == s,
    decreases s.len(),
{
    if s.len() == 0 {
        assert(utf16_decode(utf16_encode(s)) =~= s);
    } else {
        let c = s[0];
        vstd::utf8::char_is_scalar(c);
        let cu = c as u32;
        assert(vstd::utf8::is_scalar(cu));
        let rest = s.drop_first();
        lemma_utf16_round_trip(rest);
        let e = utf16_encode(s);
        if cu < 0x10000 {
            assert(e[0] == cu as u16);
            assert(e[0] as u32 == cu);
            assert(e.drop_first() =~= utf16_encode(rest));
            vstd::utf8::char_u32_cast(c, e[0] as u32);
            assert((e[0] as u32) as char == c);
            assert(utf16_decode(e) =~= seq![c] + utf16_decode(utf16_encode(rest)));
            assert(seq![c] + rest =~= s);
        } else {
            let v = cu as int - 0x10000;
            vstd::arithmetic::div_mod::lemma_fundamental_div_mod(v, 0x400);
            vstd::arithmetic::div_mod::lemma_mod_bound(v, 0x400);
            assert(0x400 * (v / 0x400) == v - v % 0x400);
            assert(0 <= v / 0x400 < 0x400);
            let u0 = e[0];
            let u1 = e[1];
            assert(u0 == (0xD800 + v / 0x400) as u16);
            assert(u1 == (0xDC00 + v % 0x400) as u16);
            assert(0xD800 <= u0 < 0xDC00);
            assert(0xDC00 <= u1 < 0xE000);
            let w = 0x10000 + (u0 - 0xD800) * 0x400 + (u1 - 0xDC00);
            assert(w == cu as int);
            vstd::utf8::char_u32_cast(c, w as u32);
            assert((w as u32) as char == c);
            assert(e.skip(2) =~= utf16_encode(rest));
            assert(utf16_decode(e) =~= seq![c] + utf16_decode(utf16_encode(rest)));
            assert(seq![c] + rest =~= s);
        }
    }
}

} // verus!
