//! The native console interface.
//!
//! The native control surface is an OS-owned console object reached through a
//! handle; this crate only consumes it. The [`Console`] trait states, over an
//! abstract [`ConsoleState`], what each primitive call does: every mutation
//! either takes full effect or fails leaving the state unchanged, with one
//! exception — fill requests are recorded one by one, so a sequence of fills
//! can be interrupted. [`MemoryConsole`] is an in-memory console that records
//! everything done to it; it backs the tests and never fails.

use vstd::prelude::*;

use crate::error::Error;

verus! {

/// One recorded fill request: blank a run of `count` cells starting at
/// (`x`, `y`), running left to right and wrapping to following rows.
#[derive(Clone, Copy, Debug, PartialEq, Eq, Structural)]
pub enum FillOp {
    /// The run was overwritten with the character `ch`.
    Character { x: i16, y: i16, count: u32, ch: char },
    /// The run's text attribute was set to `attr`.
    Attribute { x: i16, y: i16, count: u32, attr: u16 },
}

/// A snapshot of the screen-buffer geometry, fetched fresh before every
/// clearing, scrolling or resizing operation. All coordinates are zero-based
/// and in the native coordinate system; `buffer_width` and `buffer_height`
/// are dimensions (one-based counts), while the window fields are inclusive
/// cell indexes into the buffer.
#[derive(Clone, Copy, Debug, PartialEq, Eq, Structural)]
pub struct ScreenInfo {
    /// Number of cell columns in the screen buffer.
    pub buffer_width: i16,
    /// Number of cell rows in the screen buffer.
    pub buffer_height: i16,
    /// Leftmost buffer column shown by the visible window.
    pub window_left: i16,
    /// Topmost buffer row shown by the visible window.
    pub window_top: i16,
    /// Rightmost buffer column shown by the visible window (inclusive).
    pub window_right: i16,
    /// Bottommost buffer row shown by the visible window (inclusive).
    pub window_bottom: i16,
    /// Current cursor column.
    pub cursor_x: i16,
    /// Current cursor row.
    pub cursor_y: i16,
    /// Current text attribute.
    pub attribute: u16,
}

impl ScreenInfo {
    /// The geometry an OS console reports: nonnegative coordinates, a
    /// nonempty buffer, an ordered window, and a cursor inside the buffer
    /// (the cursor column may rest one past the last column).
    pub open spec fn wf(&self) -> bool {
        &&& 1 <= self.buffer_width
        &&& 1 <= self.buffer_height
        &&& 0 <= self.window_left <= self.window_right
        &&& 0 <= self.window_top <= self.window_bottom
        &&& 0 <= self.cursor_x <= self.buffer_width
        &&& 0 <= self.cursor_y < self.buffer_height
    }
}

/// The text a null-terminated UTF-16 buffer denotes: every code unit before
/// the first null terminator. Setting a title hands the console such a
/// buffer, and the console keeps only the text, as a title query reports it.
pub open spec fn title_text(units: Seq<u16>) -> Seq<u16>
    decreases units.len(),
{
    if units.len() == 0 {
        Seq::empty()
    } else if units[0] == 0 {
        Seq::empty()
    } else {
        seq![units[0]] + title_text(units.drop_first())
    }
}

/// On a buffer whose first `i` code units are all nonzero and whose unit `i`
/// — if there is one — is the null terminator, the denoted text is exactly
/// those first `i` units.
pub proof fn lemma_title_text_prefix(units: Seq<u16>, i: int)
    requires
        0 <= i <= units.len(),
        forall|j: int| 0 <= j < i ==> units[j] != 0,
        i == units.len() || units[i] == 0,
    ensures
        title_text(units) == units.take(i),
    decreases i,
{
    if i == 0 {
        assert(title_text(units) =~= units.take(0));
    } else {
        assert(units[0] != 0);
        lemma_title_text_prefix(units.drop_first(), i - 1);
        assert(title_text(units) =~= units.take(i));
    }
}

/// The abstract state of a console: its input mode bits, its screen-buffer
/// geometry, the largest window the platform allows, every fill request
/// recorded so far, and the window title.
pub struct ConsoleState {
    /// The console input mode bitmask.
    pub mode: u32,
    /// The screen-buffer geometry snapshot.
    pub screen: ScreenInfo,
    /// Largest window width the platform allows.
    pub max_window_width: i16,
    /// Largest window height the platform allows.
    pub max_window_height: i16,
    /// Every fill request made against this console, in order.
    pub fills: Seq<FillOp>,
    /// The window title, as UTF-16 code units.
    pub title: Seq<u16>,
}

/// The primitive operations of a native console object.
///
/// Each mutating call either succeeds with exactly the stated effect or
/// fails having changed nothing; queries do not change the state at all.
pub trait Console: Sized {
    /// The abstract state of this console.
    spec fn state(&self) -> ConsoleState;

    /// Query the current input mode bitmask.
    fn mode(&self) -> (r: Result<u32, Error>)
        ensures
            r matches Ok(m) ==> m == self.state().mode,
    ;

    /// Set the input mode bitmask.
    fn set_mode(&mut self, mode: u32) -> (r: Result<(), Error>)
        ensures
            r is Ok ==> final(self).state() == (ConsoleState { mode, ..old(self).state() }),
            r is Err ==> final(self).state() == old(self).state(),
    ;

    /// Fetch a fresh snapshot of the screen-buffer geometry.
    fn screen_info(&self) -> (r: Result<ScreenInfo, Error>)
        ensures
            r matches Ok(info) ==> info == self.state().screen,
    ;

    /// The largest window size (width, height) the platform allows.
    fn largest_window_size(&self) -> (r: Result<(i16, i16), Error>)
        ensures
            r matches Ok(s) ==> s == (
                self.state().max_window_width,
                self.state().max_window_height,
            ),
    ;

    /// Set the screen-buffer dimensions.
    fn set_buffer_size(&mut self, width: i16, height: i16) -> (r: Result<(), Error>)
        ensures
            r is Ok ==> final(self).state() == (ConsoleState {
                screen: (ScreenInfo {
                    buffer_width: width,
                    buffer_height: height,
                    ..old(self).state().screen
                }),
                ..old(self).state()
            }),
            r is Err ==> final(self).state() == old(self).state(),
    ;

    /// Set the visible window bounds, as absolute inclusive cell indexes.
    fn set_window_info(&mut self, left: i16, top: i16, right: i16, bottom: i16) -> (r: Result<
        (),
        Error,
    >)
        ensures
            r is Ok ==> final(self).state() == (ConsoleState {
                screen: (ScreenInfo {
                    window_left: left,
                    window_top: top,
                    window_right: right,
                    window_bottom: bottom,
                    ..old(self).state().screen
                }),
                ..old(self).state()
            }),
            r is Err ==> final(self).state() == old(self).state(),
    ;

    /// Move the cursor to (`x`, `y`).
    fn set_cursor_position(&mut self, x: i16, y: i16) -> (r: Result<(), Error>)
        ensures
            r is Ok ==> final(self).state() == (ConsoleState {
                screen: (ScreenInfo { cursor_x: x, cursor_y: y, ..old(self).state().screen }),
                ..old(self).state()
            }),
            r is Err ==> final(self).state() == old(self).state(),
    ;

    /// Overwrite a run of `count` cells starting at (`x`, `y`) with the
    /// character `ch`.
    fn fill_with_character(&mut self, x: i16, y: i16, count: u32, ch: char) -> (r: Result<
        (),
        Error,
    >)
        ensures
            r is Ok ==> final(self).state() == (ConsoleState {
                fills: old(self).state().fills.push(FillOp::Character { x, y, count, ch }),
                ..old(self).state()
            }),
            r is Err ==> final(self).state() == old(self).state(),
    ;

    /// Set the text attribute of a run of `count` cells starting at
    /// (`x`, `y`) to `attr`.
    fn fill_with_attribute(&mut self, x: i16, y: i16, count: u32, attr: u16) -> (r: Result<
        (),
        Error,
    >)
        ensures
            r is Ok ==> final(self).state() == (ConsoleState {
                fills: old(self).state().fills.push(FillOp::Attribute { x, y, count, attr }),
                ..old(self).state()
            }),
            r is Err ==> final(self).state() == old(self).state(),
    ;

    /// Set the window title from null-terminated UTF-16 code units: the
    /// console keeps the text before the first null terminator.
    fn set_title(&mut self, title: &Vec<u16>) -> (r: Result<(), Error>)
        ensures
            r is Ok ==> final(self).state() == (ConsoleState {
                title: title_text(title@),
                ..old(self).state()
            }),
            r is Err ==> final(self).state() == old(self).state(),
    ;

    /// Read the window title back, as its UTF-16 code units, without a
    /// terminator.
    fn title(&self) -> (r: Result<Vec<u16>, Error>)
        ensures
            r matches Ok(t) ==> t@ == self.state().title,
    ;
}

/// An in-memory console: it holds the same state a native console would and
/// records every fill request made against it. None of its operations fail.
pub struct MemoryConsole {
    /// The input mode bitmask.
    pub mode_bits: u32,
    /// The screen-buffer geometry.
    pub screen: ScreenInfo,
    /// Largest window width this console allows.
    pub max_window_width: i16,
    /// Largest window height this console allows.
    pub max_window_height: i16,
    /// Every fill request made so far, in order.
    pub fill_log: Vec<FillOp>,
    /// The window title, as UTF-16 code units.
    pub title_units: Vec<u16>,
}

impl MemoryConsole {
    /// A console with the given geometry, mode bits and window size limits,
    /// no fills recorded and an empty title.
    pub fn new(screen: ScreenInfo, mode: u32, max_window_width: i16, max_window_height: i16) -> (r:
        MemoryConsole)
        ensures
            r.state() == (ConsoleState {
                mode,
                screen,
                max_window_width,
                max_window_height,
                fills: Seq::<FillOp>::empty(),
                title: Seq::<u16>::empty(),
            }),
    {
        MemoryConsole {
            mode_bits: mode,
            screen,
            max_window_width,
            max_window_height,
            fill_log: Vec::new(),
            title_units: Vec::new(),
        }
    }

    /// The fill requests recorded so far.
    pub fn fills(&self) -> (r: &Vec<FillOp>)
        ensures
            r@ == self.state().fills,
    {
        &self.fill_log
    }
}

impl Console for MemoryConsole {
    open spec fn state(&self) -> ConsoleState {
        ConsoleState {
            mode: self.mode_bits,
            screen: self.screen,
            max_window_width: self.max_window_width,
            max_window_height: self.max_window_height,
            fills: self.fill_log@,
            title: self.title_units@,
        }
    }

    fn mode(&self) -> (r: Result<u32, Error>)
        ensures
            r is Ok,
    {
        Ok(self.mode_bits)
    }

    fn set_mode(&mut self, mode: u32) -> (r: Result<(), Error>)
        ensures
            r is Ok,
    {
        self.mode_bits = mode;
        Ok(())
    }

    fn screen_info(&self) -> (r: Result<ScreenInfo, Error>)
        ensures
            r is Ok,
    {
        Ok(self.screen)
    }

    fn largest_window_size(&self) -> (r: Result<(i16, i16), Error>)
        ensures
            r is Ok,
    {
        Ok((self.max_window_width, self.max_window_height))
    }

    fn set_buffer_size(&mut self, width: i16, height: i16) -> (r: Result<(), Error>)
        ensures
            r is Ok,
    {
        self.screen.buffer_width = width;
        self.screen.buffer_height = height;
        Ok(())
    }

    fn set_window_info(&mut self, left: i16, top: i16, right: i16, bottom: i16) -> (r: Result<
        (),
        Error,
    >)
        ensures
            r is Ok,
    {
        self.screen.window_left = left;
        self.screen.window_top = top;
        self.screen.window_right = right;
        self.screen.window_bottom = bottom;
        Ok(())
    }

    fn set_cursor_position(&mut self, x: i16, y: i16) -> (r: Result<(), Error>)
        ensures
            r is Ok,
    {
        self.screen.cursor_x = x;
        self.screen.cursor_y = y;
        Ok(())
    }

    fn fill_with_character(&mut self, x: i16, y: i16, count: u32, ch: char) -> (r: Result<
        (),
        Error,
    >)
        ensures
            r is Ok,
    {
        self.fill_log.push(FillOp::Character { x, y, count, ch });
        Ok(())
    }

    fn fill_with_attribute(&mut self, x: i16, y: i16, count: u32, attr: u16) -> (r: Result<
        (),
        Error,
    >)
        ensures
            r is Ok,
    {
        self.fill_log.push(FillOp::Attribute { x, y, count, attr });
        Ok(())
    }

    fn set_title(&mut self, title: &Vec<u16>) -> (r: Result<(), Error>)
        ensures
            r is Ok,
    {
        let mut units: Vec<u16> = Vec::new();
        let mut i: usize = 0;
        while i < title.len() && title[i] != 0
            invariant
                i <= title.len(),
                forall|j: int| 0 <= j < i ==> title@[j] != 0,
                units@ == title@.take(i as int),
            decreases title.len() - i,
        {
            units.push(title[i]);
            proof {
                assert(units@ =~= title@.take(i as int + 1));
            }
            i = i + 1;
        }
        proof {
            lemma_title_text_prefix(title@, i as int);
            assert(units@ =~= title_text(title@));
        }
        self.title_units = units;
        Ok(())
    }

    fn title(&self) -> (r: Result<Vec<u16>, Error>)
        ensures
            r is Ok,
    {
        let mut units: Vec<u16> = Vec::new();
        let mut i: usize = 0;
        while i < self.title_units.len()
            invariant
                i <= self.title_units.len(),
                units@ == self.title_units@.take(i as int),
            decreases self.title_units.len() - i,
        {
            units.push(self.title_units[i]);
            proof {
                assert(units@ =~= self.title_units@.take(i as int + 1));
            }
            i = i + 1;
        }
        proof {
            assert(units@ =~= self.title_units@);
        }
        Ok(units)
    }
}

} // verus!
