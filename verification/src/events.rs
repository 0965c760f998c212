//! Event flags, the input field, and the keyboard decision step.
//!
//! The render loop and the input loop communicate through two small
//! pieces of state: a set of flags (pending resize, compose-message mode,
//! which screen is showing) and the text being composed.  The decision
//! step maps one keyboard event onto those states; performing the event's
//! outward effect (tearing the terminal down on quit) is the caller's
//! business.

use vstd::prelude::*;

verus! {

/// Relies on String::push: appends the given character to the end of the
/// string.
pub assume_specification[ String::push ](s: &mut String, ch: char)
    ensures
        final(s)@ == old(s)@.push(ch),
;

/// The flags the render loop polls between redraw cycles.
pub struct EventFlags {
    terminal_resized: bool,
    compiling_message: bool,
    screen: u8,  // 0 = main, 1 = help, 2 = contacts
}

impl EventFlags {
    /// Whether a terminal resize is waiting to be consumed.
    pub closed spec fn spec_resize(&self) -> bool {
        self.terminal_resized
    }

    /// Whether the compose-message field is showing.
    pub closed spec fn spec_compiling(&self) -> bool {
        self.compiling_message
    }

    /// Which screen is showing: 0 = main, 1 = help, 2 = contacts.
    pub closed spec fn spec_screen(&self) -> u8 {
        self.screen
    }

    /// Fresh flags: nothing pending, main screen showing.
    pub fn new() -> (flags: Self)
        ensures
            !flags.spec_resize(),
            !flags.spec_compiling(),
            flags.spec_screen() == 0,
    {
        EventFlags { terminal_resized: false, compiling_message: false, screen: 0 }
    }

    /// Consumes a pending terminal resize.
    pub fn reset_resize(&mut self)
        ensures
            !final(self).spec_resize(),
            final(self).spec_compiling() == old(self).spec_compiling(),
            final(self).spec_screen() == old(self).spec_screen(),
    {
        self.terminal_resized = false;
    }

    /// Records that the terminal was resized.
    pub fn set_resize(&mut self)
        ensures
            final(self).spec_resize(),
            final(self).spec_compiling() == old(self).spec_compiling(),
            final(self).spec_screen() == old(self).spec_screen(),
    {
        self.terminal_resized = true;
    }

    /// Reads the terminal-resize flag.
    pub fn get_resize(&self) -> (resized: bool)
        ensures
            resized == self.spec_resize(),
    {
        self.terminal_resized
    }

    /// Switches to the given screen from the main screen; from any other
    /// screen the request falls back to the main screen instead.
    pub fn change_screen(&mut self, screen: u8)
        ensures
            final(self).spec_screen() == (if old(self).spec_screen() > 0 {
                0u8
            } else {
                screen
            }),
            final(self).spec_resize() == old(self).spec_resize(),
            final(self).spec_compiling() == old(self).spec_compiling(),
    {
        if self.screen > 0 {
            self.screen = 0;
        } else {
            self.screen = screen;
        }
    }

    /// Reads the screen flag: 0 = main, 1 = help, 2 = contacts.
    pub fn get_screen(&self) -> (screen: u8)
        ensures
            screen == self.spec_screen(),
    {
        self.screen
    }

    /// Toggles the compose-message field and marks the terminal for a
    /// redraw.
    pub fn set_compiling_message(&mut self)
        ensures
            final(self).spec_compiling() == !old(self).spec_compiling(),
            final(self).spec_resize(),
            final(self).spec_screen() == old(self).spec_screen(),
    {
        match self.compiling_message {
            true => {
                self.compiling_message = false;
            },
            _ => {
                self.compiling_message = true;
            },
        }
        self.terminal_resized = true;
    }

    /// Reads the compose-message flag.
    pub fn get_compiling_message(&self) -> (compiling: bool)
        ensures
            compiling == self.spec_compiling(),
    {
        self.compiling_message
    }
}

/// The text being composed, with a dirty bit that says whether it changed
/// since it was last fetched.
pub struct InputStorage {
    input: String,
    changed: bool,
}

impl InputStorage {
    /// The characters typed so far.
    pub closed spec fn spec_input(&self) -> Seq<char> {
        self.input@
    }

    /// Whether the field changed since `get_input` last ran.
    pub closed spec fn spec_changed(&self) -> bool {
        self.changed
    }

    /// An empty, unchanged input field.
    pub fn new() -> (storage: Self)
        ensures
            storage.spec_input() == Seq::<char>::empty(),
            !storage.spec_changed(),
    {
        InputStorage { input: String::new(), changed: false }
    }

    /// Discards the composed text.
    pub fn reset_input(&mut self)
        ensures
            final(self).spec_input() == Seq::<char>::empty(),
            !final(self).spec_changed(),
    {
        self.input = String::new();
        self.changed = false;
    }

    /// Appends one character to the composed text.
    pub fn push_input(&mut self, input: char)
        ensures
            final(self).spec_input() == old(self).spec_input().push(input),
            final(self).spec_changed(),
    {
        self.input.push(input);
        self.changed = true;
    }

    /// Fetches the composed text and clears the dirty bit.
    pub fn get_input(&mut self) -> (input: String)
        ensures
            input@ == old(self).spec_input(),
            final(self).spec_input() == old(self).spec_input(),
            !final(self).spec_changed(),
    {
        self.changed = false;
        self.input.clone()
    }

    /// Whether the field changed since it was last fetched.
    pub fn check_input(&self) -> (changed: bool)
        ensures
            changed == self.spec_changed(),
    {
        self.changed
    }
}

/// One keyboard event, as the decision step sees it: a printable
/// character, a function key by its number, or anything else.
#[derive(Debug, PartialEq, Eq, Structural, Clone, Copy)]
pub enum KeyInput {
    Character(char),
    Function(u8),
    Other,
}

/// The screen that is showing after `key` lands while `screen` is
/// showing.  The first function key always leads to the help screen (or
/// back), the second opens the contacts from the main screen, and every
/// function key routes an out-of-range screen code back to the main
/// screen.
pub open spec fn next_screen(screen: u8, key: KeyInput) -> u8 {
    match key {
        KeyInput::Function(1u8) => if screen > 0 {
            0u8
        } else {
            1u8
        },
        KeyInput::Function(2u8) => if screen == 0 {
            2u8
        } else if screen == 1 || screen == 2 {
            screen
        } else {
            0u8
        },
        KeyInput::Function(3u8) | KeyInput::Function(4u8) | KeyInput::Function(5u8) => if screen
            <= 2 {
            screen
        } else {
            0u8
        },
        _ => screen,
    }
}

/// Whether `key` toggles the compose-message field: only the third
/// function key does, and only on the main screen.
pub open spec fn toggles_compose(screen: u8, key: KeyInput) -> bool {
    key == KeyInput::Function(3u8) && screen == 0
}

/// Whether `key` appends a character to the input field: printable
/// characters do while the compose-message field is showing.
pub open spec fn records_character(compiling: bool, key: KeyInput) -> bool {
    compiling && key matches KeyInput::Character(_)
}

/// The decision step of the input loop: applies one keyboard event to the
/// flags and the input field, and reports whether the caller should
/// restore the terminal and exit (the sixth function key).  All outward
/// effects — reading the keyboard, tearing the terminal down — stay with
/// the caller.
pub fn handle_key(flags: &mut EventFlags, input_field: &mut InputStorage, key: KeyInput) -> (quit:
    bool)
    ensures
        quit == (key == KeyInput::Function(6u8)),
        final(flags).spec_screen() == next_screen(old(flags).spec_screen(), key),
        final(flags).spec_compiling() == (if toggles_compose(old(flags).spec_screen(), key) {
            !old(flags).spec_compiling()
        } else {
            old(flags).spec_compiling()
        }),
        final(flags).spec_resize() == (old(flags).spec_resize() || toggles_compose(
            old(flags).spec_screen(),
            key,
        )),
        final(input_field).spec_input() == (match key {
            KeyInput::Character(c) => if old(flags).spec_compiling() {
                old(input_field).spec_input().push(c)
            } else {
                old(input_field).spec_input()
            },
            _ => old(input_field).spec_input(),
        }),
        final(input_field).spec_changed() == (old(input_field).spec_changed()
            || records_character(old(flags).spec_compiling(), key)),
{
    let current_screen = flags.get_screen();
    match key {
        KeyInput::Character(c) => {
            if flags.get_compiling_message() {
                input_field.push_input(c);
            }
            false
        },
        KeyInput::Function(f) => {
            if f == 1 {
                flags.change_screen(1);
                false
            } else if f == 2 {
                match current_screen {
                    0 => flags.change_screen(2),
                    1 => {},
                    2 => {},
                    _ => flags.change_screen(0),
                }
                false
            } else if f == 3 {
                match current_screen {
                    0 => flags.set_compiling_message(),
                    1 => {},
                    2 => {},
                    _ => flags.change_screen(0),
                }
                false
            } else if f == 4 || f == 5 {
                match current_screen {
                    0 => {},
                    1 => {},
                    2 => {},
                    _ => flags.change_screen(0),
                }
                false
            } else {
                f == 6
            }
        },
        KeyInput::Other => false,
    }
}

} // verus!
