use vstd::prelude::*;

use crate::tui::{blank_grid, Tui};

verus! {

/// One terminal event, as far as a session reacts to it.
#[derive(Debug, Clone, Copy, PartialEq, Eq, Structural)]
pub enum Input {
    /// A character key.
    Char(char),
    /// The escape key.
    Esc,
    /// The terminal now has the given width and height.
    Resize(usize, usize),
    /// Anything else.
    Other,
}

/// Whether an event ends the session.
pub open spec fn quits(input: Input) -> bool {
    input == Input::Char('q') || input == Input::Esc
}

/// Reacts to one event: resizes the grid on a resize, and tells whether the session ends.
pub fn handle_input(tui: &mut Tui, input: Input) -> (quit: bool)
    ensures
        quit == quits(input),
        match input {
            Input::Resize(w, h) => final(tui)@ == blank_grid(w as nat, h as nat) && final(tui).spec_width() == w,
            _ => *final(tui) == *old(tui),
        },
{
    match input {
        Input::Char(c) => c == 'q',
        Input::Esc => true,
        Input::Resize(w, h) => {
            tui.resize(w, h);
            false
        },
        Input::Other => false,
    }
}

} // verus!
