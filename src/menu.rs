//! The main menu: a Play button and a Quit button, hovered and clicked with the mouse.

use crate::input::{coord_within, Cursor, InputEvent, MouseButton, PixelCoord};
use crate::screens::{ScreenState, Transition};
use vstd::prelude::*;

verus! {

/// Width of the window that hover detection assumes, whatever the real one is.
pub const MENU_WIDTH: i64 = 800;
/// Height of the window that hover detection assumes.
pub const MENU_HEIGHT: i64 = 600;
/// Width of a menu button.
pub const BUTTON_WIDTH: i64 = 200;
/// Height of a menu button.
pub const BUTTON_HEIGHT: i64 = 50;
/// Vertical gap between the Play and the Quit button.
pub const BUTTON_GAP: i64 = 20;

/// Left edge of the buttons: centered horizontally.
pub open spec fn button_left() -> int {
    MENU_WIDTH / 2 - BUTTON_WIDTH / 2
}

/// Top edge of the Play button: the vertical center.
pub open spec fn play_top() -> int {
    MENU_HEIGHT / 2
}

/// Top edge of the Quit button, below the Play button.
pub open spec fn quit_top() -> int {
    play_top() + BUTTON_HEIGHT + BUTTON_GAP
}

/// Whether the cursor is over the button whose top edge is `top` (edges included).
pub open spec fn over_button(c: Cursor, top: int) -> bool {
    coord_within(c.x, button_left(), button_left() + BUTTON_WIDTH) && coord_within(c.y, top, top + BUTTON_HEIGHT)
}

/// The main menu's state: the last cursor position and which button it is over.
#[derive(Clone, Copy, Debug, PartialEq, Eq, Structural)]
pub struct MainMenu {
    pub mouse_pos: Cursor,
    pub play_hover: bool,
    pub quit_hover: bool,
}

impl MainMenu {
    /// The menu after `event`: a cursor move records the position and the
    /// buttons it is over; nothing else changes the menu.
    pub open spec fn after(self, event: InputEvent) -> MainMenu {
        match event {
            InputEvent::MouseMove(c) => MainMenu {
                mouse_pos: c,
                play_hover: over_button(c, play_top()),
                quit_hover: over_button(c, quit_top()),
            },
            _ => self,
        }
    }

    /// What `event` asks for: a left click over Play goes to the game, a left
    /// click over Quit ends the program, anything else asks for nothing.
    pub open spec fn transition_for(self, event: InputEvent) -> Option<Transition> {
        match event {
            InputEvent::MousePress(MouseButton::Left) => if self.play_hover {
                Some(Transition::To(ScreenState::Game))
            } else if self.quit_hover {
                Some(Transition::Quit)
            } else {
                None
            },
            _ => None,
        }
    }

    /// The menu as it starts: cursor at the origin, no button hovered.
    pub open spec fn new_spec() -> MainMenu {
        MainMenu {
            mouse_pos: Cursor {
                x: PixelCoord { whole: 0, has_fraction: false },
                y: PixelCoord { whole: 0, has_fraction: false },
            },
            play_hover: false,
            quit_hover: false,
        }
    }

    /// A menu with the cursor at the origin and no button hovered.
    pub fn new() -> (r: MainMenu)
        ensures
            r == MainMenu::new_spec(),
    {
        let origin = PixelCoord { whole: 0, has_fraction: false };
        MainMenu { mouse_pos: Cursor { x: origin, y: origin }, play_hover: false, quit_hover: false }
    }

    /// Recomputes which button the cursor at `pos` is over, against the fixed
    /// window size of the menu.
    pub fn update_hover_states(&mut self, pos: Cursor)
        ensures
            final(self).play_hover == over_button(pos, play_top()),
            final(self).quit_hover == over_button(pos, quit_top()),
            final(self).mouse_pos == old(self).mouse_pos,
    {
        let left: i64 = MENU_WIDTH / 2 - BUTTON_WIDTH / 2;
        let play_y: i64 = MENU_HEIGHT / 2;
        self.play_hover = pos.x.within(left, left + BUTTON_WIDTH) && pos.y.within(play_y, play_y + BUTTON_HEIGHT);
        let quit_y: i64 = play_y + BUTTON_HEIGHT + BUTTON_GAP;
        self.quit_hover = pos.x.within(left, left + BUTTON_WIDTH) && pos.y.within(quit_y, quit_y + BUTTON_HEIGHT);
    }

    /// Handles a cursor move or a click as `after` and `transition_for` state.
    pub fn handle_input(&mut self, event: &InputEvent) -> (r: Option<Transition>)
        ensures
            *final(self) == old(self).after(*event),
            r == old(self).transition_for(*event),
    {
        match event {
            InputEvent::MouseMove(pos) => {
                self.mouse_pos = *pos;
                self.update_hover_states(*pos);
                None
            },
            InputEvent::MousePress(MouseButton::Left) => {
                if self.play_hover {
                    Some(Transition::To(ScreenState::Game))
                } else if self.quit_hover {
                    Some(Transition::Quit)
                } else {
                    None
                }
            },
            _ => None,
        }
    }
}

} // verus!
