//! Screen states, transitions, and the manager that dispatches to the current screen.

use crate::game::{retained, GameScreen};
use crate::input::InputEvent;
use crate::menu::MainMenu;
use vstd::prelude::*;

verus! {

/// The states a screen can be registered for.
#[derive(Clone, Copy, Debug, PartialEq, Eq, Hash, Structural)]
pub enum ScreenState {
    MainMenu,
    Game,
    Settings,
    Pause,
}

/// What a screen asks for after handling an event.
#[derive(Clone, Copy, Debug, PartialEq, Eq, Structural)]
pub enum Transition {
    /// Switch to the screen registered for the state.
    To(ScreenState),
    /// End the program.
    Quit,
}

/// A screen: one of the closed set of screens the game has.
pub enum Screen {
    MainMenu(MainMenu),
    Game(GameScreen),
}

impl Screen {
    /// A game screen keeps its invariant; a menu has none.
    pub open spec fn wf(self) -> bool {
        match self {
            Screen::MainMenu(_) => true,
            Screen::Game(g) => g.wf(),
        }
    }

    /// What a tick at `now` does: the game updates its popups; the menu does
    /// nothing. Neither asks for a transition.
    pub open spec fn ticked(old: Screen, new: Screen, now: u64, r: Option<Transition>) -> bool {
        &&& r is None
        &&& match old {
            Screen::MainMenu(_) => new == old,
            Screen::Game(g) => new matches Screen::Game(h) && h.wf() && h.popups@ == retained(g.popups@, now)
                && h.player == g.player && h.map == g.map && h.interactables == g.interactables,
        }
    }

    /// What handling `event` at `now` does, as the screen itself states.
    pub open spec fn handled(old: Screen, new: Screen, event: InputEvent, now: u64, r: Option<Transition>) -> bool {
        match old {
            Screen::MainMenu(m) => new == Screen::MainMenu(m.after(event)) && r == m.transition_for(event),
            Screen::Game(g) => new matches Screen::Game(h) && h.wf() && GameScreen::handled(g, h, event, now, r),
        }
    }

    /// A tick of the screen at `now`.
    pub fn update(&mut self, now: u64) -> (r: Option<Transition>)
        requires
            old(self).wf(),
        ensures
            Screen::ticked(*old(self), *final(self), now, r),
    {
        match self {
            Screen::MainMenu(_) => None,
            Screen::Game(g) => g.update(now),
        }
    }

    /// Hands `event` to the screen.
    pub fn handle_input(&mut self, event: &InputEvent, now: u64) -> (r: Option<Transition>)
        requires
            old(self).wf(),
        ensures
            Screen::handled(*old(self), *final(self), *event, now, r),
    {
        match self {
            Screen::MainMenu(m) => m.handle_input(event),
            Screen::Game(g) => g.handle_input(event, now),
        }
    }
}

/// An empty slot, or one whose screen keeps its invariant.
pub open spec fn slot_wf(slot: Option<Screen>) -> bool {
    slot matches Some(screen) ==> screen.wf()
}

/// Holds at most one screen per state and dispatches to the current one.
pub struct ScreenManager {
    pub main_menu_slot: Option<Screen>,
    pub game_slot: Option<Screen>,
    pub settings_slot: Option<Screen>,
    pub pause_slot: Option<Screen>,
    pub current_screen: ScreenState,
    pub previous_screen: Option<ScreenState>,
}

impl ScreenManager {
    /// The screen registered for `state`, if any.
    pub open spec fn slot(self, state: ScreenState) -> Option<Screen> {
        match state {
            ScreenState::MainMenu => self.main_menu_slot,
            ScreenState::Game => self.game_slot,
            ScreenState::Settings => self.settings_slot,
            ScreenState::Pause => self.pause_slot,
        }
    }

    /// The manager with `screen` in the slot of `state` and all else as it was.
    pub open spec fn with_slot(self, state: ScreenState, screen: Option<Screen>) -> ScreenManager {
        match state {
            ScreenState::MainMenu => ScreenManager { main_menu_slot: screen, ..self },
            ScreenState::Game => ScreenManager { game_slot: screen, ..self },
            ScreenState::Settings => ScreenManager { settings_slot: screen, ..self },
            ScreenState::Pause => ScreenManager { pause_slot: screen, ..self },
        }
    }

    /// Every registered screen keeps its invariant.
    pub open spec fn wf(self) -> bool {
        &&& slot_wf(self.main_menu_slot)
        &&& slot_wf(self.game_slot)
        &&& slot_wf(self.settings_slot)
        &&& slot_wf(self.pause_slot)
    }

    /// The manager after a request to change to `state`: done, remembering the
    /// current state as the previous one, only when a screen is registered for it.
    pub open spec fn changed_to(self, state: ScreenState) -> ScreenManager {
        if self.slot(state) is Some {
            ScreenManager { current_screen: state, previous_screen: Some(self.current_screen), ..self }
        } else {
            self
        }
    }

    /// The manager after a screen asked for `r`: a change of screen is made as
    /// `changed_to` says; a request to quit is left to the caller.
    pub open spec fn after_transition(self, r: Option<Transition>) -> ScreenManager {
        match r {
            Some(Transition::To(state)) => self.changed_to(state),
            _ => self,
        }
    }

    /// A manager with the main menu registered and current, and no previous state.
    pub fn new() -> (r: ScreenManager)
        ensures
            r.wf(),
            r.slot(ScreenState::MainMenu) == Some(Screen::MainMenu(MainMenu::new_spec())),
            r.slot(ScreenState::Game) is None,
            r.slot(ScreenState::Settings) is None,
            r.slot(ScreenState::Pause) is None,
            r.current_screen == ScreenState::MainMenu,
            r.previous_screen is None,
    {
        let mut manager = ScreenManager {
            main_menu_slot: None,
            game_slot: None,
            settings_slot: None,
            pause_slot: None,
            current_screen: ScreenState::MainMenu,
            previous_screen: None,
        };
        manager.add_screen(ScreenState::MainMenu, Screen::MainMenu(MainMenu::new()));
        manager
    }

    /// Takes the screen out of the slot of `state`, leaving it empty.
    fn take_slot(&mut self, state: ScreenState) -> (r: Option<Screen>)
        ensures
            r == old(self).slot(state),
            *final(self) == old(self).with_slot(state, None),
    {
        match state {
            ScreenState::MainMenu => self.main_menu_slot.take(),
            ScreenState::Game => self.game_slot.take(),
            ScreenState::Settings => self.settings_slot.take(),
            ScreenState::Pause => self.pause_slot.take(),
        }
    }

    /// Puts `screen` in the slot of `state`.
    fn set_slot(&mut self, state: ScreenState, screen: Option<Screen>)
        ensures
            *final(self) == old(self).with_slot(state, screen),
    {
        match state {
            ScreenState::MainMenu => self.main_menu_slot = screen,
            ScreenState::Game => self.game_slot = screen,
            ScreenState::Settings => self.settings_slot = screen,
            ScreenState::Pause => self.pause_slot = screen,
        }
    }

    /// Registers `screen` for `state`, replacing any screen registered there.
    pub fn add_screen(&mut self, state: ScreenState, screen: Screen)
        requires
            old(self).wf(),
            screen.wf(),
        ensures
            final(self).wf(),
            *final(self) == old(self).with_slot(state, Some(screen)),
    {
        self.set_slot(state, Some(screen));
    }

    /// Makes `new_state` current when a screen is registered for it, and
    /// otherwise does nothing.
    pub fn change_screen(&mut self, new_state: ScreenState)
        ensures
            *final(self) == old(self).changed_to(new_state),
    {
        let registered = match new_state {
            ScreenState::MainMenu => self.main_menu_slot.is_some(),
            ScreenState::Game => self.game_slot.is_some(),
            ScreenState::Settings => self.settings_slot.is_some(),
            ScreenState::Pause => self.pause_slot.is_some(),
        };
        if registered {
            self.previous_screen = Some(self.current_screen);
            self.current_screen = new_state;
        }
    }

    /// Goes back to the previous state, if one is recorded, and forgets it.
    pub fn return_to_previous(&mut self)
        ensures
            match old(self).previous_screen {
                Some(p) => *final(self) == (ScreenManager {
                    current_screen: p,
                    previous_screen: None,
                    ..*old(self)
                }),
                None => *final(self) == *old(self),
            },
    {
        if let Some(previous) = self.previous_screen {
            self.current_screen = previous;
            self.previous_screen = None;
        }
    }

    /// A tick: the current screen, if registered, is updated at `now`.
    pub fn update(&mut self, now: u64)
        requires
            old(self).wf(),
        ensures
            final(self).wf(),
            match old(self).slot(old(self).current_screen) {
                None => *final(self) == *old(self),
                Some(s) => exists|t: Screen|
                    #![trigger Screen::ticked(s, t, now, None)]
                    Screen::ticked(s, t, now, None) && *final(self) == old(self).with_slot(
                        old(self).current_screen,
                        Some(t),
                    ),
            },
    {
        let current = self.current_screen;
        let taken = self.take_slot(current);
        match taken {
            Some(mut screen) => {
                let r = screen.update(now);
                self.set_slot(current, Some(screen));
                if let Some(Transition::To(state)) = r {
                    self.change_screen(state);
                }
            },
            None => {
                self.set_slot(current, None);
            },
        }
    }

    /// Hands `event` to the current screen, if registered, and applies the
    /// change of screen it asks for. Returns whether it asked to quit.
    pub fn handle_input(&mut self, event: &InputEvent, now: u64) -> (quit: bool)
        requires
            old(self).wf(),
        ensures
            final(self).wf(),
            match old(self).slot(old(self).current_screen) {
                None => *final(self) == *old(self) && !quit,
                Some(s) => exists|t: Screen, r: Option<Transition>|
                    #![trigger Screen::handled(s, t, *event, now, r)]
                    Screen::handled(s, t, *event, now, r) && *final(self) == old(self).with_slot(
                        old(self).current_screen,
                        Some(t),
                    ).after_transition(r) && quit == (r == Some(Transition::Quit)),
            },
    {
        let current = self.current_screen;
        let taken = self.take_slot(current);
        match taken {
            Some(mut screen) => {
                let r = screen.handle_input(event, now);
                self.set_slot(current, Some(screen));
                match r {
                    Some(Transition::To(state)) => {
                        self.change_screen(state);
                        false
                    },
                    Some(Transition::Quit) => true,
                    None => false,
                }
            },
            None => {
                self.set_slot(current, None);
                false
            },
        }
    }
}

} // verus!
