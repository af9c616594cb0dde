//! The game screen: a player walking on a generated map, portals that lead to
//! a new map, and the popups that report what happened.

use crate::input::{InputEvent, Key};
use crate::map::{
    cell, col_of, generate_interactables, generate_map, in_grid, is_at, is_drawn_portal_set,
    is_generated_map, is_generated_portal_set, is_scattered_map, map_wf, position_of, row_of,
    InteractablePoint, GRID_MAX, GRID_MIN, MAP_HEIGHT, MAP_WIDTH,
};
use crate::popup::Popup;
use crate::screens::{ScreenState, Transition};
use vstd::prelude::*;

verus! {

/// How long the game's popups stay on screen, in milliseconds.
pub const POPUP_DURATION_MS: u64 = 2000;

/// The way the player faces.
#[derive(Clone, Copy, Debug, PartialEq, Eq, Structural)]
pub enum Direction {
    Up,
    Down,
    Left,
    Right,
}

/// The label shown for a facing.
pub open spec fn facing_label(d: Direction) -> Seq<char> {
    match d {
        Direction::Up => "FACING: UP"@,
        Direction::Down => "FACING: DOWN"@,
        Direction::Left => "FACING: LEFT"@,
        Direction::Right => "FACING: RIGHT"@,
    }
}

/// The grid step one takes facing `d`; up is increasing `y`.
pub open spec fn step_of(d: Direction) -> (int, int) {
    match d {
        Direction::Up => (0, 1),
        Direction::Down => (0, -1),
        Direction::Left => (-1, 0),
        Direction::Right => (1, 0),
    }
}

impl Direction {
    /// The label shown for this facing.
    pub fn to_string(&self) -> (r: &'static str)
        ensures
            r@ == facing_label(*self),
    {
        match self {
            Direction::Up => "FACING: UP",
            Direction::Down => "FACING: DOWN",
            Direction::Left => "FACING: LEFT",
            Direction::Right => "FACING: RIGHT",
        }
    }

    /// The grid step one takes facing this way.
    pub fn step(&self) -> (r: (i32, i32))
        ensures
            r.0 as int == step_of(*self).0,
            r.1 as int == step_of(*self).1,
    {
        match self {
            Direction::Up => (0, 1),
            Direction::Down => (0, -1),
            Direction::Left => (-1, 0),
            Direction::Right => (1, 0),
        }
    }
}

/// A point on the grid; the player is the movable one and has a facing.
#[derive(Clone, Copy, Debug, PartialEq, Eq, Structural)]
pub struct Point {
    pub x: i32,
    pub y: i32,
    pub movable: bool,
    pub facing: Option<Direction>,
}

/// The facing after an attempt to move by `(dx, dy)`: the direction of the step
/// when it is one of the four unit steps, else the current facing (right if none).
pub open spec fn facing_for(dx: int, dy: int, current: Option<Direction>) -> Direction {
    if dx == 0 && dy == 1 {
        Direction::Up
    } else if dx == 0 && dy == -1 {
        Direction::Down
    } else if dx == -1 && dy == 0 {
        Direction::Left
    } else if dx == 1 && dy == 0 {
        Direction::Right
    } else {
        match current {
            Some(d) => d,
            None => Direction::Right,
        }
    }
}

/// Whether `(x, y)` counts as an obstacle on map `m`: it has no cell, or its cell holds 1.
pub open spec fn obstacle_at(m: Seq<Vec<u8>>, x: int, y: int) -> bool {
    !(0 <= col_of(x) < MAP_WIDTH && 0 <= row_of(y) < MAP_HEIGHT) || cell(m, x, y) == 1
}

/// `new` is `old` with one more popup at the end: an active text box showing
/// `text` for the game's popup duration from `now`.
pub open spec fn pushed_notice(old: Seq<Popup>, new: Seq<Popup>, text: Seq<char>, now: u64) -> bool {
    &&& new.len() == old.len() + 1
    &&& new.drop_last() == old
    &&& new.last().is_fresh_text_box(text, POPUP_DURATION_MS, now)
}

/// The popups kept by an update at `now`: each is updated, and those no longer
/// active are dropped, in order.
pub open spec fn retained(s: Seq<Popup>, now: u64) -> Seq<Popup>
    decreases s.len(),
{
    if s.len() == 0 {
        Seq::empty()
    } else {
        let kept = retained(s.drop_last(), now);
        let p = s.last().updated(now);
        if p.active {
            kept.push(p)
        } else {
            kept
        }
    }
}

/// The game screen.
pub struct GameScreen {
    pub player: Point,
    pub map: Vec<Vec<u8>>,
    pub popups: Vec<Popup>,
    pub interactables: Vec<InteractablePoint>,
}

impl GameScreen {
    /// The screen's invariant: the map and its portals are as generation leaves
    /// them, and the movable player stands on the grid.
    pub open spec fn wf(self) -> bool {
        &&& is_generated_map(self.map@)
        &&& is_generated_portal_set(self.map@, self.interactables@)
        &&& in_grid(self.player.x as int, self.player.y as int)
        &&& self.player.movable
    }

    /// The cell in front of the player (facing right when it has no facing).
    pub open spec fn ahead(self) -> (int, int) {
        let d = match self.player.facing {
            Some(d) => d,
            None => Direction::Right,
        };
        (self.player.x + step_of(d).0, self.player.y + step_of(d).1)
    }

    /// Whether a move by `(dx, dy)` is refused: the target is off the grid or an obstacle.
    pub open spec fn move_blocked(self, dx: int, dy: int) -> bool {
        let nx = self.player.x + dx;
        let ny = self.player.y + dy;
        !in_grid(nx, ny) || obstacle_at(self.map@, nx, ny)
    }

    /// What an attempt to move by `(dx, dy)` at `now` does: the facing follows the
    /// attempt; a refused move leaves the position and adds a boundary notice; an
    /// accepted one moves the player and adds nothing.
    pub open spec fn moved(old: GameScreen, new: GameScreen, dx: int, dy: int, now: u64) -> bool {
        &&& new.player.facing == Some(facing_for(dx, dy, old.player.facing))
        &&& new.player.movable == old.player.movable
        &&& new.map == old.map
        &&& new.interactables == old.interactables
        &&& if old.move_blocked(dx, dy) {
            &&& new.player.x == old.player.x
            &&& new.player.y == old.player.y
            &&& pushed_notice(old.popups@, new.popups@, "Boundary in the way"@, now)
        } else {
            &&& new.player.x == old.player.x + dx
            &&& new.player.y == old.player.y + dy
            &&& new.popups == old.popups
        }
    }

    /// Where the player lands after passing through portal `p`.
    pub open spec fn arrived_through(self, p: InteractablePoint) -> bool {
        match p.destination_position {
            Some(d) => self.player.x == d.0 && self.player.y == d.1,
            None => self.player.x == 0 && self.player.y == 0,
        }
    }

    /// What an interaction at `now` does. Facing a portal: a new map and new
    /// portals are generated, the player lands at the portal's destination facing
    /// right, and the popups are replaced by one arrival notice. Facing nothing:
    /// only a notice saying so is added.
    pub open spec fn interacted(old: GameScreen, new: GameScreen, now: u64) -> bool {
        let (tx, ty) = old.ahead();
        if exists|i: int| #[trigger] is_at(old.interactables@, i, tx, ty) {
            &&& forall|i: int| #[trigger]
                is_at(old.interactables@, i, tx, ty) ==> new.arrived_through(old.interactables@[i])
            &&& new.player.facing == Some(Direction::Right)
            &&& new.player.movable == old.player.movable
            &&& is_generated_map(new.map@)
            &&& is_generated_portal_set(new.map@, new.interactables@)
            &&& is_scattered_map(new.map@)
            &&& is_drawn_portal_set(new.map@, new.interactables@)
            &&& new.popups@.len() == 1
            &&& new.popups@[0].is_fresh_text_box("You have entered a new area."@, POPUP_DURATION_MS, now)
        } else {
            &&& new.player == old.player
            &&& new.map == old.map
            &&& new.interactables == old.interactables
            &&& pushed_notice(old.popups@, new.popups@, "Nothing to interact with"@, now)
        }
    }

    /// A screen with the player at the origin facing right, on a freshly
    /// generated map with fresh portals and no popups.
    pub fn new() -> (r: GameScreen)
        ensures
            r.wf(),
            r.player == (Point { x: 0, y: 0, movable: true, facing: Some(Direction::Right) }),
            r.popups@.len() == 0,
            is_scattered_map(r.map@),
            is_drawn_portal_set(r.map@, r.interactables@),
    {
        let player = Point { x: 0, y: 0, movable: true, facing: Some(Direction::Right) };
        let map = generate_map();
        let interactables = generate_interactables(&map);
        GameScreen { player, map, popups: Vec::new(), interactables }
    }

    /// Whether `(x, y)` lies on the grid.
    pub fn is_within_bounds(&self, x: i32, y: i32) -> (r: bool)
        ensures
            r == in_grid(x as int, y as int),
    {
        x >= GRID_MIN && x <= GRID_MAX && y >= GRID_MIN && y <= GRID_MAX
    }

    /// Whether `(x, y)` counts as an obstacle: it has no cell on the map, or its cell holds 1.
    pub fn is_obstacle(&self, x: i32, y: i32) -> (r: bool)
        requires
            map_wf(self.map@),
        ensures
            r == obstacle_at(self.map@, x as int, y as int),
    {
        let map_x: i64 = x as i64 - GRID_MIN as i64;
        let map_y: i64 = GRID_MAX as i64 - y as i64;
        if map_x < 0 || map_x >= MAP_WIDTH as i64 || map_y < 0 || map_y >= MAP_HEIGHT as i64 {
            return true;
        }
        self.map[map_y as usize][map_x as usize] == 1
    }

    /// Adds the notice that a move was refused.
    fn show_boundary_message(&mut self, now: u64)
        ensures
            pushed_notice(old(self).popups@, final(self).popups@, "Boundary in the way"@, now),
            final(self).player == old(self).player,
            final(self).map == old(self).map,
            final(self).interactables == old(self).interactables,
    {
        let ghost before = self.popups@;
        self.popups.push(Popup::new_text_box("Boundary in the way".to_string(), POPUP_DURATION_MS, now));
        assert(self.popups@.drop_last() =~= before);
    }

    /// Turns the player towards `(dx, dy)` and moves it there unless the target
    /// is off the grid or an obstacle, in which case a boundary notice is shown.
    pub fn try_move_player(&mut self, dx: i32, dy: i32, now: u64)
        requires
            old(self).wf(),
        ensures
            final(self).wf(),
            GameScreen::moved(*old(self), *final(self), dx as int, dy as int, now),
    {
        let facing = if dx == 0 && dy == 1 {
            Direction::Up
        } else if dx == 0 && dy == -1 {
            Direction::Down
        } else if dx == -1 && dy == 0 {
            Direction::Left
        } else if dx == 1 && dy == 0 {
            Direction::Right
        } else {
            match self.player.facing {
                Some(d) => d,
                None => Direction::Right,
            }
        };
        self.player.facing = Some(facing);

        let new_x: i64 = self.player.x as i64 + dx as i64;
        let new_y: i64 = self.player.y as i64 + dy as i64;

        if new_x < GRID_MIN as i64 || new_x > GRID_MAX as i64 || new_y < GRID_MIN as i64 || new_y
            > GRID_MAX as i64 || !self.is_within_bounds(new_x as i32, new_y as i32) {
            self.show_boundary_message(now);
            return;
        }
        if self.is_obstacle(new_x as i32, new_y as i32) {
            self.show_boundary_message(now);
            return;
        }
        self.player.x = new_x as i32;
        self.player.y = new_y as i32;
    }

    /// Replaces the map and its portals with freshly generated ones, puts the
    /// player at `destination_position` (the origin if none) facing right, and
    /// clears the popups.
    fn generate_new_map(&mut self, destination_position: Option<(i32, i32)>)
        requires
            destination_position matches Some(d) ==> in_grid(d.0 as int, d.1 as int),
            old(self).player.movable,
        ensures
            final(self).wf(),
            is_generated_map(final(self).map@),
            is_generated_portal_set(final(self).map@, final(self).interactables@),
            is_scattered_map(final(self).map@),
            is_drawn_portal_set(final(self).map@, final(self).interactables@),
            match destination_position {
                Some(d) => final(self).player.x == d.0 && final(self).player.y == d.1,
                None => final(self).player.x == 0 && final(self).player.y == 0,
            },
            final(self).player.facing == Some(Direction::Right),
            final(self).player.movable == old(self).player.movable,
            final(self).popups@.len() == 0,
    {
        self.map = generate_map();
        self.interactables = generate_interactables(&self.map);
        match destination_position {
            Some((x, y)) => {
                self.player.x = x;
                self.player.y = y;
            },
            None => {
                self.player.x = 0;
                self.player.y = 0;
            },
        }
        self.player.facing = Some(Direction::Right);
        self.popups.clear();
    }

    /// Acts on the cell in front of the player: passes through the portal there,
    /// or reports that there is nothing to interact with.
    pub fn try_interact(&mut self, now: u64)
        requires
            old(self).wf(),
        ensures
            final(self).wf(),
            GameScreen::interacted(*old(self), *final(self), now),
    {
        let facing = match self.player.facing {
            Some(d) => d,
            None => Direction::Right,
        };
        let (dx, dy) = facing.step();
        let target_x = self.player.x + dx;
        let target_y = self.player.y + dy;
        let ghost pre = *self;
        assert(pre.ahead() == (target_x as int, target_y as int));

        match position_of(&self.interactables, target_x, target_y) {
            Some(index) => {
                let interactable = self.interactables[index];
                proof {
                    let s = self.interactables@;
                    assert(is_at(s, index as int, target_x as int, target_y as int));
                    assert(is_at(s, index as int, pre.ahead().0, pre.ahead().1));
                    assert forall|i: int| #[trigger]
                        is_at(s, i, target_x as int, target_y as int) implies s[i] == s[index as int] by {
                        if i < index {
                            assert(!(s[i].x == s[index as int].x && s[i].y == s[index as int].y));
                        } else if i > index {
                            assert(!(s[index as int].x == s[i].x && s[index as int].y == s[i].y));
                        }
                    }
                }
                self.generate_new_map(interactable.destination_position);
                self.popups.push(
                    Popup::new_text_box("You have entered a new area.".to_string(), POPUP_DURATION_MS, now),
                );
            },
            None => {
                let ghost before = self.popups@;
                self.popups.push(
                    Popup::new_text_box("Nothing to interact with".to_string(), POPUP_DURATION_MS, now),
                );
                assert(self.popups@.drop_last() =~= before);
            },
        }
    }

    /// Updates every popup at `now` and drops those that are no longer active,
    /// keeping the order of the rest.
    pub fn update_popups(&mut self, now: u64)
        ensures
            final(self).popups@ == retained(old(self).popups@, now),
            final(self).player == old(self).player,
            final(self).map == old(self).map,
            final(self).interactables == old(self).interactables,
    {
        let mut pending: Vec<Popup> = Vec::new();
        std::mem::swap(&mut pending, &mut self.popups);
        let ghost all = pending@;
        let count = pending.len();
        let ghost n = all.len();
        let mut k: usize = 0;
        while pending.len() > 0
            invariant
                k <= n,
                n == all.len(),
                n == count,
                pending@ == all.subrange(k as int, n as int),
                self.popups@ == retained(all.subrange(0, k as int), now),
                self.player == old(self).player,
                self.map == old(self).map,
                self.interactables == old(self).interactables,
            decreases pending@.len(),
        {
            let mut popup = pending.remove(0);
            popup.update(now);
            proof {
                let done = all.subrange(0, k as int + 1);
                assert(done.drop_last() =~= all.subrange(0, k as int));
                assert(done.last() == all[k as int]);
            }
            if popup.active {
                self.popups.push(popup);
            }
            k = k + 1;
            assert(pending@ =~= all.subrange(k as int, n as int));
        }
        assert(all.subrange(0, n as int) =~= all);
    }

    /// A tick of the game: the popups are updated; the game asks for no transition.
    pub fn update(&mut self, now: u64) -> (r: Option<Transition>)
        requires
            old(self).wf(),
        ensures
            final(self).wf(),
            final(self).popups@ == retained(old(self).popups@, now),
            final(self).player == old(self).player,
            final(self).map == old(self).map,
            final(self).interactables == old(self).interactables,
            r is None,
    {
        self.update_popups(now);
        None
    }

    /// What handling `event` at `now` does: W, S, A, D try to move up, down, left
    /// and right (up is increasing `y`), E interacts, Escape asks for the pause
    /// screen; every other event changes nothing.
    pub open spec fn handled(old: GameScreen, new: GameScreen, event: InputEvent, now: u64, r: Option<Transition>) -> bool {
        match event {
            InputEvent::KeyPress(Key::W) => GameScreen::moved(old, new, 0, 1, now) && r is None,
            InputEvent::KeyPress(Key::S) => GameScreen::moved(old, new, 0, -1, now) && r is None,
            InputEvent::KeyPress(Key::A) => GameScreen::moved(old, new, -1, 0, now) && r is None,
            InputEvent::KeyPress(Key::D) => GameScreen::moved(old, new, 1, 0, now) && r is None,
            InputEvent::KeyPress(Key::E) => GameScreen::interacted(old, new, now) && r is None,
            InputEvent::KeyPress(Key::Escape) => new == old && r == Some(Transition::To(ScreenState::Pause)),
            _ => new == old && r is None,
        }
    }

    /// Handles a key press as `handled` states.
    pub fn handle_input(&mut self, event: &InputEvent, now: u64) -> (r: Option<Transition>)
        requires
            old(self).wf(),
        ensures
            final(self).wf(),
            GameScreen::handled(*old(self), *final(self), *event, now, r),
    {
        match event {
            InputEvent::KeyPress(key) => match key {
                Key::W => self.try_move_player(0, 1, now),
                Key::S => self.try_move_player(0, -1, now),
                Key::A => self.try_move_player(-1, 0, now),
                Key::D => self.try_move_player(1, 0, now),
                Key::E => self.try_interact(now),
                Key::Escape => {
                    return Some(Transition::To(ScreenState::Pause));
                },
                Key::Other => {},
            },
            _ => {},
        }
        None
    }
}

/// Where a portal leads: its destination, or the origin when it has none.
pub open spec fn destination_or_origin(p: InteractablePoint) -> (i32, i32) {
    match p.destination_position {
        Some(d) => d,
        None => (0, 0),
    }
}

/// An interaction while the player faces the portal at index `i` puts the player
/// at that portal's destination (the origin if it has none), facing right, on a
/// freshly generated map with fresh portals, and leaves exactly one popup: the
/// arrival notice.
pub proof fn lemma_interact_through_portal(old: GameScreen, new: GameScreen, now: u64, i: int)
    requires
        GameScreen::interacted(old, new, now),
        is_at(old.interactables@, i, old.ahead().0, old.ahead().1),
    ensures
        (new.player.x, new.player.y) == destination_or_origin(old.interactables@[i]),
        new.player.facing == Some(Direction::Right),
        new.player.movable == old.player.movable,
        is_generated_map(new.map@),
        is_generated_portal_set(new.map@, new.interactables@),
        is_scattered_map(new.map@),
        is_drawn_portal_set(new.map@, new.interactables@),
        new.popups@.len() == 1,
        new.popups@[0].is_fresh_text_box("You have entered a new area."@, POPUP_DURATION_MS, now),
{
    assert(new.arrived_through(old.interactables@[i]));
}

} // verus!
