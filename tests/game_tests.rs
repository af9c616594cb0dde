use interim::game::{Direction, GameScreen, Point, POPUP_DURATION_MS};
use interim::input::{InputEvent, Key};
use interim::map::{InteractablePoint, GRID_MAX, GRID_MIN, MAP_HEIGHT, MAP_WIDTH};
use interim::popup::{Popup, PopupType};
use interim::screens::{ScreenState, Transition};

fn bordered_map() -> Vec<Vec<u8>> {
    let mut map = vec![vec![0u8; MAP_WIDTH]; MAP_HEIGHT];
    for i in 0..MAP_WIDTH {
        map[0][i] = 1;
        map[MAP_HEIGHT - 1][i] = 1;
        map[i][0] = 1;
        map[i][MAP_WIDTH - 1] = 1;
    }
    map
}

fn set_obstacle(map: &mut Vec<Vec<u8>>, x: i32, y: i32) {
    map[(GRID_MAX - y) as usize][(x - GRID_MIN) as usize] = 1;
}

fn screen_at(x: i32, y: i32, facing: Direction) -> GameScreen {
    GameScreen {
        player: Point { x, y, movable: true, facing: Some(facing) },
        map: bordered_map(),
        popups: Vec::new(),
        interactables: Vec::new(),
    }
}

fn portal(x: i32, y: i32, destination: Option<(i32, i32)>) -> InteractablePoint {
    InteractablePoint { x, y, destination_map: None, destination_position: destination }
}

fn text_of(p: &Popup) -> &str {
    match &p.popup_type {
        PopupType::TextBox { text, .. } => text,
    }
}

#[test]
fn new_game_screen_starts_at_origin_facing_right() {
    let g = GameScreen::new();
    assert_eq!(g.player.x, 0);
    assert_eq!(g.player.y, 0);
    assert!(g.player.movable);
    assert_eq!(g.player.facing, Some(Direction::Right));
    assert_eq!(g.map[0][(0 - GRID_MIN) as usize], 1);
    assert!(g.interactables.len() <= 5);
    assert!(g.popups.is_empty());
}

#[test]
fn within_bounds_holds_exactly_on_the_grid() {
    let g = screen_at(0, 0, Direction::Right);
    assert!(g.is_within_bounds(GRID_MIN, GRID_MIN));
    assert!(g.is_within_bounds(GRID_MAX, GRID_MAX));
    assert!(g.is_within_bounds(0, GRID_MAX));
    assert!(g.is_within_bounds(-20, 20));
    assert!(!g.is_within_bounds(21, 0));
    assert!(!g.is_within_bounds(0, -21));
    assert!(!g.is_within_bounds(-21, -21));
    assert!(!g.is_within_bounds(i32::MAX, 0));
    assert!(!g.is_within_bounds(0, i32::MIN));
}

#[test]
fn obstacle_test_reads_the_map_and_treats_off_map_cells_as_obstacles() {
    let mut g = screen_at(0, 0, Direction::Right);
    set_obstacle(&mut g.map, 3, -4);
    assert!(g.is_obstacle(3, -4));
    assert!(!g.is_obstacle(-4, 3));
    assert!(g.is_obstacle(GRID_MIN, 0));
    assert!(g.is_obstacle(0, GRID_MAX));
    assert!(g.is_obstacle(21, 0));
    assert!(g.is_obstacle(0, -21));
    assert!(g.is_obstacle(i32::MIN, i32::MAX));
}

#[test]
fn move_onto_free_cell_moves_and_turns() {
    let mut g = screen_at(0, 0, Direction::Right);
    g.try_move_player(0, 1, 100);
    assert_eq!((g.player.x, g.player.y), (0, 1));
    assert_eq!(g.player.facing, Some(Direction::Up));
    g.try_move_player(-1, 0, 100);
    assert_eq!((g.player.x, g.player.y), (-1, 1));
    assert_eq!(g.player.facing, Some(Direction::Left));
    assert!(g.popups.is_empty());
}

#[test]
fn move_into_obstacle_only_turns_and_reports() {
    let mut g = screen_at(0, 0, Direction::Right);
    set_obstacle(&mut g.map, 0, -1);
    g.try_move_player(0, -1, 700);
    assert_eq!((g.player.x, g.player.y), (0, 0));
    assert_eq!(g.player.facing, Some(Direction::Down));
    assert_eq!(g.popups.len(), 1);
    assert_eq!(text_of(&g.popups[0]), "Boundary in the way");
    assert!(g.popups[0].active);
    match g.popups[0].popup_type {
        PopupType::TextBox { duration, created_at, .. } => {
            assert_eq!(duration, POPUP_DURATION_MS);
            assert_eq!(created_at, 700);
        }
    }
}

#[test]
fn move_off_the_grid_is_refused() {
    let mut g = screen_at(GRID_MAX, 0, Direction::Up);
    g.try_move_player(1, 0, 0);
    assert_eq!((g.player.x, g.player.y), (GRID_MAX, 0));
    assert_eq!(g.player.facing, Some(Direction::Right));
    assert_eq!(g.popups.len(), 1);
    assert_eq!(text_of(&g.popups[0]), "Boundary in the way");
}

#[test]
fn move_into_border_is_refused() {
    let mut g = screen_at(GRID_MIN + 1, 0, Direction::Right);
    g.try_move_player(-1, 0, 0);
    assert_eq!((g.player.x, g.player.y), (GRID_MIN + 1, 0));
    assert_eq!(g.player.facing, Some(Direction::Left));
    assert_eq!(g.popups.len(), 1);
}

#[test]
fn interact_through_portal_regenerates_and_relocates() {
    let mut g = screen_at(0, 0, Direction::Up);
    g.interactables = vec![portal(3, 3, None), portal(0, 1, Some((5, -6)))];
    g.popups.push(Popup::new_text_box("old".to_string(), 2000, 0));
    g.try_interact(900);
    assert_eq!((g.player.x, g.player.y), (5, -6));
    assert_eq!(g.player.facing, Some(Direction::Right));
    assert_eq!(g.popups.len(), 1);
    assert_eq!(text_of(&g.popups[0]), "You have entered a new area.");
    assert!(g.popups[0].active);
    assert!(g.interactables.len() <= 5);
    assert_eq!(g.map.len(), MAP_HEIGHT);
    for i in 0..MAP_WIDTH {
        assert_eq!(g.map[0][i], 1);
        assert_eq!(g.map[MAP_HEIGHT - 1][i], 1);
    }
}

#[test]
fn interact_through_portal_without_destination_lands_at_origin() {
    let mut g = screen_at(4, 4, Direction::Left);
    g.interactables = vec![portal(3, 4, None)];
    g.try_interact(0);
    assert_eq!((g.player.x, g.player.y), (0, 0));
    assert_eq!(g.player.facing, Some(Direction::Right));
    assert_eq!(g.popups.len(), 1);
}

#[test]
fn interact_with_nothing_reports_it() {
    let mut g = screen_at(0, 0, Direction::Right);
    g.interactables = vec![portal(0, 1, Some((5, 5)))];
    g.try_interact(10);
    assert_eq!((g.player.x, g.player.y), (0, 0));
    assert_eq!(g.interactables.len(), 1);
    assert_eq!(g.popups.len(), 1);
    assert_eq!(text_of(&g.popups[0]), "Nothing to interact with");
}

#[test]
fn interact_defaults_to_facing_right() {
    let mut g = screen_at(0, 0, Direction::Right);
    g.player.facing = None;
    g.interactables = vec![portal(1, 0, Some((2, 2)))];
    g.try_interact(0);
    assert_eq!((g.player.x, g.player.y), (2, 2));
}

#[test]
fn keys_move_the_player() {
    let mut g = screen_at(0, 0, Direction::Right);
    assert_eq!(g.handle_input(&InputEvent::KeyPress(Key::W), 0), None);
    assert_eq!((g.player.x, g.player.y), (0, 1));
    assert_eq!(g.handle_input(&InputEvent::KeyPress(Key::D), 0), None);
    assert_eq!((g.player.x, g.player.y), (1, 1));
    assert_eq!(g.handle_input(&InputEvent::KeyPress(Key::S), 0), None);
    assert_eq!((g.player.x, g.player.y), (1, 0));
    assert_eq!(g.player.facing, Some(Direction::Down));
    assert_eq!(g.handle_input(&InputEvent::KeyPress(Key::A), 0), None);
    assert_eq!((g.player.x, g.player.y), (0, 0));
    assert_eq!(g.player.facing, Some(Direction::Left));
}

#[test]
fn escape_asks_for_pause_and_other_input_is_ignored() {
    let mut g = screen_at(0, 0, Direction::Right);
    assert_eq!(
        g.handle_input(&InputEvent::KeyPress(Key::Escape), 0),
        Some(Transition::To(ScreenState::Pause))
    );
    assert_eq!(g.handle_input(&InputEvent::KeyPress(Key::Other), 0), None);
    assert_eq!(g.handle_input(&InputEvent::Other, 0), None);
    assert_eq!((g.player.x, g.player.y), (0, 0));
    assert_eq!(g.player.facing, Some(Direction::Right));
    assert!(g.popups.is_empty());
}

#[test]
fn key_e_interacts() {
    let mut g = screen_at(0, 0, Direction::Right);
    assert_eq!(g.handle_input(&InputEvent::KeyPress(Key::E), 5), None);
    assert_eq!(text_of(&g.popups[0]), "Nothing to interact with");
}

#[test]
fn update_drops_expired_popups_and_keeps_order() {
    let mut g = screen_at(0, 0, Direction::Right);
    g.popups.push(Popup::new_text_box("a".to_string(), 2000, 0));
    g.popups.push(Popup::new_text_box("b".to_string(), 2000, 1000));
    g.popups.push(Popup::new_text_box("c".to_string(), 500, 1000));
    assert_eq!(g.update(1999), None);
    let texts: Vec<&str> = g.popups.iter().map(text_of).collect();
    assert_eq!(texts, vec!["a", "b"]);
    g.update(2000);
    let texts: Vec<&str> = g.popups.iter().map(text_of).collect();
    assert_eq!(texts, vec!["b"]);
    g.update(3000);
    assert!(g.popups.is_empty());
}

#[test]
fn direction_labels() {
    assert_eq!(Direction::Up.to_string(), "FACING: UP");
    assert_eq!(Direction::Down.to_string(), "FACING: DOWN");
    assert_eq!(Direction::Left.to_string(), "FACING: LEFT");
    assert_eq!(Direction::Right.to_string(), "FACING: RIGHT");
    assert_eq!(Direction::Up.step(), (0, 1));
    assert_eq!(Direction::Down.step(), (0, -1));
}
