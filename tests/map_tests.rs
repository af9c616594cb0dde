use interim::map::{
    add_house, generate_interactables, generate_map, place_interactables, position_of,
    scatter_obstacles, InteractablePoint, GRID_MAX, GRID_MIN, MAP_HEIGHT, MAP_WIDTH,
};

fn blank_map() -> Vec<Vec<u8>> {
    vec![vec![0u8; MAP_WIDTH]; MAP_HEIGHT]
}

fn cell(map: &Vec<Vec<u8>>, x: i32, y: i32) -> u8 {
    map[(GRID_MAX - y) as usize][(x - GRID_MIN) as usize]
}

fn on_house_outline(x: i32, y: i32) -> bool {
    let first = (-10..=-5).contains(&x) && (5..=10).contains(&y)
        && (x == -10 || x == -5 || y == 5 || y == 10)
        && !(x == -7 && y == 5);
    let second = (5..=10).contains(&x) && (-10..=-5).contains(&y)
        && (x == 5 || x == 10 || y == -5 || y == -10)
        && !(x == 7 && y == -10);
    first || second
}

#[test]
fn generated_map_has_obstacles_on_every_border_cell() {
    for _ in 0..20 {
        let map = generate_map();
        assert_eq!(map.len(), MAP_HEIGHT);
        for row in &map {
            assert_eq!(row.len(), MAP_WIDTH);
        }
        for i in 0..MAP_WIDTH {
            assert_eq!(map[0][i], 1);
            assert_eq!(map[MAP_HEIGHT - 1][i], 1);
            assert_eq!(map[i][0], 1);
            assert_eq!(map[i][MAP_WIDTH - 1], 1);
        }
    }
}

#[test]
fn generated_map_walls_both_houses_and_holds_only_zero_or_one() {
    let map = generate_map();
    for x in GRID_MIN..=GRID_MAX {
        for y in GRID_MIN..=GRID_MAX {
            let v = cell(&map, x, y);
            assert!(v == 0 || v == 1);
            if on_house_outline(x, y) {
                assert_eq!(v, 1, "house wall at ({}, {})", x, y);
            }
        }
    }
}

#[test]
fn generated_map_scatters_obstacles_at_random() {
    let map = generate_map();
    let mut extra = 0;
    for x in GRID_MIN + 1..GRID_MAX {
        for y in GRID_MIN + 1..GRID_MAX {
            if cell(&map, x, y) == 1 && !on_house_outline(x, y) {
                extra += 1;
            }
        }
    }
    assert!(extra > 1 && extra < 150, "extra obstacles: {}", extra);
}

#[test]
fn add_house_walls_the_outline_and_leaves_the_entrance() {
    let mut map = blank_map();
    add_house(&mut map, (-2, 2), (2, -2), (0, -2));
    for x in GRID_MIN..=GRID_MAX {
        for y in GRID_MIN..=GRID_MAX {
            let wall = (-2..=2).contains(&x) && (-2..=2).contains(&y)
                && (x.abs() == 2 || y.abs() == 2)
                && !(x == 0 && y == -2);
            assert_eq!(cell(&map, x, y), if wall { 1 } else { 0 }, "at ({}, {})", x, y);
        }
    }
}

#[test]
fn add_house_accepts_corners_in_any_order_and_off_the_map() {
    let mut map = blank_map();
    add_house(&mut map, (25, 18), (18, 25), (100, 100));
    assert_eq!(cell(&map, 18, 18), 1);
    assert_eq!(cell(&map, 20, 18), 1);
    assert_eq!(cell(&map, 18, 20), 1);
    assert_eq!(cell(&map, 19, 19), 0);
    assert_eq!(cell(&map, 20, 20), 0);
}

#[test]
fn add_house_keeps_existing_obstacles_at_the_entrance() {
    let mut map = blank_map();
    map[(GRID_MAX - 3) as usize][(3 - GRID_MIN) as usize] = 1;
    add_house(&mut map, (1, 3), (5, 1), (3, 3));
    assert_eq!(cell(&map, 3, 3), 1);
    assert_eq!(cell(&map, 2, 3), 1);
    assert_eq!(cell(&map, 3, 2), 0);
}

#[test]
fn generated_portals_are_few_free_and_distinct() {
    for _ in 0..20 {
        let map = generate_map();
        let portals = generate_interactables(&map);
        assert!(portals.len() <= 5);
        for (i, p) in portals.iter().enumerate() {
            assert!(p.x > GRID_MIN && p.x < GRID_MAX);
            assert!(p.y > GRID_MIN && p.y < GRID_MAX);
            assert_eq!(cell(&map, p.x, p.y), 0);
            assert_eq!(p.destination_map, None);
            let (dx, dy) = p.destination_position.expect("destination");
            assert!(dx > GRID_MIN && dx < GRID_MAX && dy > GRID_MIN && dy < GRID_MAX);
            for q in portals.iter().skip(i + 1) {
                assert!(!(p.x == q.x && p.y == q.y));
            }
        }
    }
}

#[test]
fn generated_portals_fill_up_on_an_open_map() {
    let mut map = blank_map();
    for i in 0..MAP_WIDTH {
        map[0][i] = 1;
        map[MAP_HEIGHT - 1][i] = 1;
        map[i][0] = 1;
        map[i][MAP_WIDTH - 1] = 1;
    }
    let portals = generate_interactables(&map);
    assert_eq!(portals.len(), 5);
}

#[test]
fn no_portal_fits_on_a_full_map() {
    let map = vec![vec![1u8; MAP_WIDTH]; MAP_HEIGHT];
    assert!(generate_interactables(&map).is_empty());
}

#[test]
fn position_of_finds_the_first_portal_at_a_cell() {
    let p = |x, y| InteractablePoint { x, y, destination_map: None, destination_position: None };
    let points = vec![p(1, 2), p(3, 4), p(3, 4)];
    assert_eq!(position_of(&points, 3, 4), Some(1));
    assert_eq!(position_of(&points, 1, 2), Some(0));
    assert_eq!(position_of(&points, 2, 1), None);
    assert_eq!(position_of(&Vec::new(), 0, 0), None);
}

#[test]
fn place_interactables_takes_free_unique_draws_in_order() {
    let mut map = blank_map();
    map[(GRID_MAX - 2) as usize][(1 - GRID_MIN) as usize] = 1;
    let draws = vec![
        (1, 2, 9, 9),
        (3, 4, 5, 6),
        (3, 4, 7, 7),
        (-3, -4, -5, -6),
    ];
    let portals = place_interactables(&map, &draws);
    assert_eq!(
        portals,
        vec![
            InteractablePoint { x: 3, y: 4, destination_map: None, destination_position: Some((5, 6)) },
            InteractablePoint { x: -3, y: -4, destination_map: None, destination_position: Some((-5, -6)) },
        ]
    );
}

#[test]
fn place_interactables_stops_at_five() {
    let map = blank_map();
    let draws: Vec<(i32, i32, i32, i32)> = (0..8).map(|i| (i, -i, i, i)).collect();
    let portals = place_interactables(&map, &draws);
    assert_eq!(portals.len(), 5);
    let xs: Vec<i32> = portals.iter().map(|p| p.x).collect();
    assert_eq!(xs, vec![0, 1, 2, 3, 4]);
    assert!(place_interactables(&map, &Vec::new()).is_empty());
}

#[test]
fn scatter_obstacles_marks_exactly_the_given_cells() {
    let mut map = blank_map();
    map[0][0] = 1;
    scatter_obstacles(&mut map, &vec![(2, 3), (-20, 20), (2, 3), (19, -19)]);
    let mut ones = Vec::new();
    for x in GRID_MIN..=GRID_MAX {
        for y in GRID_MIN..=GRID_MAX {
            if cell(&map, x, y) == 1 {
                ones.push((x, y));
            }
        }
    }
    assert_eq!(ones, vec![(-20, 20), (2, 3), (19, -19)]);
}
