//! The grid map: a square of cells indexed by grid coordinates, where
//! 0 is a free cell and 1 an obstacle.

use crate::random::gen_range_i32;
use vstd::prelude::*;

verus! {

/// Smallest grid coordinate, on both axes.
pub const GRID_MIN: i32 = -20;
/// Largest grid coordinate, on both axes.
pub const GRID_MAX: i32 = 20;
/// Number of columns of the map.
pub const MAP_WIDTH: usize = 41;
/// Number of rows of the map.
pub const MAP_HEIGHT: usize = 41;

/// Whether `(x, y)` lies on the grid.
pub open spec fn in_grid(x: int, y: int) -> bool {
    GRID_MIN <= x <= GRID_MAX && GRID_MIN <= y <= GRID_MAX
}

/// Column index of grid coordinate `x`.
pub open spec fn col_of(x: int) -> int {
    x - GRID_MIN
}

/// Row index of grid coordinate `y`: the top row holds `GRID_MAX`.
pub open spec fn row_of(y: int) -> int {
    GRID_MAX - y
}

/// Grid coordinate of column `c`.
pub open spec fn x_of(c: int) -> int {
    c + GRID_MIN
}

/// Grid coordinate of row `r`.
pub open spec fn y_of(r: int) -> int {
    GRID_MAX - r
}

/// Whether `(r, c)` indexes a cell of the map.
pub open spec fn is_cell(r: int, c: int) -> bool {
    0 <= r < MAP_HEIGHT && 0 <= c < MAP_WIDTH
}

/// A map has `MAP_HEIGHT` rows of `MAP_WIDTH` cells each.
pub open spec fn map_wf(m: Seq<Vec<u8>>) -> bool {
    &&& m.len() == MAP_HEIGHT
    &&& forall|r: int| 0 <= r < MAP_HEIGHT ==> (#[trigger] m[r])@.len() == MAP_WIDTH
}

/// The value stored at row `r`, column `c`.
pub open spec fn at(m: Seq<Vec<u8>>, r: int, c: int) -> u8 {
    m[r]@[c]
}

/// The value stored for grid coordinates `(x, y)`.
pub open spec fn cell(m: Seq<Vec<u8>>, x: int, y: int) -> u8 {
    at(m, row_of(y), col_of(x))
}

/// Whether `(r, c)` is in the first or last row or column.
pub open spec fn on_border(r: int, c: int) -> bool {
    r == 0 || r == MAP_HEIGHT - 1 || c == 0 || c == MAP_WIDTH - 1
}

pub open spec fn min(a: int, b: int) -> int {
    if a <= b { a } else { b }
}

pub open spec fn max(a: int, b: int) -> int {
    if a <= b { b } else { a }
}

/// Whether grid point `(x, y)` is a wall of the house spanned by the corners
/// `(x1, y1)` and `(x2, y2)`, whose entrance `(ex, ey)` is left open.
pub open spec fn on_outline(x: int, y: int, x1: int, y1: int, x2: int, y2: int, ex: int, ey: int) -> bool {
    &&& min(x1, x2) <= x <= max(x1, x2)
    &&& min(y1, y2) <= y <= max(y1, y2)
    &&& !(x == ex && y == ey)
    &&& (y == min(y1, y2) || y == max(y1, y2) || x == min(x1, x2) || x == max(x1, x2))
}

/// Walls the house spanned by `top_left` and `bottom_right` with obstacles on its
/// outline, leaving `entrance` free of a new wall. Wall cells off the map are skipped.
pub fn add_house(
    map: &mut Vec<Vec<u8>>,
    top_left: (i32, i32),
    bottom_right: (i32, i32),
    entrance_position: (i32, i32),
)
    requires
        map_wf(old(map)@),
    ensures
        map_wf(final(map)@),
        forall|r: int, c: int|
            is_cell(r, c) ==> #[trigger] at(final(map)@, r, c) == if on_outline(
                x_of(c),
                y_of(r),
                top_left.0 as int,
                top_left.1 as int,
                bottom_right.0 as int,
                bottom_right.1 as int,
                entrance_position.0 as int,
                entrance_position.1 as int,
            ) {
                1u8
            } else {
                at(old(map)@, r, c)
            },
{
    let (x1, y1) = top_left;
    let (x2, y2) = bottom_right;
    let (ex, ey) = entrance_position;
    let x_start: i64 = if x1 <= x2 { x1 as i64 } else { x2 as i64 };
    let x_end: i64 = if x1 <= x2 { x2 as i64 } else { x1 as i64 };
    let y_start: i64 = if y1 <= y2 { y1 as i64 } else { y2 as i64 };
    let y_end: i64 = if y1 <= y2 { y2 as i64 } else { y1 as i64 };
    let ghost m0 = map@;

    let mut y: i64 = y_start;
    while y <= y_end
        invariant
            y_start <= y <= y_end + 1,
            x_start == min(x1 as int, x2 as int),
            x_end == max(x1 as int, x2 as int),
            y_start == min(y1 as int, y2 as int),
            y_end == max(y1 as int, y2 as int),
            map_wf(map@),
            forall|r: int, c: int|
                is_cell(r, c) ==> #[trigger] at(map@, r, c) == if on_outline(
                    x_of(c),
                    y_of(r),
                    x1 as int,
                    y1 as int,
                    x2 as int,
                    y2 as int,
                    ex as int,
                    ey as int,
                ) && y_of(r) < y {
                    1u8
                } else {
                    at(m0, r, c)
                },
        decreases y_end + 1 - y,
    {
        let mut x: i64 = x_start;
        while x <= x_end
            invariant
                y_start <= y <= y_end,
                x_start <= x <= x_end + 1,
                x_start == min(x1 as int, x2 as int),
                x_end == max(x1 as int, x2 as int),
                y_start == min(y1 as int, y2 as int),
                y_end == max(y1 as int, y2 as int),
                map_wf(map@),
                forall|r: int, c: int|
                    is_cell(r, c) ==> #[trigger] at(map@, r, c) == if on_outline(
                        x_of(c),
                        y_of(r),
                        x1 as int,
                        y1 as int,
                        x2 as int,
                        y2 as int,
                        ex as int,
                        ey as int,
                    ) && (y_of(r) < y || (y_of(r) == y && x_of(c) < x)) {
                        1u8
                    } else {
                        at(m0, r, c)
                    },
            decreases x_end + 1 - x,
        {
            if !(x == ex as i64 && y == ey as i64) {
                if y == y_start || y == y_end || x == x_start || x == x_end {
                    let map_x: i64 = x - GRID_MIN as i64;
                    let map_y: i64 = GRID_MAX as i64 - y;
                    if 0 <= map_x && map_x < MAP_WIDTH as i64 && 0 <= map_y && map_y < MAP_HEIGHT as i64 {
                        set_obstacle(map, map_y as usize, map_x as usize);
                    }
                }
            }
            x = x + 1;
        }
        y = y + 1;
    }
}

/// Marks row `r`, column `c` as an obstacle and leaves every other cell as it was.
fn set_obstacle(map: &mut Vec<Vec<u8>>, r: usize, c: usize)
    requires
        map_wf(old(map)@),
        is_cell(r as int, c as int),
    ensures
        map_wf(final(map)@),
        forall|i: int, j: int|
            is_cell(i, j) ==> #[trigger] at(final(map)@, i, j) == if i == r && j == c {
                1u8
            } else {
                at(old(map)@, i, j)
            },
{
    map[r][c] = 1;
}

/// Whether `(r, c)` is a wall that every generated map has: the border, or the
/// outline of one of the two houses, each with its entrance left open.
pub open spec fn fixed_wall(r: int, c: int) -> bool {
    ||| on_border(r, c)
    ||| on_outline(x_of(c), y_of(r), -10, 10, -5, 5, -7, 5)
    ||| on_outline(x_of(c), y_of(r), 5, -5, 10, -10, 7, -10)
}

/// Every cell holds 0 or 1.
pub open spec fn is_binary(m: Seq<Vec<u8>>) -> bool {
    forall|r: int, c: int| is_cell(r, c) ==> #[trigger] at(m, r, c) == 0 || at(m, r, c) == 1
}

/// Every fixed wall is an obstacle.
pub open spec fn walls_standing(m: Seq<Vec<u8>>) -> bool {
    forall|r: int, c: int| is_cell(r, c) && fixed_wall(r, c) ==> #[trigger] at(m, r, c) == 1
}

/// What holds of every generated map, whatever was drawn.
pub open spec fn is_generated_map(m: Seq<Vec<u8>>) -> bool {
    map_wf(m) && is_binary(m) && walls_standing(m)
}

/// A map of free cells only.
fn empty_map() -> (m: Vec<Vec<u8>>)
    ensures
        map_wf(m@),
        forall|r: int, c: int| is_cell(r, c) ==> #[trigger] at(m@, r, c) == 0,
{
    let mut m: Vec<Vec<u8>> = Vec::new();
    let mut i: usize = 0;
    while i < MAP_HEIGHT
        invariant
            i <= MAP_HEIGHT,
            m@.len() == i,
            forall|r: int| 0 <= r < i ==> (#[trigger] m@[r])@.len() == MAP_WIDTH,
            forall|r: int, c: int| 0 <= r < i && 0 <= c < MAP_WIDTH ==> #[trigger] at(m@, r, c) == 0,
        decreases MAP_HEIGHT - i,
    {
        let mut row: Vec<u8> = Vec::new();
        let mut j: usize = 0;
        while j < MAP_WIDTH
            invariant
                j <= MAP_WIDTH,
                row@.len() == j,
                forall|c: int| 0 <= c < j ==> #[trigger] row@[c] == 0,
            decreases MAP_WIDTH - j,
        {
            row.push(0u8);
            j = j + 1;
        }
        let ghost before = m@;
        m.push(row);
        proof {
            assert forall|r: int, c: int| 0 <= r < i + 1 && 0 <= c < MAP_WIDTH implies #[trigger] at(
                m@,
                r,
                c,
            ) == 0 by {
                if r < i {
                    assert(m@[r] == before[r]);
                    assert(at(before, r, c) == 0);
                } else {
                    assert(m@[r] == row);
                    assert(row@[c] == 0);
                }
            }
        }
        i = i + 1;
    }
    m
}

/// Whether the cell at `cells[i]` is row `r`, column `c`.
pub open spec fn is_drawn_at(cells: Seq<(i32, i32)>, i: int, r: int, c: int) -> bool {
    0 <= i < cells.len() && row_of(cells[i].1 as int) == r && col_of(cells[i].0 as int) == c
}

/// Whether one of `cells` (grid coordinates) is row `r`, column `c`.
pub open spec fn drawn(cells: Seq<(i32, i32)>, r: int, c: int) -> bool {
    exists|i: int| #[trigger] is_drawn_at(cells, i, r, c)
}

/// Whether `m` is the map whose obstacles are the fixed walls and `cells`.
pub open spec fn is_map_from(m: Seq<Vec<u8>>, cells: Seq<(i32, i32)>) -> bool {
    &&& map_wf(m)
    &&& forall|r: int, c: int|
        is_cell(r, c) ==> #[trigger] at(m, r, c) == if fixed_wall(r, c) || drawn(cells, r, c) {
            1u8
        } else {
            0u8
        }
}

/// The obstacles of map `m` that are not fixed walls, as (row, column) pairs.
pub open spec fn scattered(m: Seq<Vec<u8>>) -> Set<(int, int)> {
    Set::new(|rc: (int, int)| is_cell(rc.0, rc.1) && !fixed_wall(rc.0, rc.1) && at(m, rc.0, rc.1) == 1)
}

/// A map built from `cells` has no more obstacles besides its fixed walls than
/// there are cells.
pub proof fn lemma_scattered_bound(m: Seq<Vec<u8>>, cells: Seq<(i32, i32)>)
    requires
        is_map_from(m, cells),
    ensures
        scattered(m).finite(),
        scattered(m).len() <= cells.len(),
{
    broadcast use vstd::seq_lib::seq_to_set_is_finite;

    let positions = cells.map_values(|p: (i32, i32)| (row_of(p.1 as int), col_of(p.0 as int)));
    assert forall|rc: (int, int)| scattered(m).contains(rc) implies positions.to_set().contains(rc) by {
        assert(at(m, rc.0, rc.1) == 1);
        assert(drawn(cells, rc.0, rc.1));
        let i = choose|i: int| #[trigger] is_drawn_at(cells, i, rc.0, rc.1);
        assert(positions[i] == rc);
        assert(positions.contains(rc));
    }
    positions.lemma_cardinality_of_set();
    vstd::set_lib::lemma_len_subset(scattered(m), positions.to_set());
}

/// Whether `m` is the map built from some 50 to 149 interior cells, as
/// `generate_map` draws them.
pub open spec fn is_scattered_map(m: Seq<Vec<u8>>) -> bool {
    exists|cells: Seq<(i32, i32)>|
        #![trigger is_map_from(m, cells)]
        50 <= cells.len() < 150 && (forall|i: int|
            0 <= i < cells.len() ==> in_interior(#[trigger] cells[i].0 as int, cells[i].1 as int))
            && is_map_from(m, cells)
}

/// Makes an obstacle of each of `cells`, given in grid coordinates, and leaves
/// every other cell as it was.
pub fn scatter_obstacles(map: &mut Vec<Vec<u8>>, cells: &Vec<(i32, i32)>)
    requires
        map_wf(old(map)@),
        forall|i: int| 0 <= i < cells@.len() ==> in_grid(#[trigger] cells@[i].0 as int, cells@[i].1 as int),
    ensures
        map_wf(final(map)@),
        forall|r: int, c: int|
            is_cell(r, c) ==> #[trigger] at(final(map)@, r, c) == if drawn(cells@, r, c) {
                1u8
            } else {
                at(old(map)@, r, c)
            },
{
    let ghost m0 = map@;
    let mut k: usize = 0;
    while k < cells.len()
        invariant
            k <= cells@.len(),
            map_wf(map@),
            forall|i: int| 0 <= i < cells@.len() ==> in_grid(#[trigger] cells@[i].0 as int, cells@[i].1 as int),
            forall|r: int, c: int|
                is_cell(r, c) ==> #[trigger] at(map@, r, c) == if drawn(cells@.subrange(0, k as int), r, c) {
                    1u8
                } else {
                    at(m0, r, c)
                },
        decreases cells@.len() - k,
    {
        let (x, y) = cells[k];
        proof {
            assert(in_grid(cells@[k as int].0 as int, cells@[k as int].1 as int));
        }
        let map_x = (x - GRID_MIN) as usize;
        let map_y = (GRID_MAX - y) as usize;
        let ghost before = map@;
        set_obstacle(map, map_y, map_x);
        proof {
            let pre = cells@.subrange(0, k as int);
            let post = cells@.subrange(0, k as int + 1);
            assert forall|r: int, c: int| is_cell(r, c) implies #[trigger] at(map@, r, c) == if drawn(post, r, c) {
                1u8
            } else {
                at(m0, r, c)
            } by {
                if r == map_y && c == map_x {
                    assert(is_drawn_at(post, k as int, r, c));
                } else {
                    assert(at(map@, r, c) == at(before, r, c));
                    if drawn(pre, r, c) {
                        let i = choose|i: int| #[trigger] is_drawn_at(pre, i, r, c);
                        assert(is_drawn_at(post, i, r, c));
                    }
                    if drawn(post, r, c) {
                        let i = choose|i: int| #[trigger] is_drawn_at(post, i, r, c);
                        assert(i != k);
                        assert(is_drawn_at(pre, i, r, c));
                    }
                }
            }
        }
        k = k + 1;
    }
    assert(cells@.subrange(0, cells@.len() as int) =~= cells@);
}

/// Builds a new map: the border and the two houses are walled, then between 50
/// and 149 cells drawn at random inside the border become obstacles (a cell drawn
/// twice counts once). Nothing guarantees that free cells are connected.
pub fn generate_map() -> (m: Vec<Vec<u8>>)
    ensures
        is_generated_map(m@),
        forall|r: int, c: int| is_cell(r, c) && on_border(r, c) ==> #[trigger] at(m@, r, c) == 1,
        scattered(m@).finite(),
        scattered(m@).len() <= 149,
        is_scattered_map(m@),
{
    let mut map = empty_map();

    let mut x: usize = 0;
    while x < MAP_WIDTH
        invariant
            x <= MAP_WIDTH,
            map_wf(map@),
            forall|r: int, c: int|
                is_cell(r, c) ==> #[trigger] at(map@, r, c) == if (r == 0 || r == MAP_HEIGHT - 1) && c < x {
                    1u8
                } else {
                    0u8
                },
        decreases MAP_WIDTH - x,
    {
        set_obstacle(&mut map, 0, x);
        set_obstacle(&mut map, MAP_HEIGHT - 1, x);
        x = x + 1;
    }
    let mut y: usize = 0;
    while y < MAP_HEIGHT
        invariant
            y <= MAP_HEIGHT,
            map_wf(map@),
            forall|r: int, c: int|
                is_cell(r, c) ==> #[trigger] at(map@, r, c) == if r == 0 || r == MAP_HEIGHT - 1 || ((c == 0
                    || c == MAP_WIDTH - 1) && r < y) {
                    1u8
                } else {
                    0u8
                },
        decreases MAP_HEIGHT - y,
    {
        set_obstacle(&mut map, y, 0);
        set_obstacle(&mut map, y, MAP_WIDTH - 1);
        y = y + 1;
    }

    add_house(&mut map, (-10, 10), (-5, 5), (-7, 5));
    add_house(&mut map, (5, -5), (10, -10), (7, -10));
    assert(forall|r: int, c: int|
        is_cell(r, c) ==> #[trigger] at(map@, r, c) == if fixed_wall(r, c) { 1u8 } else { 0u8 });

    let mut rng = rand::thread_rng();
    let obstacle_count: i32 = gen_range_i32(&mut rng, 50, 150);
    let mut cells: Vec<(i32, i32)> = Vec::new();
    let mut i: i32 = 0;
    while i < obstacle_count
        invariant
            0 <= i <= obstacle_count < 150,
            cells@.len() == i,
            forall|j: int| 0 <= j < cells@.len() ==> in_interior(#[trigger] cells@[j].0 as int, cells@[j].1 as int),
        decreases obstacle_count - i,
    {
        let x = gen_range_i32(&mut rng, GRID_MIN + 1, GRID_MAX);
        let y = gen_range_i32(&mut rng, GRID_MIN + 1, GRID_MAX);
        let ghost before = cells@;
        cells.push((x, y));
        proof {
            assert forall|j: int| 0 <= j < cells@.len() implies in_interior(
                #[trigger] cells@[j].0 as int,
                cells@[j].1 as int,
            ) by {
                if j < before.len() {
                    assert(cells@[j] == before[j]);
                }
            }
        }
        i = i + 1;
    }
    proof {
        assert forall|j: int| 0 <= j < cells@.len() implies in_grid(#[trigger] cells@[j].0 as int, cells@[j].1 as int) by {
            assert(in_interior(cells@[j].0 as int, cells@[j].1 as int));
        }
    }
    let ghost walls = map@;
    scatter_obstacles(&mut map, &cells);
    proof {
        assert(is_map_from(map@, cells@));
        assert forall|r: int, c: int| is_cell(r, c) implies #[trigger] at(map@, r, c) == 0 || at(map@, r, c) == 1 by {}
        assert(walls_standing(map@));
        lemma_scattered_bound(map@, cells@);
        assert(is_map_from(map@, cells@));
    }
    map
}

/// A portal on the map. Interacting with it moves the player to a freshly
/// generated map, at `destination_position` when it is set.
#[derive(Clone, Copy, Debug, PartialEq, Eq)]
pub struct InteractablePoint {
    pub x: i32,
    pub y: i32,
    pub destination_map: Option<usize>,
    pub destination_position: Option<(i32, i32)>,
}

/// Whether `(x, y)` lies strictly inside the border.
pub open spec fn in_interior(x: int, y: int) -> bool {
    GRID_MIN < x < GRID_MAX && GRID_MIN < y < GRID_MAX
}

/// What holds of each generated portal on map `m`: it stands on a free interior
/// cell, names no other map, and leads to an interior position.
pub open spec fn is_generated_portal(m: Seq<Vec<u8>>, p: InteractablePoint) -> bool {
    &&& in_interior(p.x as int, p.y as int)
    &&& cell(m, p.x as int, p.y as int) == 0
    &&& p.destination_map is None
    &&& p.destination_position matches Some(d) && in_interior(d.0 as int, d.1 as int)
}

/// No two portals share a position.
pub open spec fn distinct_positions(s: Seq<InteractablePoint>) -> bool {
    forall|i: int, j: int|
        0 <= i < j < s.len() ==> !(#[trigger] s[i].x == #[trigger] s[j].x && s[i].y == s[j].y)
}

/// Whether the portal at index `i` stands at `(x, y)`.
pub open spec fn is_at(s: Seq<InteractablePoint>, i: int, x: int, y: int) -> bool {
    0 <= i < s.len() && s[i].x == x && s[i].y == y
}

/// What holds of every generated set of portals on map `m`.
pub open spec fn is_generated_portal_set(m: Seq<Vec<u8>>, s: Seq<InteractablePoint>) -> bool {
    &&& s.len() <= 5
    &&& forall|i: int| 0 <= i < s.len() ==> is_generated_portal(m, #[trigger] s[i])
    &&& distinct_positions(s)
}

/// The index of the first portal at `(x, y)`, if any.
pub fn position_of(points: &Vec<InteractablePoint>, x: i32, y: i32) -> (r: Option<usize>)
    ensures
        r matches Some(i) ==> is_at(points@, i as int, x as int, y as int) && forall|j: int|
            0 <= j < i ==> !#[trigger] is_at(points@, j, x as int, y as int),
        r is None ==> forall|j: int| !#[trigger] is_at(points@, j, x as int, y as int),
{
    let mut i: usize = 0;
    while i < points.len()
        invariant
            i <= points@.len(),
            forall|j: int| 0 <= j < i ==> !#[trigger] is_at(points@, j, x as int, y as int),
        decreases points@.len() - i,
    {
        if points[i].x == x && points[i].y == y {
            return Some(i);
        }
        i = i + 1;
    }
    None
}

/// A draw for one portal: its position, then its destination.
pub type PortalDraw = (i32, i32, i32, i32);

/// The portal that draw `d` describes.
pub open spec fn portal_of(d: PortalDraw) -> InteractablePoint {
    InteractablePoint { x: d.0, y: d.1, destination_map: None, destination_position: Some((d.2, d.3)) }
}

/// Whether a portal at `(x, y)` can join `s` on map `m`: fewer than five are
/// placed, the cell is free, and no portal stands there yet.
pub open spec fn accepts(m: Seq<Vec<u8>>, s: Seq<InteractablePoint>, x: int, y: int) -> bool {
    &&& s.len() < 5
    &&& cell(m, x, y) == 0
    &&& forall|i: int| !#[trigger] is_at(s, i, x, y)
}

/// The portals placed from `draws` in order: a draw is taken when `accepts`
/// holds of its position, and skipped otherwise.
pub open spec fn portals_from(m: Seq<Vec<u8>>, draws: Seq<PortalDraw>) -> Seq<InteractablePoint>
    decreases draws.len(),
{
    if draws.len() == 0 {
        Seq::empty()
    } else {
        let placed = portals_from(m, draws.drop_last());
        let d = draws.last();
        if accepts(m, placed, d.0 as int, d.1 as int) {
            placed.push(portal_of(d))
        } else {
            placed
        }
    }
}

/// Whether the position and the destination of draw `d` are both interior.
pub open spec fn draw_interior(d: PortalDraw) -> bool {
    in_interior(d.0 as int, d.1 as int) && in_interior(d.2 as int, d.3 as int)
}

/// Portals placed from draws on the grid are at most five, at distinct
/// positions, each on a free cell and naming no other map; when every draw is
/// interior they form a generated portal set.
pub proof fn lemma_portals_from(m: Seq<Vec<u8>>, draws: Seq<PortalDraw>)
    requires
        map_wf(m),
        forall|i: int| 0 <= i < draws.len() ==> in_grid(#[trigger] draws[i].0 as int, draws[i].1 as int),
    ensures
        portals_from(m, draws).len() <= 5,
        distinct_positions(portals_from(m, draws)),
        forall|i: int|
            0 <= i < portals_from(m, draws).len() ==> cell(m, #[trigger] portals_from(m, draws)[i].x as int, portals_from(m, draws)[i].y as int) == 0,
        (forall|i: int| 0 <= i < draws.len() ==> draw_interior(#[trigger] draws[i])) ==> is_generated_portal_set(
            m,
            portals_from(m, draws),
        ),
    decreases draws.len(),
{
    if draws.len() > 0 {
        let init = draws.drop_last();
        assert forall|i: int| 0 <= i < init.len() implies in_grid(#[trigger] init[i].0 as int, init[i].1 as int) by {
            assert(init[i] == draws[i]);
        }
        lemma_portals_from(m, init);
        let placed = portals_from(m, init);
        let d = draws.last();
        let s = portals_from(m, draws);
        if accepts(m, placed, d.0 as int, d.1 as int) {
            assert(s == placed.push(portal_of(d)));
            assert forall|i: int, j: int|
                0 <= i < j < s.len() implies !(#[trigger] s[i].x == #[trigger] s[j].x && s[i].y == s[j].y) by {
                if j == placed.len() {
                    assert(!is_at(placed, i, d.0 as int, d.1 as int));
                } else {
                    assert(s[i] == placed[i]);
                    assert(s[j] == placed[j]);
                }
            }
            assert forall|i: int| 0 <= i < s.len() implies cell(m, #[trigger] s[i].x as int, s[i].y as int) == 0 by {
                if i < placed.len() {
                    assert(s[i] == placed[i]);
                }
            }
            if forall|i: int| 0 <= i < draws.len() ==> draw_interior(#[trigger] draws[i]) {
                assert forall|i: int| 0 <= i < init.len() implies draw_interior(#[trigger] init[i]) by {
                    assert(init[i] == draws[i]);
                }
                assert(draw_interior(draws[draws.len() - 1]));
                assert forall|i: int| 0 <= i < s.len() implies is_generated_portal(m, #[trigger] s[i]) by {
                    if i < placed.len() {
                        assert(s[i] == placed[i]);
                    }
                }
            }
        } else {
            if forall|i: int| 0 <= i < draws.len() ==> draw_interior(#[trigger] draws[i]) {
                assert forall|i: int| 0 <= i < init.len() implies draw_interior(#[trigger] init[i]) by {
                    assert(init[i] == draws[i]);
                }
            }
        }
    }
}

/// Places portals on `map` from `draws`, in order: a draw becomes a portal at
/// its position, leading to its destination, when fewer than five are placed,
/// its cell is free and no portal stands there yet.
pub fn place_interactables(map: &Vec<Vec<u8>>, draws: &Vec<PortalDraw>) -> (r: Vec<InteractablePoint>)
    requires
        map_wf(map@),
        forall|i: int| 0 <= i < draws@.len() ==> in_grid(#[trigger] draws@[i].0 as int, draws@[i].1 as int),
    ensures
        r@ == portals_from(map@, draws@),
        r@.len() <= 5,
        distinct_positions(r@),
        forall|i: int| 0 <= i < r@.len() ==> cell(map@, #[trigger] r@[i].x as int, r@[i].y as int) == 0,
{
    let mut interactables: Vec<InteractablePoint> = Vec::new();
    let mut k: usize = 0;
    while k < draws.len()
        invariant
            k <= draws@.len(),
            map_wf(map@),
            forall|i: int| 0 <= i < draws@.len() ==> in_grid(#[trigger] draws@[i].0 as int, draws@[i].1 as int),
            interactables@ == portals_from(map@, draws@.subrange(0, k as int)),
        decreases draws@.len() - k,
    {
        let (x, y, dest_x, dest_y) = draws[k];
        proof {
            assert(in_grid(draws@[k as int].0 as int, draws@[k as int].1 as int));
            let next = draws@.subrange(0, k as int + 1);
            assert(next.drop_last() =~= draws@.subrange(0, k as int));
            assert(next.last() == draws@[k as int]);
        }
        if interactables.len() < 5 {
            let map_x = (x - GRID_MIN) as usize;
            let map_y = (GRID_MAX - y) as usize;
            if map[map_y][map_x] == 0 && position_of(&interactables, x, y).is_none() {
                interactables.push(
                    InteractablePoint {
                        x,
                        y,
                        destination_map: None,
                        destination_position: Some((dest_x, dest_y)),
                    },
                );
            }
        }
        k = k + 1;
    }
    proof {
        assert(draws@.subrange(0, draws@.len() as int) =~= draws@);
        lemma_portals_from(map@, draws@);
    }
    interactables
}

/// Whether `s` are the portals placed on `m` from some 1000 interior draws, as
/// `generate_interactables` draws them.
pub open spec fn is_drawn_portal_set(m: Seq<Vec<u8>>, s: Seq<InteractablePoint>) -> bool {
    exists|draws: Seq<PortalDraw>|
        #![trigger portals_from(m, draws)]
        draws.len() == 1000 && (forall|i: int| 0 <= i < draws.len() ==> draw_interior(#[trigger] draws[i]))
            && s == portals_from(m, draws)
}

/// Places up to five portals on free interior cells of `map`, at distinct
/// positions, each leading to a random interior position: 1000 random draws
/// are made and handed to `place_interactables`, so fewer than five may come back.
pub fn generate_interactables(map: &Vec<Vec<u8>>) -> (r: Vec<InteractablePoint>)
    requires
        map_wf(map@),
    ensures
        is_generated_portal_set(map@, r@),
        is_drawn_portal_set(map@, r@),
{
    let mut rng = rand::thread_rng();
    let mut draws: Vec<PortalDraw> = Vec::new();
    let mut attempts: usize = 0;
    while attempts < 1000
        invariant
            attempts <= 1000,
            draws@.len() == attempts,
            forall|i: int| 0 <= i < draws@.len() ==> draw_interior(#[trigger] draws@[i]),
        decreases 1000 - attempts,
    {
        let x = gen_range_i32(&mut rng, GRID_MIN + 1, GRID_MAX);
        let y = gen_range_i32(&mut rng, GRID_MIN + 1, GRID_MAX);
        let dest_x = gen_range_i32(&mut rng, GRID_MIN + 1, GRID_MAX);
        let dest_y = gen_range_i32(&mut rng, GRID_MIN + 1, GRID_MAX);
        let ghost before = draws@;
        draws.push((x, y, dest_x, dest_y));
        proof {
            assert forall|i: int| 0 <= i < draws@.len() implies draw_interior(#[trigger] draws@[i]) by {
                if i < before.len() {
                    assert(draws@[i] == before[i]);
                }
            }
        }
        attempts = attempts + 1;
    }
    proof {
        assert forall|i: int| 0 <= i < draws@.len() implies in_grid(#[trigger] draws@[i].0 as int, draws@[i].1 as int) by {
            assert(draw_interior(draws@[i]));
        }
    }
    let r = place_interactables(map, &draws);
    proof {
        lemma_portals_from(map@, draws@);
        assert(r@ == portals_from(map@, draws@));
    }
    r
}

} // verus!
