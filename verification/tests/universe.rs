use sandspiel::cell::{Cell, Wind};
use sandspiel::species::Species;
use sandspiel::world::{wind_threshold, SandApi, Universe, UNDO_LIMIT};

const STILL: Wind = Wind { dx: 126, dy: 126, pressure: 0, density: 0 };

fn still_air(u: &mut Universe) {
    for x in 0..u.width() {
        for y in 0..u.height() {
            u.set_wind(x, y, STILL);
        }
    }
}

fn place(u: Universe, x: i32, y: i32, cell: Cell) -> Universe {
    let mut api = SandApi::new(u, x, y);
    api.set(0, 0, cell);
    api.into_universe()
}

fn at(u: &Universe, x: i32, y: i32) -> Cell {
    u.cells()[(x * u.height() + y) as usize]
}

fn cell(species: Species) -> Cell {
    Cell { species, ra: 100, rb: 0, clock: 0 }
}

#[test]
fn new_universe_is_empty_with_still_history() {
    let u = Universe::new(4, 3);
    assert_eq!(u.width(), 4);
    assert_eq!(u.height(), 3);
    assert_eq!(u.cells().len(), 12);
    assert!(u.cells().iter().all(|c| *c == Cell::empty()));
    assert!(u.winds().iter().all(|w| *w == Wind::zero()));
    assert!(u.burns().iter().all(|w| *w == Wind::zero()));
}

#[test]
fn zero_sized_universe_ticks() {
    let mut u = Universe::new(0, 5);
    u.tick();
    u.paint(0, 0, 4, Species::Sand);
    assert_eq!(u.cells().len(), 0);
}

#[test]
fn reset_empties_every_cell() {
    let mut u = Universe::new(6, 6);
    u.paint(3, 3, 4, Species::Sand);
    assert!(u.cells().iter().any(|c| c.species == Species::Sand));
    u.reset();
    assert!(u.cells().iter().all(|c| *c == Cell::empty()));
    assert_eq!(u.cells().len(), 36);
}

#[test]
fn undo_restores_the_saved_cells() {
    let mut u = Universe::new(8, 8);
    u.paint(2, 2, 2, Species::Water);
    let saved: Vec<Cell> = u.cells().to_vec();
    u.push_undo();
    u.paint(5, 5, 3, Species::Stone);
    assert_ne!(u.cells().to_vec(), saved);
    u.pop_undo();
    assert_eq!(u.cells().to_vec(), saved);
}

#[test]
fn undo_without_history_changes_nothing() {
    let mut u = Universe::new(5, 5);
    u.paint(2, 2, 2, Species::Sand);
    let before: Vec<Cell> = u.cells().to_vec();
    u.pop_undo();
    assert_eq!(u.cells().to_vec(), before);
}

#[test]
fn undo_history_keeps_at_most_the_limit() {
    let mut u = Universe::new(5, 5);
    for _ in 0..(UNDO_LIMIT + 10) {
        u.push_undo();
    }
    u.paint(2, 2, 2, Species::Sand);
    for _ in 0..UNDO_LIMIT {
        u.pop_undo();
        assert!(u.cells().iter().all(|c| *c == Cell::empty()));
        u.paint(2, 2, 2, Species::Sand);
    }
    let painted: Vec<Cell> = u.cells().to_vec();
    u.pop_undo();
    assert_eq!(u.cells().to_vec(), painted);
}

#[test]
fn flush_forgets_the_history() {
    let mut u = Universe::new(5, 5);
    u.push_undo();
    u.paint(2, 2, 2, Species::Sand);
    let painted: Vec<Cell> = u.cells().to_vec();
    u.flush_undos();
    u.pop_undo();
    assert_eq!(u.cells().to_vec(), painted);
}

#[test]
fn paint_fills_a_disc_of_fresh_cells() {
    let mut u = Universe::new(10, 10);
    u.paint(5, 5, 3, Species::Sand);
    for x in 0..10 {
        for y in 0..10 {
            let (dx, dy) = (x - 5, y - 5);
            let c = at(&u, x, y);
            if dx * dx + dy * dy <= 2 {
                assert_eq!(c.species, Species::Sand);
                assert_eq!(c.rb, 0);
                assert_eq!(c.clock, 0);
                // 60 + size 3 + offset below 30 + glow 60 of generation 0
                assert!(123 <= c.ra && c.ra < 153, "ra {}", c.ra);
            } else {
                assert_eq!(c, Cell::empty());
            }
        }
    }
}

#[test]
fn paint_only_covers_empty_cells_unless_erasing() {
    let mut u = Universe::new(7, 7);
    u.paint(3, 3, 1, Species::Sand);
    assert_eq!(at(&u, 3, 3).species, Species::Sand);
    u.paint(3, 3, 3, Species::Water);
    assert_eq!(at(&u, 3, 3).species, Species::Sand);
    assert_eq!(at(&u, 3, 4).species, Species::Water);
    u.paint(3, 3, 3, Species::Empty);
    assert_eq!(at(&u, 3, 3).species, Species::Empty);
    assert_eq!(at(&u, 3, 4).species, Species::Empty);
}

#[test]
fn paint_is_clipped_at_the_edges() {
    let mut u = Universe::new(4, 4);
    u.paint(0, 0, 3, Species::Stone);
    let stones = u.cells().iter().filter(|c| c.species == Species::Stone).count();
    assert_eq!(stones, 4);
    assert_eq!(at(&u, 0, 0).species, Species::Stone);
    assert_eq!(at(&u, 1, 1).species, Species::Stone);
    let mut far = Universe::new(4, 4);
    far.paint(100, -100, 5, Species::Stone);
    assert!(far.cells().iter().all(|c| *c == Cell::empty()));
}

#[test]
fn negative_brush_sizes() {
    let mut u = Universe::new(5, 5);
    u.paint(2, 2, -1, Species::Sand);
    assert_eq!(u.cells().iter().filter(|c| c.species == Species::Sand).count(), 1);
    let mut v = Universe::new(5, 5);
    v.paint(2, 2, -4, Species::Sand);
    assert!(v.cells().iter().all(|c| *c == Cell::empty()));
}

#[test]
fn tick_advances_the_generation_by_two() {
    let mut u = Universe::new(3, 3);
    still_air(&mut u);
    u.tick();
    u.paint(1, 1, 1, Species::Wall);
    assert_eq!(at(&u, 1, 1).clock, 2);
    u.tick();
    u.paint(0, 0, 1, Species::Wall);
    assert_eq!(at(&u, 0, 0).clock, 4);
}

#[test]
fn tick_keeps_an_empty_universe_empty() {
    let mut u = Universe::new(6, 4);
    for _ in 0..5 {
        u.tick();
    }
    assert!(u.cells().iter().all(|c| *c == Cell::empty()));
}

#[test]
fn sand_falls_one_step_per_tick() {
    let mut u = Universe::new(3, 4);
    still_air(&mut u);
    let u2 = place(u, 1, 0, cell(Species::Sand));
    let mut u = u2;
    u.tick();
    assert_eq!(at(&u, 1, 0).species, Species::Empty);
    assert_eq!(at(&u, 1, 1).species, Species::Sand);
    u.tick();
    assert_eq!(at(&u, 1, 2).species, Species::Sand);
    u.tick();
    u.tick();
    assert_eq!(at(&u, 1, 3).species, Species::Sand);
    assert_eq!(u.cells().iter().filter(|c| c.species == Species::Sand).count(), 1);
}

#[test]
fn walls_never_move() {
    let mut u = Universe::new(3, 3);
    let mut u = {
        still_air(&mut u);
        place(u, 1, 1, cell(Species::Wall))
    };
    for _ in 0..4 {
        u.tick();
    }
    assert_eq!(at(&u, 1, 1).species, Species::Wall);
}

#[test]
fn still_air_moves_nothing() {
    let u = Universe::new(3, 3);
    let mut api = SandApi::new(u, 1, 1);
    let sand = cell(Species::Sand);
    Universe::blow_wind(sand, STILL, &mut api);
    assert_eq!(api.universe().cells(), Universe::new(3, 3).cells());
}

#[test]
fn strong_wind_pushes_sideways() {
    let mut u = place(Universe::new(3, 3), 1, 1, cell(Species::Sand));
    u.set_wind(1, 1, Wind { dx: 126, dy: 126 + 100, pressure: 0, density: 0 });
    let wind = u.winds()[4];
    let mut api = SandApi::new(u, 1, 1);
    Universe::blow_wind(cell(Species::Sand), wind, &mut api);
    let u = api.into_universe();
    assert_eq!(at(&u, 1, 1).species, Species::Empty);
    assert_eq!(at(&u, 2, 1).species, Species::Sand);
}

#[test]
fn updraft_lifts_sand_two_steps() {
    let u = place(Universe::new(3, 5), 1, 3, cell(Species::Sand));
    let mut api = SandApi::new(u, 1, 3);
    Universe::blow_wind(cell(Species::Sand), Wind { dx: 126 - 100, dy: 126, pressure: 0, density: 0 }, &mut api);
    let u = api.into_universe();
    assert_eq!(at(&u, 1, 3).species, Species::Empty);
    assert_eq!(at(&u, 1, 1).species, Species::Sand);
}

#[test]
fn wind_does_not_move_heavy_cells() {
    let u = place(Universe::new(3, 3), 1, 1, cell(Species::Steel));
    let mut api = SandApi::new(u, 1, 1);
    Universe::blow_wind(cell(Species::Steel), Wind { dx: 126, dy: 126 + 90, pressure: 0, density: 0 }, &mut api);
    let u = api.into_universe();
    assert_eq!(at(&u, 1, 1).species, Species::Steel);
}

#[test]
fn fresh_cells_are_not_blown_again() {
    let u = Universe::new(3, 3);
    let fresh = Cell { species: Species::Sand, ra: 100, rb: 0, clock: 1 };
    let mut api = SandApi::new(u, 1, 1);
    api.set(0, 0, fresh);
    Universe::blow_wind(fresh, Wind { dx: 126, dy: 250, pressure: 0, density: 0 }, &mut api);
    let u = api.into_universe();
    assert_eq!(at(&u, 1, 1).species, Species::Sand);
}

#[test]
fn wind_thresholds() {
    assert_eq!(wind_threshold(Species::Empty), 200);
    assert_eq!(wind_threshold(Species::Sand), 30);
    assert_eq!(wind_threshold(Species::Helium), 2);
    assert_eq!(wind_threshold(Species::Steel), 95);
    assert_eq!(wind_threshold(Species::Domino), 70);
}

#[test]
fn off_grid_reads_as_a_wall_of_this_generation() {
    let u = Universe::new(2, 2);
    let mut api = SandApi::new(u, 0, 0);
    let c = api.get(-1, 0);
    assert_eq!(c, Cell { species: Species::Wall, ra: 0, rb: 0, clock: 0 });
    api.set(0, -2, cell(Species::Sand));
    assert_eq!(api.universe().cells(), Universe::new(2, 2).cells());
}

#[test]
fn set_stamps_the_next_clock() {
    let u = Universe::new(2, 2);
    let mut api = SandApi::new(u, 0, 0);
    api.set(1, 1, Cell { species: Species::Water, ra: 7, rb: 3, clock: 99 });
    let c = api.get(1, 1);
    assert_eq!(c, Cell { species: Species::Water, ra: 7, rb: 3, clock: 1 });
}

#[test]
fn random_draws_stay_in_range() {
    let u = Universe::new(3, 3);
    let mut api = SandApi::new(u, 1, 1);
    for _ in 0..200 {
        let r = api.rand_int(7);
        assert!((0..7).contains(&r));
        let d = api.rand_dir();
        assert!((-1..=1).contains(&d));
        let d2 = api.rand_dir_2();
        assert!(d2 == -1 || d2 == 1);
        let (vx, vy) = api.rand_vec_8();
        assert!((vx, vy) != (0, 0) && vx.abs() <= 1 && vy.abs() <= 1);
        let (wx, wy) = api.rand_vec();
        assert!(wx.abs() <= 1 && wy.abs() <= 1);
        let p = api.rand_product();
        assert!((0..100).contains(&p));
        assert!(api.once_in(1));
        let fresh = api.new_cell(Species::Seed);
        assert!(fresh.species == Species::Seed && (100..150).contains(&fresh.ra));
    }
}

#[test]
fn the_generator_is_seeded_the_same_way_every_time() {
    let mut a = SandApi::new(Universe::new(2, 2), 0, 0);
    let mut b = SandApi::new(Universe::new(2, 2), 0, 0);
    let xs: Vec<i32> = (0..20).map(|_| a.rand_int(1000)).collect();
    let ys: Vec<i32> = (0..20).map(|_| b.rand_int(1000)).collect();
    assert_eq!(xs, ys);
    assert!(xs.iter().any(|x| *x != xs[0]));
}

#[test]
fn cell_new_offsets_the_colour() {
    assert_eq!(Cell::new(Species::Sand, 7), Cell { species: Species::Sand, ra: 107, rb: 0, clock: 0 });
    assert_eq!(Cell::new(Species::Water, 49).ra, 149);
}

#[test]
fn cells_written_this_tick_skip_their_turn() {
    let u = Universe::new(3, 3);
    let mut api = SandApi::new(u, 1, 0);
    let fresh = Cell { species: Species::Sand, ra: 100, rb: 0, clock: 1 };
    api.set(0, 0, fresh);
    Universe::update_cell(fresh, &mut api);
    let u = api.into_universe();
    assert_eq!(at(&u, 1, 0).species, Species::Sand);
}
