use sandspiel::cell::Cell;
use sandspiel::species::construction::update_cement;
use sandspiel::species::creatures::update_fish;
use sandspiel::species::explosives::update_bomb;
use sandspiel::species::liquid::update_water;
use sandspiel::species::organic::{update_plant, update_wood};
use sandspiel::species::gases2::update_plasma;
use sandspiel::species::liquid::update_acid;
use sandspiel::species::liquids2::update_honey;
use sandspiel::species::magical::update_antigravity;
use sandspiel::species::misc::{update_balloon, update_spring};
use sandspiel::species::new::update_snow;
use sandspiel::species::Species;
use sandspiel::world::{SandApi, Universe};

fn place(u: Universe, x: i32, y: i32, cell: Cell) -> Universe {
    let mut api = SandApi::new(u, x, y);
    api.set(0, 0, cell);
    api.into_universe()
}

fn at(u: &Universe, x: i32, y: i32) -> Cell {
    u.cells()[(x * u.height() + y) as usize]
}

fn cell(species: Species) -> Cell {
    Cell { species, ra: 100, rb: 0, clock: 0 }
}

fn count(u: &Universe, species: Species) -> usize {
    u.cells().iter().filter(|c| c.species == species).count()
}

fn find(u: &Universe, species: Species) -> Option<(i32, i32)> {
    for x in 0..u.width() {
        for y in 0..u.height() {
            if at(u, x, y).species == species {
                return Some((x, y));
            }
        }
    }
    None
}

/// Fills every cell of a `w` by `h` universe with `fill`, then puts `c` at `(x, y)`.
fn ringed(w: i32, h: i32, fill: Species, x: i32, y: i32, c: Cell) -> Universe {
    let mut u = Universe::new(w, h);
    for i in 0..w {
        for j in 0..h {
            u = place(u, i, j, cell(fill));
        }
    }
    place(u, x, y, c)
}

/// Runs the turn of the first cell of `species` up to `turns` times, while there is one.
fn run(mut u: Universe, species: Species, rule: fn(Cell, &mut SandApi), turns: usize) -> Universe {
    for _ in 0..turns {
        match find(&u, species) {
            Some((x, y)) => {
                let c = at(&u, x, y);
                let mut api = SandApi::new(u, x, y);
                rule(c, &mut api);
                u = api.into_universe();
            }
            None => break,
        }
    }
    u
}

#[test]
fn untriggered_bomb_stays_put() {
    let u = place(Universe::new(1, 2), 0, 0, cell(Species::Bomb));
    let u = run(u, Species::Bomb, update_bomb, 1);
    assert_eq!(at(&u, 0, 0).species, Species::Bomb);
    assert_eq!(at(&u, 0, 1), Cell::empty());
}

#[test]
fn spring_keeps_a_blocked_particle() {
    let sand = Cell { species: Species::Sand, ra: 100, rb: 0, clock: 0 };
    let u = place(Universe::new(1, 3), 0, 0, sand);
    let u = place(u, 0, 1, sand);
    let u = place(u, 0, 2, cell(Species::Spring));
    let u = run(u, Species::Spring, update_spring, 1);
    assert_eq!(count(&u, Species::Sand), 2);
    assert_eq!(at(&u, 0, 2).species, Species::Spring);
}

#[test]
fn deflated_balloon_pops_in_fire() {
    let balloon = Cell { species: Species::Balloon, ra: 10, rb: 0, clock: 0 };
    let u = ringed(3, 3, Species::Fire, 1, 1, balloon);
    let u = run(u, Species::Balloon, update_balloon, 200);
    assert_eq!(count(&u, Species::Balloon), 0);
    assert_eq!(at(&u, 1, 1).species, Species::Fire);
}

#[test]
fn acid_does_not_eat_shields() {
    let u = ringed(3, 3, Species::Shield, 1, 1, cell(Species::Acid));
    let u = run(u, Species::Acid, update_acid, 50);
    assert_eq!(count(&u, Species::Shield), 8);
    assert_eq!(at(&u, 1, 1).species, Species::Acid);
}

#[test]
fn plasma_does_not_burn_shields() {
    let u = ringed(3, 3, Species::Shield, 1, 1, cell(Species::PlasmaGas));
    let u = run(u, Species::PlasmaGas, update_plasma, 50);
    assert_eq!(count(&u, Species::Shield), 8);
    assert_eq!(count(&u, Species::Fire), 0);
}

#[test]
fn ants_eat_honey() {
    let u = ringed(3, 3, Species::Ant, 1, 1, cell(Species::Honey));
    let u = run(u, Species::Honey, update_honey, 2000);
    assert_eq!(count(&u, Species::Honey), 0);
    assert_eq!(count(&u, Species::Ant), 8);
}

#[test]
fn antigravity_lifts_without_copying() {
    let sand = Cell { species: Species::Sand, ra: 100, rb: 0, clock: 0 };
    let mut u = Universe::new(3, 3);
    for x in 0..3 {
        u = place(u, x, 1, sand);
    }
    let u = place(u, 1, 2, cell(Species::Antigravity));
    let u = run(u, Species::Antigravity, update_antigravity, 1);
    assert_eq!(count(&u, Species::Sand), 3);
    assert_eq!(count(&u, Species::Antigravity), 1);
    let lifted = (0..3).filter(|&x| at(&u, x, 0).species == Species::Sand).count();
    assert_eq!(lifted, 1);
}

#[test]
fn snow_floats_on_water() {
    let u = place(Universe::new(1, 2), 0, 0, cell(Species::Snow));
    let u = place(u, 0, 1, cell(Species::Water));
    let u = run(u, Species::Snow, update_snow, 20);
    assert_eq!(at(&u, 0, 0).species, Species::Snow);
    assert_eq!(at(&u, 0, 1).species, Species::Water);
}

#[test]
fn seeded_universes_run_alike() {
    let mut a = Universe::new(6, 6);
    let mut b = Universe::new(6, 6);
    for u in [&mut a, &mut b] {
        u.paint(3, 1, 4, Species::Sand);
        u.paint(2, 4, 2, Species::Water);
        u.reset();
        u.paint(3, 1, 4, Species::Sand);
        for _ in 0..10 {
            u.tick();
        }
    }
    assert_eq!(a.cells(), b.cells());
}

#[test]
fn spent_wood_leaves_ash() {
    let wood = Cell { species: Species::Wood, ra: 77, rb: 1, clock: 0 };
    let u = place(Universe::new(3, 3), 1, 1, wood);
    let u = run(u, Species::Wood, update_wood, 1);
    assert_eq!(at(&u, 1, 1), Cell { species: Species::Ash, ra: 77, rb: 0, clock: 1 });
    assert_eq!(count(&u, Species::Empty), 8);
}

#[test]
fn burnt_out_plant_turns_to_ash() {
    let plant = Cell { species: Species::Plant, ra: 100, rb: 1, clock: 0 };
    let sand = Cell { species: Species::Sand, ra: 100, rb: 0, clock: 0 };
    let u = place(Universe::new(1, 2), 0, 1, sand);
    let before = at(&u, 0, 1);
    let u = place(u, 0, 0, plant);
    let u = run(u, Species::Plant, update_plant, 1);
    assert_eq!(at(&u, 0, 0), Cell { species: Species::Ash, ra: 100, rb: 0, clock: 1 });
    assert_eq!(at(&u, 0, 1), before);
}

#[test]
fn stranded_fish_dies_when_exhausted() {
    let fish = Cell { species: Species::Fish, ra: 3, rb: 0, clock: 0 };
    let u = place(Universe::new(1, 1), 0, 0, fish);
    let u = run(u, Species::Fish, update_fish, 1);
    assert_eq!(at(&u, 0, 0), Cell { species: Species::Empty, ra: 0, rb: 0, clock: 1 });
}

#[test]
fn stranded_fish_tires() {
    let fish = Cell { species: Species::Fish, ra: 20, rb: 0, clock: 0 };
    let u = place(Universe::new(1, 1), 0, 0, fish);
    let u = run(u, Species::Fish, update_fish, 1);
    assert_eq!(at(&u, 0, 0), Cell { species: Species::Fish, ra: 15, rb: 0, clock: 1 });
}

#[test]
fn wet_cement_sets_after_thirty_turns() {
    let cement = Cell { species: Species::Cement, ra: 42, rb: 30, clock: 0 };
    let u = place(Universe::new(1, 1), 0, 0, cement);
    let u = run(u, Species::Cement, update_cement, 29);
    assert_eq!(at(&u, 0, 0).species, Species::Cement);
    assert_eq!(at(&u, 0, 0).rb, 1);
    assert_eq!(at(&u, 0, 0).ra, 42);
    let u = run(u, Species::Cement, update_cement, 1);
    assert_eq!(at(&u, 0, 0), Cell { species: Species::Concrete, ra: 42, rb: 0, clock: 1 });
}

#[test]
fn water_turns_keep_the_counts() {
    let mut u = Universe::new(5, 5);
    for x in 0..5 {
        u = place(u, x, 0, cell(Species::Water));
        u = place(u, x, 4, cell(Species::Oil));
    }
    u = place(u, 2, 2, cell(Species::Sand));
    for _ in 0..40 {
        for x in 0..5 {
            for y in 0..5 {
                let c = at(&u, x, y);
                if c.species == Species::Water {
                    let mut api = SandApi::new(u, x, y);
                    update_water(c, &mut api);
                    u = api.into_universe();
                }
            }
        }
    }
    assert_eq!(count(&u, Species::Water), 5);
    assert_eq!(count(&u, Species::Oil), 5);
    assert_eq!(count(&u, Species::Sand), 1);
    assert_eq!(count(&u, Species::Empty), 14);
}
