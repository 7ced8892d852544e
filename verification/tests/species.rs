use sandspiel::cell::{Cell, Wind};
use sandspiel::species::construction::update_cement;
use sandspiel::species::creatures::{update_ant, update_fish};
use sandspiel::species::explosives::{update_nitro, update_thermite, update_tnt};
use sandspiel::species::magical::{update_magnet, update_shield};
use sandspiel::species::metals::update_gold;
use sandspiel::species::misc::{update_domino, update_spring};
use sandspiel::species::tech::update_laser;
use sandspiel::species::{may_update, Species, SPECIES_COUNT};
use sandspiel::utils::{adjacency_left, adjacency_right, join_dy_dx, split_dy_dx};
use sandspiel::world::{SandApi, Universe};

fn place(u: Universe, x: i32, y: i32, cell: Cell) -> Universe {
    let mut api = SandApi::new(u, x, y);
    api.set(0, 0, cell);
    api.into_universe()
}

fn at(u: &Universe, x: i32, y: i32) -> Cell {
    u.cells()[(x * u.height() + y) as usize]
}

fn cell(species: Species) -> Cell {
    Cell { species, ra: 100, rb: 0, clock: 0 }
}

fn turn(u: Universe, x: i32, y: i32, rule: fn(Cell, &mut SandApi), c: Cell) -> Universe {
    let u = place(u, x, y, c);
    let mut api = SandApi::new(u, x, y);
    rule(c, &mut api);
    api.into_universe()
}

#[test]
fn gold_falls_into_empty_space() {
    let u = turn(Universe::new(3, 3), 1, 0, update_gold, cell(Species::Gold));
    assert_eq!(at(&u, 1, 0).species, Species::Empty);
    assert_eq!(at(&u, 1, 1), Cell { species: Species::Gold, ra: 100, rb: 0, clock: 1 });
}

#[test]
fn gold_sinks_through_water() {
    let u = place(Universe::new(3, 3), 1, 1, cell(Species::Water));
    let u = turn(u, 1, 0, update_gold, cell(Species::Gold));
    assert_eq!(at(&u, 1, 0).species, Species::Water);
    assert_eq!(at(&u, 1, 1).species, Species::Gold);
}

#[test]
fn gold_rests_on_stone() {
    let u = place(Universe::new(3, 3), 1, 1, cell(Species::Stone));
    let u = turn(u, 1, 0, update_gold, cell(Species::Gold));
    assert_eq!(at(&u, 1, 0).species, Species::Gold);
    assert_eq!(at(&u, 1, 1).species, Species::Stone);
}

#[test]
fn laser_fires_energy_upwards_and_fades() {
    let u = turn(Universe::new(3, 3), 1, 1, update_laser, cell(Species::Laser));
    assert_eq!(at(&u, 1, 0), Cell { species: Species::Energy, ra: 200, rb: 0, clock: 1 });
    assert_eq!(at(&u, 1, 1).ra, 98);
}

#[test]
fn laser_turns_with_its_register() {
    let laser = Cell { species: Species::Laser, ra: 100, rb: 6, clock: 0 };
    let u = turn(Universe::new(3, 3), 1, 1, update_laser, laser);
    assert_eq!(at(&u, 2, 1).species, Species::Energy);
    assert_eq!(at(&u, 1, 0).species, Species::Empty);
}

#[test]
fn laser_burns_through_but_not_walls() {
    let u = place(Universe::new(3, 3), 1, 0, cell(Species::Sand));
    let u = turn(u, 1, 1, update_laser, cell(Species::Laser));
    assert_eq!(at(&u, 1, 0), Cell { species: Species::Fire, ra: 150, rb: 0, clock: 1 });
    let u = turn(Universe::new(3, 3), 1, 0, update_laser, Cell { species: Species::Laser, ra: 4, rb: 0, clock: 0 });
    assert_eq!(at(&u, 1, 0).species, Species::Empty);
    assert!(u.cells().iter().all(|c| c.species == Species::Empty));
}

#[test]
fn shield_ages_and_expires() {
    let u = turn(Universe::new(3, 3), 1, 1, update_shield, Cell { species: Species::Shield, ra: 100, rb: 10, clock: 0 });
    assert_eq!(at(&u, 1, 1).rb, 11);
    let u = turn(Universe::new(3, 3), 1, 1, update_shield, Cell { species: Species::Shield, ra: 100, rb: 100, clock: 0 });
    assert_eq!(at(&u, 1, 1).species, Species::Empty);
}

#[test]
fn cement_cures_into_concrete() {
    let u = turn(Universe::new(3, 3), 1, 2, update_cement, Cell { species: Species::Cement, ra: 77, rb: 5, clock: 0 });
    assert_eq!(at(&u, 1, 2).rb, 4);
    let u = turn(Universe::new(3, 3), 1, 2, update_cement, Cell { species: Species::Cement, ra: 77, rb: 1, clock: 0 });
    assert_eq!(at(&u, 1, 2), Cell { species: Species::Concrete, ra: 77, rb: 0, clock: 1 });
}

#[test]
fn magnet_pulls_iron_one_step() {
    let u = place(Universe::new(5, 5), 4, 2, cell(Species::Iron));
    let u = place(u, 0, 0, cell(Species::Stone));
    let u = turn(u, 2, 2, update_magnet, cell(Species::Magnet));
    assert_eq!(at(&u, 4, 2).species, Species::Empty);
    assert_eq!(at(&u, 3, 2).species, Species::Iron);
    assert_eq!(at(&u, 0, 0).species, Species::Stone);
    assert_eq!(at(&u, 2, 2).species, Species::Magnet);
}

#[test]
fn tnt_explodes_under_pressure() {
    let mut u = Universe::new(5, 5);
    u.set_wind(2, 2, Wind { dx: 126, dy: 126, pressure: 200, density: 0 });
    let u = turn(u, 2, 2, update_tnt, cell(Species::TNT));
    assert_eq!(at(&u, 2, 2).species, Species::Empty);
    assert_eq!(u.burns()[12], Wind { dx: 60, dy: 60, pressure: 80, density: 60 });
    assert!(u.cells().iter().all(|c| c.species == Species::Empty));
}

#[test]
fn nitro_blast_stays_within_two_steps() {
    let mut u = Universe::new(7, 7);
    u.paint(3, 3, 20, Species::Sand);
    let before: Vec<Cell> = u.cells().to_vec();
    let u = turn(u, 3, 3, update_nitro, cell(Species::Nitro));
    assert_eq!(at(&u, 3, 3).species, Species::Empty);
    for x in 0..7 {
        for y in 0..7 {
            let c = at(&u, x, y);
            if (x - 3).abs() <= 2 && (y - 3).abs() <= 2 {
                if (x, y) != (3, 3) {
                    assert!(c.species == Species::Sand || c == Cell { species: Species::Fire, ra: 150, rb: 0, clock: 1 });
                }
            } else {
                assert_eq!(c, before[(x * 7 + y) as usize]);
            }
        }
    }
    for (i, w) in u.burns().iter().enumerate() {
        if i != 24 {
            assert_eq!(*w, Wind::zero());
        }
    }
}

#[test]
fn burning_thermite_melts_down_and_burns_out() {
    let u = place(Universe::new(3, 3), 1, 2, cell(Species::Sand));
    let u = turn(u, 1, 1, update_thermite, Cell { species: Species::Thermite, ra: 90, rb: 2, clock: 0 });
    assert_eq!(at(&u, 1, 2), Cell { species: Species::Lava, ra: 200, rb: 0, clock: 1 });
    assert_eq!(at(&u, 1, 1).rb, 1);
    assert_eq!(u.burns()[4], Wind { dx: 0, dy: 0, pressure: 0, density: 200 });
    let u = turn(Universe::new(3, 3), 1, 1, update_thermite, Cell { species: Species::Thermite, ra: 90, rb: 1, clock: 0 });
    assert_eq!(at(&u, 1, 1).species, Species::Empty);
}

#[test]
fn falling_domino_counts_down() {
    let u = turn(Universe::new(3, 3), 1, 1, update_domino, Cell { species: Species::Domino, ra: 100, rb: 5, clock: 0 });
    assert_eq!(at(&u, 1, 1).rb, 4);
    let u = turn(Universe::new(3, 3), 1, 1, update_domino, Cell { species: Species::Domino, ra: 100, rb: 1, clock: 0 });
    assert_eq!(at(&u, 1, 1).species, Species::Empty);
}

#[test]
fn fish_out_of_water_suffocates() {
    let u = turn(Universe::new(3, 3), 1, 1, update_fish, cell(Species::Fish));
    assert_eq!(at(&u, 1, 1).species, Species::Fish);
    assert_eq!(at(&u, 1, 1).ra, 95);
}

#[test]
fn starving_ant_dies() {
    let u = turn(Universe::new(3, 3), 1, 1, update_ant, Cell { species: Species::Ant, ra: 3, rb: 0, clock: 0 });
    assert!(u.cells().iter().all(|c| c.species == Species::Empty));
}

#[test]
fn spring_launches_what_lands_on_it() {
    let u = place(Universe::new(3, 4), 1, 2, Cell { species: Species::Sand, ra: 33, rb: 4, clock: 0 });
    let u = turn(u, 1, 3, update_spring, cell(Species::Spring));
    assert_eq!(at(&u, 1, 2).species, Species::Empty);
    assert_eq!(at(&u, 1, 1), Cell { species: Species::Sand, ra: 33, rb: 0, clock: 1 });
}

#[test]
fn cell_update_follows_its_species() {
    let u = Universe::new(3, 3);
    let gold = cell(Species::Gold);
    let mut api = SandApi::new(u, 1, 0);
    api.set(0, 0, gold);
    gold.update(&mut api);
    let u = api.into_universe();
    assert_eq!(at(&u, 1, 1).species, Species::Gold);
    let mut api = SandApi::new(u, 0, 0);
    Species::Empty.update(cell(Species::Empty), &mut api);
    Species::Wall.update(cell(Species::Wall), &mut api);
    let u = api.into_universe();
    assert_eq!(at(&u, 1, 1).species, Species::Gold);
    assert_eq!(u.cells().iter().filter(|c| c.species != Species::Empty).count(), 1);
}

#[test]
fn species_numbers_round_trip() {
    assert_eq!(SPECIES_COUNT, 136);
    for n in 0..=255u8 {
        match Species::from_u8(n) {
            Some(s) => {
                assert!(n < SPECIES_COUNT);
                assert_eq!(s.to_u8(), n);
            }
            None => assert!(n >= SPECIES_COUNT),
        }
    }
    assert_eq!(Species::Sand.to_u8(), 2);
    assert_eq!(Species::from_u8(135), Some(Species::Domino));
}

#[test]
fn turn_limits() {
    assert!(!may_update(Species::Mite, Cell { species: Species::Mite, ra: 10, rb: 5, clock: 0 }));
    assert!(may_update(Species::Mite, Cell { species: Species::Mite, ra: 30, rb: 5, clock: 0 }));
    assert!(!may_update(Species::Cloner, Cell { species: Species::Cloner, ra: 0, rb: 136, clock: 0 }));
    assert!(may_update(Species::Rocket, Cell { species: Species::Rocket, ra: 105, rb: 2, clock: 0 }));
    assert!(!may_update(Species::Rocket, Cell { species: Species::Rocket, ra: 80, rb: 2, clock: 0 }));
    assert!(may_update(Species::Sand, cell(Species::Sand)));
}

#[test]
fn adjacency_turns_around_the_ring() {
    assert_eq!(adjacency_right((0, 1)), (1, 1));
    assert_eq!(adjacency_left((0, 1)), (-1, 1));
    assert_eq!(adjacency_right((-1, 1)), (0, 1));
    assert_eq!(adjacency_right((0, 0)), (0, 0));
    let dirs = [(0, 1), (1, 1), (1, 0), (1, -1), (0, -1), (-1, -1), (-1, 0), (-1, 1)];
    for d in dirs {
        assert_eq!(adjacency_left(adjacency_right(d)), d);
        let mut e = d;
        for _ in 0..8 {
            e = adjacency_right(e);
        }
        assert_eq!(e, d);
    }
}

#[test]
fn steps_pack_into_one_number() {
    assert_eq!(join_dy_dx(1, -1), 6);
    assert_eq!(join_dy_dx(-1, -1), 0);
    assert_eq!(split_dy_dx(6), (1, -1));
    for dx in -1..=1 {
        for dy in -1..=1 {
            assert_eq!(split_dy_dx(join_dy_dx(dx, dy)), (dx, dy));
        }
    }
}
