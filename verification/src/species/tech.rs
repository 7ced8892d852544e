//! Devices: wire, circuit, battery, solar cell, laser and LED.

use super::Species;
use crate::cell::{Cell, Wind};
use crate::world::{
    bounds, draw_if, once, rvec, rvec8, sget, sset, sset_fluid, ssub, stay, wadd, Ctx, Draws, SandApi, Scene,
};
use vstd::prelude::*;

verus! {

/// Wire: energy or lightning at a random step is passed on as energy (with
/// the same `ra`) to the opposite step; fire or lava there melts the wire
/// into lava (`ra = 80`).
pub open spec fn wire_rule(c: Ctx, s: Scene, cell: Cell, ds: Draws) -> Scene {
    let v = rvec(ds, 0);
    let nbr = sget(c, s, v.0, v.1);
    let s1 = if nbr.species == Species::Energy || nbr.species == Species::Lightning {
        sset(c, s, -v.0, -v.1, Cell { species: Species::Energy, ra: nbr.ra, rb: 0, clock: 0 })
    } else {
        s
    };
    if nbr.species == Species::Fire || nbr.species == Species::Lava {
        stay(c, s1, Cell { species: Species::Lava, ra: 80, rb: 0, clock: 0 })
    } else {
        s1
    }
}

/// The level a circuit passes on for input energy `level`: doubled, at
/// most 250.
pub open spec fn amplified(level: u8) -> u8 {
    if 2 * level < 250 {
        (2 * level) as u8
    } else {
        250
    }
}

/// Circuit: energy at a random step is consumed and, when a random
/// neighbour is empty, passed on there amplified (see `amplified`); water
/// or acid at that step shorts the circuit into fire (`ra = 30`).
pub open spec fn circuit_rule(c: Ctx, s: Scene, cell: Cell, ds: Draws) -> Scene {
    let v = rvec(ds, 0);
    let nbr = sget(c, s, v.0, v.1);
    let s1 = if nbr.species == Species::Energy {
        let o = rvec8(ds, 1);
        let s0 = if sget(c, s, o.0, o.1).species == Species::Empty {
            sset(c, s, o.0, o.1, Cell { species: Species::Energy, ra: amplified(nbr.ra), rb: 0, clock: 0 })
        } else {
            s
        };
        sset(c, s0, v.0, v.1, Cell::empty())
    } else {
        s
    };
    if nbr.species == Species::Water || nbr.species == Species::Acid {
        stay(c, s1, Cell { species: Species::Fire, ra: 30, rb: 0, clock: 0 })
    } else {
        s1
    }
}

/// The charge of a battery at `ra` after taking in energy: up by 20
/// (wrapping past 255), at most 250.
pub open spec fn charged(ra: u8) -> u8 {
    if wadd(ra, 20) < 250 {
        wadd(ra, 20)
    } else {
        250
    }
}

/// Battery: energy at a random step charges it (see `charged`) while its
/// charge `ra` is below 250; with charge above 50 it releases energy
/// (`ra = 50`) into that step when empty one time in 10, dropping its
/// charge by 30; fire or lava there makes it burst into fire (`ra = 200`);
/// otherwise it loses one unit of charge one time in 100.
pub open spec fn battery_rule(c: Ctx, s: Scene, cell: Cell, ds: Draws) -> Scene {
    let ra = cell.ra;
    let v = rvec(ds, 0);
    let nbr = sget(c, s, v.0, v.1).species;
    let s1 = if nbr == Species::Energy && ra < 250 {
        stay(c, s, Cell { ra: charged(ra), ..cell })
    } else {
        s
    };
    let release = ra > 50 && sget(c, s1, v.0, v.1).species == Species::Empty;
    let s2 = if release && once(ds, 1, 10) {
        stay(
            c,
            sset(c, s1, v.0, v.1, Cell { species: Species::Energy, ra: 50, rb: 0, clock: 0 }),
            Cell { ra: (ra - 30) as u8, ..cell },
        )
    } else {
        s1
    };
    let k: int = if release { 2 } else { 1 };
    if nbr == Species::Fire || nbr == Species::Lava {
        stay(c, s2, Cell { species: Species::Fire, ra: 200, rb: 0, clock: 0 })
    } else if ra > 0 && once(ds, k, 100) {
        stay(c, s2, Cell { ra: (ra - 1) as u8, ..cell })
    } else {
        s2
    }
}

/// The sunlight at row `y` of a grid `height` rows high: 255 at the top,
/// falling towards the bottom.
pub open spec fn sun_exposure(y: int, height: int) -> int {
    255 - (y * 255) / height
}

/// Solar cell: in sunlight above 150 it charges (`ra` up by 10, at most
/// 200) one time in 20 while `ra` is below 200; with `ra` above 30 it puts
/// energy (`ra = 30`) into empty space below one time in 8, its own `ra`
/// dropping by 20 (not below 0).
pub open spec fn solar_cell_rule(c: Ctx, s: Scene, cell: Cell, ds: Draws) -> Scene {
    let ra = cell.ra;
    let sunny = sun_exposure(c.y, c.height) > 150;
    let s1 = if sunny && once(ds, 0, 20) && ra < 200 {
        stay(c, s, Cell { ra: if ra + 10 < 200 { (ra + 10) as u8 } else { 200 }, ..cell })
    } else {
        s
    };
    let k: int = if sunny { 1 } else { 0 };
    if ra > 30 && sget(c, s1, 0, 1).species == Species::Empty && once(ds, k, 8) {
        stay(
            c,
            sset(c, s1, 0, 1, Cell { species: Species::Energy, ra: 30, rb: 0, clock: 0 }),
            Cell { ra: ssub(ra, 20), ..cell },
        )
    } else {
        s1
    }
}

/// The step a laser with register `rb` fires along: up for `rb` below 4,
/// otherwise one of the eight directions, turning clockwise from up as
/// `(rb - 4) % 8` grows.
pub open spec fn laser_dir(rb: u8) -> (int, int) {
    let d = if rb < 4 { 0 } else { (rb - 4) % 8 };
    if d == 0 {
        (0, -1)
    } else if d == 1 {
        (1, -1)
    } else if d == 2 {
        (1, 0)
    } else if d == 3 {
        (1, 1)
    } else if d == 4 {
        (0, 1)
    } else if d == 5 {
        (-1, 1)
    } else if d == 6 {
        (-1, 0)
    } else {
        (-1, -1)
    }
}

/// Laser: fills the empty step it fires along (see `laser_dir`) with
/// energy (`ra = 200`), or burns what is there into fire (`ra = 150`)
/// unless it is a wall or a mirror; then it fades (`ra` down by 2) and
/// vanishes once `ra` is below 5.
pub open spec fn laser_rule(c: Ctx, s: Scene, cell: Cell, ds: Draws) -> Scene {
    let d = laser_dir(cell.rb);
    let target = sget(c, s, d.0, d.1).species;
    let s1 = if target == Species::Empty {
        sset(c, s, d.0, d.1, Cell { species: Species::Energy, ra: 200, rb: 0, clock: 0 })
    } else if target != Species::Wall && target != Species::Mirror {
        sset(c, s, d.0, d.1, Cell { species: Species::Fire, ra: 150, rb: 0, clock: 0 })
    } else {
        s
    };
    if cell.ra < 5 {
        stay(c, s1, Cell::empty())
    } else {
        stay(c, s1, Cell { ra: (cell.ra - 2) as u8, ..cell })
    }
}

/// LED: energy or a battery at a random step lights its burn up with dense
/// light.
pub open spec fn led_rule(c: Ctx, s: Scene, cell: Cell, ds: Draws) -> Scene {
    let v = rvec(ds, 0);
    let nbr = sget(c, s, v.0, v.1).species;
    if nbr == Species::Energy || nbr == Species::Battery {
        sset_fluid(c, s, Wind { dx: 0, dy: 0, pressure: 0, density: 200 })
    } else {
        s
    }
}

/// The bounds of the draws a wire makes: a `rand_vec`.
pub open spec fn wire_draws(c: Ctx, s: Scene, cell: Cell, ds: Draws) -> Seq<int> {
    seq![2000]
}

/// The bounds of the draws a circuit makes: a `rand_vec`, then a
/// `rand_vec_8` when energy is there.
pub open spec fn circuit_draws(c: Ctx, s: Scene, cell: Cell, ds: Draws) -> Seq<int> {
    let v = rvec(ds, 0);
    seq![2000] + draw_if(sget(c, s, v.0, v.1).species == Species::Energy, 8)
}

/// The bounds of the draws a battery makes (see `battery_rule`).
pub open spec fn battery_draws(c: Ctx, s: Scene, cell: Cell, ds: Draws) -> Seq<int> {
    let ra = cell.ra;
    let v = rvec(ds, 0);
    let nbr = sget(c, s, v.0, v.1).species;
    let s1 = if nbr == Species::Energy && ra < 250 {
        stay(c, s, Cell { ra: charged(ra), ..cell })
    } else {
        s
    };
    let release = ra > 50 && sget(c, s1, v.0, v.1).species == Species::Empty;
    seq![2000] + draw_if(release, 10) + draw_if(nbr != Species::Fire && nbr != Species::Lava && ra > 0, 100)
}

/// The bounds of the draws a solar cell makes (see `solar_cell_rule`).
pub open spec fn solar_cell_draws(c: Ctx, s: Scene, cell: Cell, ds: Draws) -> Seq<int> {
    let ra = cell.ra;
    let sunny = sun_exposure(c.y, c.height) > 150;
    let s1 = if sunny && once(ds, 0, 20) && ra < 200 {
        stay(c, s, Cell { ra: if ra + 10 < 200 { (ra + 10) as u8 } else { 200 }, ..cell })
    } else {
        s
    };
    draw_if(sunny, 20) + draw_if(ra > 30 && sget(c, s1, 0, 1).species == Species::Empty, 8)
}

/// A laser makes no draws.
pub open spec fn laser_draws(c: Ctx, s: Scene, cell: Cell, ds: Draws) -> Seq<int> {
    seq![]
}

/// The bounds of the draws an LED makes: a `rand_vec`.
pub open spec fn led_draws(c: Ctx, s: Scene, cell: Cell, ds: Draws) -> Seq<int> {
    seq![2000]
}

/// One turn of wire (see `wire_rule`).
pub fn update_wire(cell: Cell, api: &mut SandApi)
    requires
        old(api).wf(),
    ensures
        final(api).continues(*old(api)),
        final(api).scene() == wire_rule(old(api).ctx(), old(api).scene(), cell, final(api).new_draws(*old(api))),
        bounds(final(api).new_draws(*old(api))) == wire_draws(old(api).ctx(), old(api).scene(), cell, final(api).new_draws(*old(api))),
{
    let (dx, dy) = api.rand_vec();
    let nbr = api.get(dx, dy);
    if nbr.species == Species::Energy || nbr.species == Species::Lightning {
        api.set(-dx, -dy, Cell { species: Species::Energy, ra: nbr.ra, rb: 0, clock: 0 });
    }
    if nbr.species == Species::Fire || nbr.species == Species::Lava {
        api.set(0, 0, Cell { species: Species::Lava, ra: 80, rb: 0, clock: 0 });
        return;
    }
}

/// One turn of circuit (see `circuit_rule`).
pub fn update_circuit(cell: Cell, api: &mut SandApi)
    requires
        old(api).wf(),
    ensures
        final(api).continues(*old(api)),
        final(api).scene() == circuit_rule(old(api).ctx(), old(api).scene(), cell, final(api).new_draws(*old(api))),
        bounds(final(api).new_draws(*old(api))) == circuit_draws(old(api).ctx(), old(api).scene(), cell, final(api).new_draws(*old(api))),
{
    let (dx, dy) = api.rand_vec();
    let nbr = api.get(dx, dy);
    if nbr.species == Species::Energy {
        let energy_level = nbr.ra;
        let (odx, ody) = api.rand_vec_8();
        if api.get(odx, ody).species == Species::Empty {
            let doubled: u16 = energy_level as u16 * 2;
            let level: u8 = if doubled < 250 { doubled as u8 } else { 250 };
            api.set(odx, ody, Cell { species: Species::Energy, ra: level, rb: 0, clock: 0 });
        }
        api.set(dx, dy, Cell::empty());
    }
    if nbr.species == Species::Water || nbr.species == Species::Acid {
        api.set(0, 0, Cell { species: Species::Fire, ra: 30, rb: 0, clock: 0 });
    }
}

/// One turn of battery (see `battery_rule`).
pub fn update_battery(cell: Cell, api: &mut SandApi)
    requires
        old(api).wf(),
    ensures
        final(api).continues(*old(api)),
        final(api).scene() == battery_rule(old(api).ctx(), old(api).scene(), cell, final(api).new_draws(*old(api))),
        bounds(final(api).new_draws(*old(api))) == battery_draws(old(api).ctx(), old(api).scene(), cell, final(api).new_draws(*old(api))),
{
    let ra = cell.ra;
    let (dx, dy) = api.rand_vec();
    let nbr = api.get(dx, dy);
    if nbr.species == Species::Energy && ra < 250 {
        api.set(0, 0, Cell { ra: ra.wrapping_add(20).min(250), ..cell });
    }
    if ra > 50 && api.get(dx, dy).species == Species::Empty && api.once_in(10) {
        api.set(dx, dy, Cell { species: Species::Energy, ra: 50, rb: 0, clock: 0 });
        api.set(0, 0, Cell { ra: ra - 30, ..cell });
    }
    if nbr.species == Species::Fire || nbr.species == Species::Lava {
        api.set(0, 0, Cell { species: Species::Fire, ra: 200, rb: 0, clock: 0 });
        return;
    }
    if ra > 0 && api.once_in(100) {
        api.set(0, 0, Cell { ra: ra - 1, ..cell });
    }
}

/// One turn of solar cell (see `solar_cell_rule`).
pub fn update_solar_cell(cell: Cell, api: &mut SandApi)
    requires
        old(api).wf(),
    ensures
        final(api).continues(*old(api)),
        final(api).scene() == solar_cell_rule(old(api).ctx(), old(api).scene(), cell, final(api).new_draws(*old(api))),
        bounds(final(api).new_draws(*old(api))) == solar_cell_draws(old(api).ctx(), old(api).scene(), cell, final(api).new_draws(*old(api))),
{
    proof {
        api.lemma_position();
    }
    let ra = cell.ra;
    let sun: i64 = 255 - (api.y() as i64 * 255 / api.height() as i64);
    if sun > 150 && api.once_in(20) && ra < 200 {
        api.set(0, 0, Cell { ra: (ra + 10).min(200), ..cell });
    }
    if ra > 30 && api.get(0, 1).species == Species::Empty && api.once_in(8) {
        api.set(0, 1, Cell { species: Species::Energy, ra: 30, rb: 0, clock: 0 });
        api.set(0, 0, Cell { ra: ra.saturating_sub(20), ..cell });
    }
}

/// One turn of laser (see `laser_rule`).
pub fn update_laser(cell: Cell, api: &mut SandApi)
    requires
        old(api).wf(),
    ensures
        final(api).continues(*old(api)),
        final(api).scene() == laser_rule(old(api).ctx(), old(api).scene(), cell, final(api).new_draws(*old(api))),
        bounds(final(api).new_draws(*old(api))) == laser_draws(old(api).ctx(), old(api).scene(), cell, final(api).new_draws(*old(api))),
{
    let rb = cell.rb;
    let dir: i32 = if rb < 4 { 0 } else { ((rb - 4) % 8) as i32 };
    let (dx, dy) = match dir {
        0 => (0, -1),
        1 => (1, -1),
        2 => (1, 0),
        3 => (1, 1),
        4 => (0, 1),
        5 => (-1, 1),
        6 => (-1, 0),
        _ => (-1, -1),
    };
    let target = api.get(dx, dy);
    if target.species == Species::Empty {
        api.set(dx, dy, Cell { species: Species::Energy, ra: 200, rb: 0, clock: 0 });
    } else if target.species != Species::Wall && target.species != Species::Mirror {
        api.set(dx, dy, Cell { species: Species::Fire, ra: 150, rb: 0, clock: 0 });
    }
    let ra = cell.ra;
    if ra < 5 {
        api.set(0, 0, Cell::empty());
    } else {
        api.set(0, 0, Cell { ra: ra - 2, ..cell });
    }
}

/// One turn of LED (see `led_rule`).
pub fn update_led(cell: Cell, api: &mut SandApi)
    requires
        old(api).wf(),
    ensures
        final(api).continues(*old(api)),
        final(api).scene() == led_rule(old(api).ctx(), old(api).scene(), cell, final(api).new_draws(*old(api))),
        bounds(final(api).new_draws(*old(api))) == led_draws(old(api).ctx(), old(api).scene(), cell, final(api).new_draws(*old(api))),
{
    let (dx, dy) = api.rand_vec();
    let nbr = api.get(dx, dy);
    if nbr.species == Species::Energy || nbr.species == Species::Battery {
        api.set_fluid(Wind { dx: 0, dy: 0, pressure: 0, density: 200 });
    }
}

} // verus!
