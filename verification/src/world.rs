//! The universe (the grid, its air flow and its history) and `SandApi`, the
//! view of the universe from one grid position that the species rules use.

use crate::cell::{Cell, Wind};
use crate::kinds::{fits, kinds, lemma_moveto_kinds};
use crate::rng::{gen_below, seeded, seeded_generator};
use crate::species::{can_update, may_update, species_draws, species_rule, Species};
use rand_xoshiro::SplitMix64;
use std::collections::VecDeque;
use vstd::prelude::*;

verus! {

/// The most states the undo history keeps.
pub const UNDO_LIMIT: usize = 50;

/// The seed of the universe's generator.
pub const RNG_SEED: u64 = 0x734f6b89de5f83cc;

/// What the rules of one grid position can see and may not change: where
/// the position is, the size of the grid, the generation, the air flow, and
/// the cells and burns as they were when the position's turn began.
pub struct Ctx {
    pub x: int,
    pub y: int,
    pub width: int,
    pub height: int,
    pub generation: u8,
    pub winds: Seq<Wind>,
    pub base_cells: Seq<Cell>,
    pub base_burns: Seq<Wind>,
}

/// What the rules of one grid position change: the cells and the burns.
#[verifier::ext_equal]
pub struct Scene {
    pub cells: Seq<Cell>,
    pub burns: Seq<Wind>,
}

/// The random draws made so far: each is the bound `n` of a call
/// `rand_int(n)` and the value that came back.
pub type Draws = Seq<(int, int)>;

/// The bounds of the draws `ds`, in the order they were drawn.
pub open spec fn bounds(ds: Draws) -> Seq<int> {
    Seq::new(ds.len(), |i: int| ds[i].0)
}

/// One draw below `n` when `b` holds, none otherwise.
pub open spec fn draw_if(b: bool, n: int) -> Seq<int> {
    if b {
        seq![n]
    } else {
        seq![]
    }
}

/// The value of the `k`-th draw.
pub open spec fn dv(ds: Draws, k: int) -> int {
    ds[k].1
}

/// The value of the `k`-th draw when it was drawn below `n`; -1 when the
/// draw had another bound (so a rule that reads it depends on the bound).
pub open spec fn draw(ds: Draws, k: int, n: int) -> int {
    if ds[k].0 == n {
        ds[k].1
    } else {
        -1
    }
}

/// Whether the `k`-th draw was a hit of `once_in(n)`.
pub open spec fn once(ds: Draws, k: int, n: int) -> bool {
    ds[k] == (n, 0int)
}

/// The `k`-th draw read as `rand_dir`.
pub open spec fn rdir(ds: Draws, k: int) -> int {
    dir3(draw(ds, k, 1000))
}

/// The `k`-th draw read as `rand_dir_2`.
pub open spec fn rdir2(ds: Draws, k: int) -> int {
    dir2(draw(ds, k, 1000))
}

/// The `k`-th draw read as `rand_vec`.
pub open spec fn rvec(ds: Draws, k: int) -> (int, int) {
    vec9(draw(ds, k, 2000))
}

/// The `k`-th draw read as `rand_vec_8`.
pub open spec fn rvec8(ds: Draws, k: int) -> (int, int) {
    vec8(draw(ds, k, 8))
}

/// The clock value that a cell written in generation `g` receives.
pub open spec fn next_clock(g: u8) -> u8 {
    if g == 255 {
        0
    } else {
        (g + 1) as u8
    }
}

/// Whether `(nx, ny)` lies on the grid.
pub open spec fn in_grid(c: Ctx, nx: int, ny: int) -> bool {
    0 <= nx < c.width && 0 <= ny < c.height
}

/// The position of `(nx, ny)` in the column-major cell sequence.
pub open spec fn grid_index(height: int, nx: int, ny: int) -> int {
    nx * height + ny
}

/// What a position off the grid reads as: a wall stamped with the
/// current generation.
pub open spec fn wall_cell(g: u8) -> Cell {
    Cell { species: Species::Wall, ra: 0, rb: 0, clock: g }
}

/// The cell at offset `(dx, dy)` from the context's position.
pub open spec fn sget(c: Ctx, s: Scene, dx: int, dy: int) -> Cell {
    let nx = c.x + dx;
    let ny = c.y + dy;
    if in_grid(c, nx, ny) {
        s.cells[grid_index(c.height, nx, ny)]
    } else {
        wall_cell(c.generation)
    }
}

/// Writes `v` at offset `(dx, dy)`, stamped with the next clock; a write
/// off the grid changes nothing.
pub open spec fn sset(c: Ctx, s: Scene, dx: int, dy: int, v: Cell) -> Scene {
    let nx = c.x + dx;
    let ny = c.y + dy;
    if in_grid(c, nx, ny) {
        Scene {
            cells: s.cells.update(
                grid_index(c.height, nx, ny),
                Cell { clock: next_clock(c.generation), ..v },
            ),
            burns: s.burns,
        }
    } else {
        s
    }
}

/// The cell at `(0, 0)` moves to offset `(dx, dy)` as `v`, leaving an
/// empty cell behind.
pub open spec fn moveto(c: Ctx, s: Scene, dx: int, dy: int, v: Cell) -> Scene {
    sset(c, sset(c, s, 0, 0, Cell::empty()), dx, dy, v)
}

/// The cell at `(0, 0)` moves to offset `(dx, dy)` as `v`, and `other`
/// takes its place.
pub open spec fn swap(c: Ctx, s: Scene, dx: int, dy: int, other: Cell, v: Cell) -> Scene {
    sset(c, sset(c, s, 0, 0, other), dx, dy, v)
}

/// The cell at `(0, 0)` is rewritten as `v`.
pub open spec fn stay(c: Ctx, s: Scene, v: Cell) -> Scene {
    sset(c, s, 0, 0, v)
}

/// The air flow at the context's own position.
pub open spec fn sfluid(c: Ctx) -> Wind {
    c.winds[grid_index(c.height, c.x, c.y)]
}

/// Writes the burn of the context's own position.
pub open spec fn sset_fluid(c: Ctx, s: Scene, w: Wind) -> Scene {
    Scene { cells: s.cells, burns: s.burns.update(grid_index(c.height, c.x, c.y), w) }
}

/// `rand_dir` from the draw `d` of `rand_int(1000)`: -1, 0 or 1.
pub open spec fn dir3(d: int) -> int {
    d % 3 - 1
}

/// `rand_dir_2` from the draw `d` of `rand_int(1000)`: -1 or 1.
pub open spec fn dir2(d: int) -> int {
    if d % 2 == 0 {
        -1
    } else {
        1
    }
}

/// `rand_vec` from the draw `d` of `rand_int(2000)`: one of the eight
/// neighbour directions, or `(0, 0)` one time in nine.
pub open spec fn vec9(d: int) -> (int, int) {
    let k = d % 9;
    if k == 0 {
        (1, 1)
    } else if k == 1 {
        (1, 0)
    } else if k == 2 {
        (1, -1)
    } else if k == 3 {
        (0, -1)
    } else if k == 4 {
        (-1, -1)
    } else if k == 5 {
        (-1, 0)
    } else if k == 6 {
        (-1, 1)
    } else if k == 7 {
        (0, 1)
    } else {
        (0, 0)
    }
}

/// `rand_vec_8` from the draw `d` of `rand_int(8)`: one of the eight
/// neighbour directions.
pub open spec fn vec8(d: int) -> (int, int) {
    if d == 0 {
        (1, 1)
    } else if d == 1 {
        (1, 0)
    } else if d == 2 {
        (1, -1)
    } else if d == 3 {
        (0, -1)
    } else if d == 4 {
        (-1, -1)
    } else if d == 5 {
        (-1, 0)
    } else if d == 6 {
        (-1, 1)
    } else {
        (0, 1)
    }
}

/// The fresh cell of `species` made with colour draw `d`.
pub open spec fn fresh_cell(species: Species, d: int) -> Cell {
    Cell { species, ra: (100 + d) as u8, rb: 0, clock: 0 }
}

/// The percentage made from two draws below 10000 (see `rand_product`).
pub open spec fn product_percent(a: int, b: int) -> int {
    (a * b) / 1000000
}

/// Whether the cell index `i` lies within two steps of the context's
/// position in both directions.
pub open spec fn near(c: Ctx, i: int) -> bool {
    let ix = i / c.height;
    let iy = i % c.height;
    -2 <= ix - c.x <= 2 && -2 <= iy - c.y <= 2
}

/// The abstract state of a universe.
pub struct UniverseView {
    pub width: int,
    pub height: int,
    pub cells: Seq<Cell>,
    pub winds: Seq<Wind>,
    pub burns: Seq<Wind>,
    pub undo: Seq<Seq<Cell>>,
    pub generation: u8,
}

/// The history after saving `cells` on top of `undo`: the newest state
/// first, at most `UNDO_LIMIT` states.
pub open spec fn undo_after_push(cells: Seq<Cell>, undo: Seq<Seq<Cell>>) -> Seq<Seq<Cell>> {
    let s = seq![cells] + undo;
    if s.len() <= UNDO_LIMIT {
        s
    } else {
        s.subrange(0, UNDO_LIMIT as int)
    }
}

/// A universe after saving its cells on top of its history.
pub open spec fn pushed(u: UniverseView) -> UniverseView {
    UniverseView { undo: undo_after_push(u.cells, u.undo), ..u }
}

/// A universe after restoring the newest saved state and dropping it from
/// the history; with an empty history, the universe as it is.
pub open spec fn popped(u: UniverseView) -> UniverseView {
    if u.undo.len() == 0 {
        u
    } else {
        UniverseView { cells: u.undo[0], undo: u.undo.drop_first(), ..u }
    }
}

/// Undo restores a save: whatever happened to the cells after saving them,
/// as long as the history was left alone, undoing gives back the saved
/// cells, and with room in the history it gives back the history as it was
/// before saving too.
pub proof fn lemma_undo_restores_save(u: UniverseView, later: UniverseView)
    requires
        later.undo == pushed(u).undo,
    ensures
        popped(later).cells == u.cells,
        u.undo.len() < UNDO_LIMIT ==> popped(later).undo == u.undo,
{
    assert(pushed(u).undo.len() > 0);
    if u.undo.len() < UNDO_LIMIT {
        assert(later.undo.drop_first() =~= u.undo);
    }
}

/// Saving keeps at most `UNDO_LIMIT` states: the new one first, then the
/// ones saved before it, newest first, the oldest dropped when the history
/// was full.
pub proof fn lemma_push_keeps_history(u: UniverseView)
    requires
        u.undo.len() <= UNDO_LIMIT,
    ensures
        pushed(u).undo.len() == (if u.undo.len() < UNDO_LIMIT { u.undo.len() + 1 } else { UNDO_LIMIT as nat }),
        pushed(u).undo[0] == u.cells,
        forall|k: int| 0 <= k < pushed(u).undo.len() - 1 ==> #[trigger] pushed(u).undo[k + 1] == u.undo[k],
{
}

/// The wind resistance of each species: how strong the wind must be before
/// it moves a cell of that species (200 for species it never moves).
pub open spec fn spec_wind_threshold(s: Species) -> u8 {
    match s {
        Species::Empty => 200,
        Species::Wall => 200,
        Species::Sand => 30,
        Species::Water => 40,
        Species::Gas => 5,
        Species::Cloner => 200,
        Species::Fire => 5,
        Species::Wood => 70,
        Species::Lava => 60,
        Species::Ice => 60,
        Species::Snow => 15,
        Species::Plant => 60,
        Species::Acid => 40,
        Species::Stone => 70,
        Species::Dust => 10,
        Species::Mite => 30,
        Species::Oil => 50,
        Species::Rocket => 30,
        Species::Fungus => 54,
        Species::Seed => 35,
        Species::Sponge => 200,
        Species::Slime => 60,
        Species::Glass => 70,
        Species::Coral => 200,
        Species::Iron => 80,
        Species::Copper => 75,
        Species::Gold => 90,
        Species::Silver => 85,
        Species::Aluminum => 50,
        Species::Lead => 90,
        Species::Zinc => 70,
        Species::Tin => 65,
        Species::Bronze => 85,
        Species::Steel => 95,
        Species::Diamond => 80,
        Species::Ruby => 80,
        Species::Sapphire => 80,
        Species::Emerald => 75,
        Species::Amethyst => 70,
        Species::Quartz => 70,
        Species::Crystal => 65,
        Species::Obsidian => 85,
        Species::Gunpowder => 8,
        Species::Flour => 10,
        Species::Sugar => 12,
        Species::Salt => 15,
        Species::Pepper => 10,
        Species::Ash => 5,
        Species::Soot => 5,
        Species::Charcoal => 12,
        Species::Mud => 45,
        Species::Blood => 40,
        Species::Honey => 55,
        Species::Milk => 45,
        Species::Poison => 40,
        Species::Mercury => 70,
        Species::Alcohol => 35,
        Species::Syrup => 55,
        Species::Steam => 3,
        Species::Smoke => 4,
        Species::Helium => 2,
        Species::Chlorine => 5,
        Species::Oxygen => 5,
        Species::Hydrogen => 3,
        Species::PlasmaGas => 3,
        Species::Methane => 4,
        Species::Leaf => 15,
        Species::Flower => 20,
        Species::Grass => 25,
        Species::Vine => 40,
        Species::Moss => 200,
        Species::Mushroom => 60,
        Species::Bark => 70,
        Species::Root => 70,
        Species::Fruit => 50,
        Species::Thorn => 60,
        Species::Ant => 20,
        Species::Spider => 25,
        Species::Bee => 15,
        Species::Butterfly => 10,
        Species::Fish => 30,
        Species::Bird => 10,
        Species::Snake => 35,
        Species::Worm => 50,
        Species::TNT => 60,
        Species::Bomb => 55,
        Species::Nitro => 40,
        Species::Plutonium => 90,
        Species::Uranium => 90,
        Species::C4 => 65,
        Species::Thermite => 70,
        Species::Napalm => 55,
        Species::Brick => 80,
        Species::Concrete => 90,
        Species::Cement => 60,
        Species::Tile => 75,
        Species::Plaster => 70,
        Species::Marble => 85,
        Species::Granite => 90,
        Species::Basalt => 95,
        Species::Portal => 200,
        Species::Teleporter => 200,
        Species::Antigravity => 10,
        Species::Magnet => 200,
        Species::Lightning => 5,
        Species::Void => 200,
        Species::Chaos => 5,
        Species::Energy => 3,
        Species::Shield => 200,
        Species::Mirror => 200,
        Species::Bread => 50,
        Species::Cheese => 60,
        Species::Meat => 55,
        Species::Egg => 40,
        Species::Rice => 10,
        Species::Wheat => 25,
        Species::Clay => 55,
        Species::Soil => 35,
        Species::Peat => 40,
        Species::Limestone => 75,
        Species::Chalk => 40,
        Species::Shale => 70,
        Species::Slate => 75,
        Species::Sandstone => 65,
        Species::Wire => 200,
        Species::Circuit => 200,
        Species::Battery => 200,
        Species::SolarCell => 200,
        Species::Laser => 200,
        Species::LED => 200,
        Species::Bubble => 5,
        Species::Balloon => 8,
        Species::Confetti => 3,
        Species::Glitter => 5,
        Species::Spring => 200,
        Species::Domino => 70,
    }
}


/// The wind resistance of a species (see `spec_wind_threshold`).
pub fn wind_threshold(s: Species) -> (t: u8)
    ensures
        t == spec_wind_threshold(s),
{
    match s {
        Species::Empty => 200,
        Species::Wall => 200,
        Species::Sand => 30,
        Species::Water => 40,
        Species::Gas => 5,
        Species::Cloner => 200,
        Species::Fire => 5,
        Species::Wood => 70,
        Species::Lava => 60,
        Species::Ice => 60,
        Species::Snow => 15,
        Species::Plant => 60,
        Species::Acid => 40,
        Species::Stone => 70,
        Species::Dust => 10,
        Species::Mite => 30,
        Species::Oil => 50,
        Species::Rocket => 30,
        Species::Fungus => 54,
        Species::Seed => 35,
        Species::Sponge => 200,
        Species::Slime => 60,
        Species::Glass => 70,
        Species::Coral => 200,
        Species::Iron => 80,
        Species::Copper => 75,
        Species::Gold => 90,
        Species::Silver => 85,
        Species::Aluminum => 50,
        Species::Lead => 90,
        Species::Zinc => 70,
        Species::Tin => 65,
        Species::Bronze => 85,
        Species::Steel => 95,
        Species::Diamond => 80,
        Species::Ruby => 80,
        Species::Sapphire => 80,
        Species::Emerald => 75,
        Species::Amethyst => 70,
        Species::Quartz => 70,
        Species::Crystal => 65,
        Species::Obsidian => 85,
        Species::Gunpowder => 8,
        Species::Flour => 10,
        Species::Sugar => 12,
        Species::Salt => 15,
        Species::Pepper => 10,
        Species::Ash => 5,
        Species::Soot => 5,
        Species::Charcoal => 12,
        Species::Mud => 45,
        Species::Blood => 40,
        Species::Honey => 55,
        Species::Milk => 45,
        Species::Poison => 40,
        Species::Mercury => 70,
        Species::Alcohol => 35,
        Species::Syrup => 55,
        Species::Steam => 3,
        Species::Smoke => 4,
        Species::Helium => 2,
        Species::Chlorine => 5,
        Species::Oxygen => 5,
        Species::Hydrogen => 3,
        Species::PlasmaGas => 3,
        Species::Methane => 4,
        Species::Leaf => 15,
        Species::Flower => 20,
        Species::Grass => 25,
        Species::Vine => 40,
        Species::Moss => 200,
        Species::Mushroom => 60,
        Species::Bark => 70,
        Species::Root => 70,
        Species::Fruit => 50,
        Species::Thorn => 60,
        Species::Ant => 20,
        Species::Spider => 25,
        Species::Bee => 15,
        Species::Butterfly => 10,
        Species::Fish => 30,
        Species::Bird => 10,
        Species::Snake => 35,
        Species::Worm => 50,
        Species::TNT => 60,
        Species::Bomb => 55,
        Species::Nitro => 40,
        Species::Plutonium => 90,
        Species::Uranium => 90,
        Species::C4 => 65,
        Species::Thermite => 70,
        Species::Napalm => 55,
        Species::Brick => 80,
        Species::Concrete => 90,
        Species::Cement => 60,
        Species::Tile => 75,
        Species::Plaster => 70,
        Species::Marble => 85,
        Species::Granite => 90,
        Species::Basalt => 95,
        Species::Portal => 200,
        Species::Teleporter => 200,
        Species::Antigravity => 10,
        Species::Magnet => 200,
        Species::Lightning => 5,
        Species::Void => 200,
        Species::Chaos => 5,
        Species::Energy => 3,
        Species::Shield => 200,
        Species::Mirror => 200,
        Species::Bread => 50,
        Species::Cheese => 60,
        Species::Meat => 55,
        Species::Egg => 40,
        Species::Rice => 10,
        Species::Wheat => 25,
        Species::Clay => 55,
        Species::Soil => 35,
        Species::Peat => 40,
        Species::Limestone => 75,
        Species::Chalk => 40,
        Species::Shale => 70,
        Species::Slate => 75,
        Species::Sandstone => 65,
        Species::Wire => 200,
        Species::Circuit => 200,
        Species::Battery => 200,
        Species::SolarCell => 200,
        Species::Laser => 200,
        Species::LED => 200,
        Species::Bubble => 5,
        Species::Balloon => 8,
        Species::Confetti => 3,
        Species::Glitter => 5,
        Species::Spring => 200,
        Species::Domino => 70,
    }
}

/// `u8` addition wrapping past 255.
pub open spec fn wadd(a: u8, b: u8) -> u8 {
    if a + b > 255 {
        (a + b - 256) as u8
    } else {
        (a + b) as u8
    }
}

/// `u8` subtraction wrapping below 0.
pub open spec fn wsub(a: u8, b: u8) -> u8 {
    if a - b < 0 {
        (a - b + 256) as u8
    } else {
        (a - b) as u8
    }
}

/// `u8` subtraction stopping at 0.
pub open spec fn ssub(a: u8, b: u8) -> u8 {
    if a - b < 0 {
        0
    } else {
        (a - b) as u8
    }
}

/// `u8` addition stopping at 255.
pub open spec fn sadd(a: u8, b: u8) -> u8 {
    if a + b > 255 {
        255
    } else {
        (a + b) as u8
    }
}

pub(crate) proof fn lemma_index_bounds(w: int, h: int, x: int, y: int)
    requires
        0 <= x < w,
        0 <= y < h,
    ensures
        0 <= x * h + y < w * h,
        (x * h + y) / h == x,
        (x * h + y) % h == y,
{
    assert(0 <= x * h) by (nonlinear_arith)
        requires
            0 <= x,
            0 <= h,
    ;
    assert(x * h + h <= w * h) by (nonlinear_arith)
        requires
            x + 1 <= w,
            0 <= h,
    ;
    vstd::arithmetic::div_mod::lemma_fundamental_div_mod_converse(x * h + y, h, x, y);
}

/// The grid, its air flow, the burns written during a tick, the undo
/// history, the generation counter and the random generator.
pub struct Universe {
    width: i32,
    height: i32,
    cells: Vec<Cell>,
    undo_stack: VecDeque<Vec<Cell>>,
    winds: Vec<Wind>,
    burns: Vec<Wind>,
    generation: u8,
    rng: SplitMix64,
}

impl View for Universe {
    type V = UniverseView;

    closed spec fn view(&self) -> UniverseView {
        UniverseView {
            width: self.width as int,
            height: self.height as int,
            cells: self.cells@,
            winds: self.winds@,
            burns: self.burns@,
            undo: self.undo_stack@.map_values(|v: Vec<Cell>| v@),
            generation: self.generation,
        }
    }
}

impl Universe {
    /// The universe is consistent: every grid holds `width * height`
    /// entries, that number fits an `i32`, and the history holds at most
    /// `UNDO_LIMIT` states.
    pub closed spec fn wf(&self) -> bool {
        let n = self.width * self.height;
        &&& 0 <= n <= i32::MAX
        &&& self.cells@.len() == n
        &&& self.winds@.len() == n
        &&& self.burns@.len() == n
        &&& self.undo_stack@.len() <= UNDO_LIMIT
        &&& forall|k: int|
            0 <= k < self.undo_stack@.len() ==> (#[trigger] self.undo_stack@[k])@.len() == n
    }

    /// A consistent universe's grids have one entry per position.
    pub proof fn lemma_sizes(&self)
        requires
            self.wf(),
        ensures
            self@.cells.len() == self@.width * self@.height,
            self@.winds.len() == self@.width * self@.height,
            self@.burns.len() == self@.width * self@.height,
            self@.undo.len() <= UNDO_LIMIT,
            forall|k: int| 0 <= k < self@.undo.len() ==> (#[trigger] self@.undo[k]).len() == self@.width * self@.height,
    {
    }

    /// The random generator that the turns draw from.
    pub closed spec fn generator(&self) -> SplitMix64 {
        self.rng
    }

    /// An empty `width` by `height` universe at generation 0 with still air
    /// and no history, its generator seeded with `RNG_SEED`.
    pub fn new(width: i32, height: i32) -> (u: Universe)
        requires
            0 <= width * height <= i32::MAX,
        ensures
            u.wf(),
            u@.width == width,
            u@.height == height,
            u@.generation == 0,
            u@.undo.len() == 0,
            u@.cells == Seq::new((width * height) as nat, |i: int| Cell::empty()),
            u@.winds == Seq::new((width * height) as nat, |i: int| Wind::zero()),
            u@.burns == Seq::new((width * height) as nat, |i: int| Wind::zero()),
            u.generator() == seeded(RNG_SEED),
    {
        let n: i32 = width * height;
        let mut cells: Vec<Cell> = Vec::new();
        let mut winds: Vec<Wind> = Vec::new();
        let mut burns: Vec<Wind> = Vec::new();
        let mut i: i32 = 0;
        while i < n
            invariant
                0 <= i <= n,
                cells@.len() == i,
                winds@.len() == i,
                burns@.len() == i,
                forall|j: int| 0 <= j < i ==> cells@[j] == Cell::empty(),
                forall|j: int| 0 <= j < i ==> winds@[j] == Wind::zero(),
                forall|j: int| 0 <= j < i ==> burns@[j] == Wind::zero(),
            decreases n - i,
        {
            cells.push(Cell::empty());
            winds.push(Wind::zero());
            burns.push(Wind::zero());
            i = i + 1;
        }
        let u = Universe {
            width,
            height,
            cells,
            undo_stack: VecDeque::with_capacity(UNDO_LIMIT),
            burns,
            winds,
            generation: 0,
            rng: seeded_generator(RNG_SEED),
        };
        assert(u@.cells =~= Seq::new((width * height) as nat, |i: int| Cell::empty()));
        assert(u@.winds =~= Seq::new((width * height) as nat, |i: int| Wind::zero()));
        assert(u@.burns =~= Seq::new((width * height) as nat, |i: int| Wind::zero()));
        u
    }

    /// The number of columns.
    pub fn width(&self) -> (w: i32)
        ensures
            w == self@.width,
    {
        self.width
    }

    /// The number of rows.
    pub fn height(&self) -> (h: i32)
        ensures
            h == self@.height,
    {
        self.height
    }

    /// The cells, column by column (`x * height + y`).
    pub fn cells(&self) -> (c: &[Cell])
        ensures
            c@ == self@.cells,
    {
        self.cells.as_slice()
    }

    /// The air flow, indexed as the cells.
    pub fn winds(&self) -> (w: &[Wind])
        ensures
            w@ == self@.winds,
    {
        self.winds.as_slice()
    }

    /// The burns written during the last tick, indexed as the cells.
    pub fn burns(&self) -> (b: &[Wind])
        ensures
            b@ == self@.burns,
    {
        self.burns.as_slice()
    }

    /// Writes the air flow at `(x, y)` (the fluid simulation around the
    /// grid keeps the air flow up to date between ticks).
    pub fn set_wind(&mut self, x: i32, y: i32, w: Wind)
        requires
            old(self).wf(),
            0 <= x < old(self)@.width,
            0 <= y < old(self)@.height,
        ensures
            final(self).wf(),
            final(self)@ == (UniverseView {
                winds: old(self)@.winds.update(grid_index(old(self)@.height, x as int, y as int), w),
                ..old(self)@
            }),
            final(self).generator() == old(self).generator(),
    {
        let i = self.get_index(x, y);
        self.winds.set(i, w);
    }

    /// Empties every cell of the grid; nothing else changes.
    pub fn reset(&mut self)
        requires
            old(self).wf(),
        ensures
            final(self).wf(),
            final(self)@ == (UniverseView {
                cells: if old(self)@.width >= 0 {
                    Seq::new(old(self)@.cells.len(), |i: int| Cell::empty())
                } else {
                    old(self)@.cells
                },
                ..old(self)@
            }),
            final(self).generator() == old(self).generator(),
    {
        if self.width >= 0 {
            let n = self.cells.len();
            let mut i: usize = 0;
            while i < n
                invariant
                    self.wf(),
                    n == self.cells@.len(),
                    0 <= i <= n,
                    self.width == old(self).width,
                    self.height == old(self).height,
                    self.generation == old(self).generation,
                    self.winds == old(self).winds,
                    self.burns == old(self).burns,
                    self.undo_stack == old(self).undo_stack,
                    self.rng == old(self).rng,
                    forall|j: int| 0 <= j < i ==> self.cells@[j] == Cell::empty(),
                decreases n - i,
            {
                self.cells[i] = Cell::empty();
                i = i + 1;
            }
            assert(self@.cells =~= Seq::new(old(self)@.cells.len(), |i: int| Cell::empty()));
        }
        assert(self@.undo =~= old(self)@.undo);
    }

    /// Saves the current cells on top of the history, dropping the oldest
    /// state when more than `UNDO_LIMIT` would be kept.
    pub fn push_undo(&mut self)
        requires
            old(self).wf(),
        ensures
            final(self).wf(),
            final(self)@ == pushed(old(self)@),
            final(self).generator() == old(self).generator(),
    {
        let snapshot = self.cells.clone();
        assert(snapshot@ =~= self.cells@);
        self.undo_stack.push_front(snapshot);
        self.undo_stack.truncate(UNDO_LIMIT);
        assert(self@.undo =~= undo_after_push(old(self)@.cells, old(self)@.undo));
    }

    /// Restores the newest saved state and drops it from the history; with
    /// an empty history nothing changes.
    pub fn pop_undo(&mut self)
        requires
            old(self).wf(),
        ensures
            final(self).wf(),
            final(self)@ == popped(old(self)@),
            final(self).generator() == old(self).generator(),
    {
        if let Some(state) = self.undo_stack.pop_front() {
            self.cells = state;
            assert(self@.undo =~= old(self)@.undo.drop_first());
        }
    }

    /// Forgets the whole history.
    pub fn flush_undos(&mut self)
        requires
            old(self).wf(),
        ensures
            final(self).wf(),
            final(self)@ == (UniverseView { undo: Seq::empty(), ..old(self)@ }),
            final(self).generator() == old(self).generator(),
    {
        self.undo_stack.clear();
        assert(self@.undo =~= Seq::<Seq<Cell>>::empty());
    }

    fn get_index(&self, x: i32, y: i32) -> (i: usize)
        requires
            self.wf(),
            0 <= x < self.width,
            0 <= y < self.height,
        ensures
            i == grid_index(self.height as int, x as int, y as int),
            i < self.cells@.len(),
    {
        proof {
            lemma_index_bounds(self.width as int, self.height as int, x as int, y as int);
        }
        (x * self.height + y) as usize
    }

    fn get_cell(&self, x: i32, y: i32) -> (c: Cell)
        requires
            self.wf(),
            0 <= x < self.width,
            0 <= y < self.height,
        ensures
            c == self.cells@[grid_index(self.height as int, x as int, y as int)],
    {
        self.cells[self.get_index(x, y)]
    }

    fn get_wind(&self, x: i32, y: i32) -> (w: Wind)
        requires
            self.wf(),
            0 <= x < self.width,
            0 <= y < self.height,
        ensures
            w == self.winds@[grid_index(self.height as int, x as int, y as int)],
    {
        self.winds[self.get_index(x, y)]
    }
}


/// The universe seen from one grid position `(x, y)`: the handle through
/// which a species rule reads and writes its neighbourhood and draws random
/// numbers. It remembers the cells and burns as they were when the
/// position's turn began, and every draw it has handed out.
pub struct SandApi {
    x: i32,
    y: i32,
    universe: Universe,
    base_cells: Ghost<Seq<Cell>>,
    base_burns: Ghost<Seq<Wind>>,
    draws: Ghost<Draws>,
}

impl SandApi {
    /// The fixed context of the current position.
    pub closed spec fn ctx(&self) -> Ctx {
        Ctx {
            x: self.x as int,
            y: self.y as int,
            width: self.universe.width as int,
            height: self.universe.height as int,
            generation: self.universe.generation,
            winds: self.universe.winds@,
            base_cells: self.base_cells@,
            base_burns: self.base_burns@,
        }
    }

    /// The cells and burns as they are now.
    pub closed spec fn scene(&self) -> Scene {
        Scene { cells: self.universe.cells@, burns: self.universe.burns@ }
    }

    /// Every draw handed out so far, oldest first.
    pub closed spec fn draws(&self) -> Draws {
        self.draws@
    }

    /// The random generator that the turn draws from.
    pub closed spec fn generator(&self) -> SplitMix64 {
        self.universe.generator()
    }

    /// The whole universe as it is now.
    pub closed spec fn universe_view(&self) -> UniverseView {
        self.universe@
    }

    /// The value of the newest draw.
    pub open spec fn last_draw(&self) -> int {
        self.draws().last().1
    }

    /// The draws handed out since `prev`.
    pub open spec fn new_draws(&self, prev: SandApi) -> Draws {
        self.draws().skip(prev.draws().len() as int)
    }

    /// The handle is consistent: the universe is, the position lies on the
    /// grid, every cell that differs from the start of the turn lies within
    /// two steps of the position and carries the clock of the next
    /// generation, no burn but the position's own differs, and every draw
    /// lies below its bound.
    pub closed spec fn wf(&self) -> bool {
        let c = self.ctx();
        let s = self.scene();
        &&& self.universe.wf()
        &&& in_grid(c, c.x, c.y)
        &&& c.base_cells.len() == s.cells.len()
        &&& c.base_burns.len() == s.burns.len()
        &&& forall|i: int|
            0 <= i < s.cells.len() && #[trigger] s.cells[i] != c.base_cells[i] ==> near(c, i)
        &&& forall|i: int|
            0 <= i < s.cells.len() && #[trigger] s.cells[i] != c.base_cells[i] ==> s.cells[i].clock
                == next_clock(c.generation)
        &&& forall|i: int|
            0 <= i < s.burns.len() && i != grid_index(c.height, c.x, c.y) ==> s.burns[i]
                == c.base_burns[i]
        &&& forall|k: int| 0 <= k < self.draws@.len() ==> 0 <= #[trigger] self.draws@[k].1 < self.draws@[k].0
    }

    /// `self` follows from `prev` by the moves of one turn: it is
    /// consistent, has the same context and history, and has only added
    /// draws.
    pub open spec fn continues(&self, prev: SandApi) -> bool {
        &&& self.wf()
        &&& self.ctx() == prev.ctx()
        &&& self.universe_view().undo == prev.universe_view().undo
        &&& prev.draws().len() <= self.draws().len()
        &&& forall|k: int| 0 <= k < prev.draws().len() ==> #[trigger] self.draws()[k] == prev.draws()[k]
    }

    /// A consistent handle stands on the grid, and its cells, burns and
    /// winds cover the grid, one per position.
    pub proof fn lemma_position(&self)
        requires
            self.wf(),
        ensures
            in_grid(self.ctx(), self.ctx().x, self.ctx().y),
            self.ctx().width * self.ctx().height <= i32::MAX,
            self.scene().cells.len() == self.ctx().width * self.ctx().height,
            self.scene().burns.len() == self.ctx().width * self.ctx().height,
            self.ctx().winds.len() == self.ctx().width * self.ctx().height,
            self.ctx().base_cells.len() == self.ctx().width * self.ctx().height,
    {
        self.universe.lemma_sizes();
    }

    /// Every draw of a consistent handle lies below its bound.
    pub proof fn lemma_draws_in_range(&self)
        requires
            self.wf(),
        ensures
            forall|k: int| 0 <= k < self.draws().len() ==> 0 <= #[trigger] self.draws()[k].1 < self.draws()[k].0,
    {
    }

    /// A handle on `universe` at `(x, y)`, starting a turn there.
    pub fn new(universe: Universe, x: i32, y: i32) -> (api: SandApi)
        requires
            universe.wf(),
            0 <= x < universe@.width,
            0 <= y < universe@.height,
        ensures
            api.wf(),
            api.universe_view() == universe@,
            api.ctx().x == x,
            api.ctx().y == y,
            api.ctx().width == universe@.width,
            api.ctx().height == universe@.height,
            api.ctx().generation == universe@.generation,
            api.ctx().winds == universe@.winds,
            api.ctx().base_cells == universe@.cells,
            api.ctx().base_burns == universe@.burns,
            api.scene() == (Scene { cells: universe@.cells, burns: universe@.burns }),
            api.draws().len() == 0,
            api.generator() == universe.generator(),
    {
        let ghost cells = universe.cells@;
        let ghost burns = universe.burns@;
        SandApi { x, y, universe, base_cells: Ghost(cells), base_burns: Ghost(burns), draws: Ghost(Seq::empty()) }
    }

    /// Gives the universe back.
    pub fn into_universe(self) -> (u: Universe)
        ensures
            u@ == self.universe_view(),
            u@.cells == self.scene().cells,
            u@.burns == self.scene().burns,
            u@.winds == self.ctx().winds,
            u@.width == self.ctx().width,
            u@.height == self.ctx().height,
            u@.generation == self.ctx().generation,
            u.generator() == self.generator(),
            self.wf() ==> u.wf(),
    {
        self.universe
    }

    /// The universe seen by this handle.
    pub fn universe(&self) -> (u: &Universe)
        ensures
            u@ == self.universe_view(),
            u@.cells == self.scene().cells,
            u@.burns == self.scene().burns,
            u@.winds == self.ctx().winds,
            u@.width == self.ctx().width,
            u@.height == self.ctx().height,
            u@.generation == self.ctx().generation,
            u.generator() == self.generator(),
            self.wf() ==> u.wf(),
    {
        &self.universe
    }

    /// The column of this position.
    pub fn x(&self) -> (x: i32)
        ensures
            x == self.ctx().x,
    {
        self.x
    }

    /// The row of this position.
    pub fn y(&self) -> (y: i32)
        ensures
            y == self.ctx().y,
    {
        self.y
    }

    /// The number of columns of the grid.
    pub fn width(&self) -> (w: i32)
        ensures
            w == self.ctx().width,
    {
        self.universe.width
    }

    /// The number of rows of the grid.
    pub fn height(&self) -> (h: i32)
        ensures
            h == self.ctx().height,
    {
        self.universe.height
    }

    /// The current generation.
    pub fn generation(&self) -> (g: u8)
        ensures
            g == self.ctx().generation,
    {
        self.universe.generation
    }

    /// The cell at offset `(dx, dy)`; off the grid, a wall stamped with the
    /// current generation. Offsets reach at most two steps.
    pub fn get(&mut self, dx: i32, dy: i32) -> (c: Cell)
        requires
            old(self).wf(),
            -2 <= dx <= 2,
            -2 <= dy <= 2,
        ensures
            *final(self) == *old(self),
            c == sget(old(self).ctx(), old(self).scene(), dx as int, dy as int),
    {
        let nx: i64 = self.x as i64 + dx as i64;
        let ny: i64 = self.y as i64 + dy as i64;
        if nx < 0 || nx > self.universe.width as i64 - 1 || ny < 0 || ny > self.universe.height as i64
            - 1 {
            return Cell { species: Species::Wall, ra: 0, rb: 0, clock: self.universe.generation };
        }
        self.universe.get_cell(nx as i32, ny as i32)
    }

    /// Writes `v` at offset `(dx, dy)`, stamped with the clock of the next
    /// generation so that it is not updated again this tick; off the grid
    /// nothing happens. Offsets reach at most two steps.
    pub fn set(&mut self, dx: i32, dy: i32, v: Cell)
        requires
            old(self).wf(),
            -2 <= dx <= 2,
            -2 <= dy <= 2,
        ensures
            final(self).continues(*old(self)),
            final(self).draws() == old(self).draws(),
            final(self).scene() == sset(old(self).ctx(), old(self).scene(), dx as int, dy as int, v),
    {
        let nx: i64 = self.x as i64 + dx as i64;
        let ny: i64 = self.y as i64 + dy as i64;
        if nx < 0 || nx > self.universe.width as i64 - 1 || ny < 0 || ny > self.universe.height as i64
            - 1 {
            return;
        }
        let i = self.universe.get_index(nx as i32, ny as i32);
        let mut w = v;
        w.clock = self.universe.generation.wrapping_add(1);
        self.universe.cells.set(i, w);
        proof {
            lemma_index_bounds(self.universe.width as int, self.universe.height as int, nx as int, ny as int);
            assert(self.scene().cells =~= sset(old(self).ctx(), old(self).scene(), dx as int, dy as int, v).cells);
        }
    }

    /// The air flow at this position.
    pub fn get_fluid(&mut self) -> (w: Wind)
        requires
            old(self).wf(),
        ensures
            *final(self) == *old(self),
            w == sfluid(old(self).ctx()),
    {
        self.universe.get_wind(self.x, self.y)
    }

    /// Writes the burn of this position.
    pub fn set_fluid(&mut self, v: Wind)
        requires
            old(self).wf(),
        ensures
            final(self).continues(*old(self)),
            final(self).draws() == old(self).draws(),
            final(self).scene() == sset_fluid(old(self).ctx(), old(self).scene(), v),
    {
        let idx = self.universe.get_index(self.x, self.y);
        self.universe.burns.set(idx, v);
        assert(self.scene().burns =~= sset_fluid(old(self).ctx(), old(self).scene(), v).burns);
    }

    /// A random number in `0..n`, recorded as a draw with bound `n`.
    pub fn rand_int(&mut self, n: i32) -> (r: i32)
        requires
            old(self).wf(),
            n > 0,
        ensures
            final(self).continues(*old(self)),
            final(self).scene() == old(self).scene(),
            final(self).draws() == old(self).draws().push((n as int, r as int)),
            0 <= r < n,
    {
        let r = gen_below(&mut self.universe.rng, n);
        self.draws = Ghost(self.draws@.push((n as int, r as int)));
        r
    }

    /// True one time in `n`: whether `rand_int(n)` gave 0.
    pub fn once_in(&mut self, n: i32) -> (b: bool)
        requires
            old(self).wf(),
            n > 0,
        ensures
            final(self).continues(*old(self)),
            final(self).scene() == old(self).scene(),
            final(self).draws() == old(self).draws().push((n as int, final(self).last_draw())),
            b == (final(self).last_draw() == 0),
    {
        self.rand_int(n) == 0
    }

    /// A random step -1, 0 or 1, from `rand_int(1000)`.
    pub fn rand_dir(&mut self) -> (d: i32)
        requires
            old(self).wf(),
        ensures
            final(self).continues(*old(self)),
            final(self).scene() == old(self).scene(),
            final(self).draws() == old(self).draws().push((1000, final(self).last_draw())),
            d == dir3(final(self).last_draw()),
    {
        (self.rand_int(1000) % 3) - 1
    }

    /// A random step -1 or 1, from `rand_int(1000)`.
    pub fn rand_dir_2(&mut self) -> (d: i32)
        requires
            old(self).wf(),
        ensures
            final(self).continues(*old(self)),
            final(self).scene() == old(self).scene(),
            final(self).draws() == old(self).draws().push((1000, final(self).last_draw())),
            d == dir2(final(self).last_draw()),
    {
        if (self.rand_int(1000) % 2) == 0 {
            -1
        } else {
            1
        }
    }

    /// A random neighbour direction, or `(0, 0)` one time in nine, from
    /// `rand_int(2000)`.
    pub fn rand_vec(&mut self) -> (v: (i32, i32))
        requires
            old(self).wf(),
        ensures
            final(self).continues(*old(self)),
            final(self).scene() == old(self).scene(),
            final(self).draws() == old(self).draws().push((2000, final(self).last_draw())),
            (v.0 as int, v.1 as int) == vec9(final(self).last_draw()),
    {
        match self.rand_int(2000) % 9 {
            0 => (1, 1),
            1 => (1, 0),
            2 => (1, -1),
            3 => (0, -1),
            4 => (-1, -1),
            5 => (-1, 0),
            6 => (-1, 1),
            7 => (0, 1),
            _ => (0, 0),
        }
    }

    /// A fresh cell of `species` (see `Cell::new`), its colour offset taken
    /// from `rand_int(50)`.
    pub fn new_cell(&mut self, species: Species) -> (c: Cell)
        requires
            old(self).wf(),
        ensures
            final(self).continues(*old(self)),
            final(self).scene() == old(self).scene(),
            final(self).draws() == old(self).draws().push((50, final(self).last_draw())),
            c == fresh_cell(species, final(self).last_draw()),
    {
        let roll = self.rand_int(50);
        Cell::new(species, roll as u8)
    }

    /// A random percentage weighted towards small values: the product of
    /// two draws of `rand_int(10000)`, divided by 1000000 (so in 0..100).
    pub fn rand_product(&mut self) -> (p: i32)
        requires
            old(self).wf(),
        ensures
            final(self).continues(*old(self)),
            final(self).scene() == old(self).scene(),
            final(self).draws() == old(self).draws().push(
                (10000int, final(self).draws()[old(self).draws().len() as int].1),
            ).push((10000int, final(self).last_draw())),
            p == product_percent(
                final(self).draws()[old(self).draws().len() as int].1,
                final(self).last_draw(),
            ),
            0 <= p < 100,
    {
        let a = self.rand_int(10000);
        let b = self.rand_int(10000);
        proof {
            assert(0 <= a * b <= 9999 * 9999) by (nonlinear_arith)
                requires
                    0 <= a < 10000,
                    0 <= b < 10000,
            ;
        }
        ((a as i64 * b as i64) / 1000000) as i32
    }

    /// A random neighbour direction, from `rand_int(8)`.
    pub fn rand_vec_8(&mut self) -> (v: (i32, i32))
        requires
            old(self).wf(),
        ensures
            final(self).continues(*old(self)),
            final(self).scene() == old(self).scene(),
            final(self).draws() == old(self).draws().push((8, final(self).last_draw())),
            (v.0 as int, v.1 as int) == vec8(final(self).last_draw()),
    {
        match self.rand_int(8) {
            0 => (1, 1),
            1 => (1, 0),
            2 => (1, -1),
            3 => (0, -1),
            4 => (-1, -1),
            5 => (-1, 0),
            6 => (-1, 1),
            _ => (0, 1),
        }
    }
}

/// The species that a strong updraft lifts two steps: sand, water, lava,
/// acid, mites, dust, oil and rockets.
pub open spec fn wind_jumps(s: Species) -> bool {
    s == Species::Sand || s == Species::Water || s == Species::Lava || s == Species::Acid || s == Species::Mite
        || s == Species::Dust || s == Species::Oil || s == Species::Rocket
}

/// The step (-1, 0 or 1) that an air flow component `w` (126 meaning
/// still air, so `w` here is already offset) pushes against a resistance
/// `t`.
pub open spec fn wind_step(w: int, t: int) -> int {
    if w > t {
        1
    } else if w < -t {
        -1
    } else {
        0
    }
}

/// The air flow `wind` acting on `cell` at the context's position. A cell
/// written this generation, and empty space, stay put. Otherwise the flow
/// (its `dy` pushing sideways and its `dx` up or down, each past the
/// species' resistance, see `spec_wind_threshold`) moves the cell one step
/// into empty space; a cell lifted upwards that `wind_jumps` goes up two
/// steps when that is empty too.
pub open spec fn blow_rule(c: Ctx, s: Scene, cell: Cell, wind: Wind) -> Scene {
    let t = spec_wind_threshold(cell.species) as int;
    let dx = wind_step(wind.dy - 126, t);
    let dy = wind_step(wind.dx - 126, t);
    if cell.clock == next_clock(c.generation) || cell.species == Species::Empty {
        s
    } else if (dx != 0 || dy != 0) && sget(c, s, dx, dy).species == Species::Empty {
        let s1 = stay(c, s, Cell::empty());
        let fdy = if dy == -1 && sget(c, s1, dx, -2).species == Species::Empty && wind_jumps(cell.species) {
            -2
        } else {
            dy
        };
        sset(c, s1, dx, fdy, cell)
    } else {
        s
    }
}

/// The turn of `cell` at the context's position: a cell written this
/// generation, or one its species' rule cannot take (see `can_update`),
/// stays put; any other follows its species' rule.
pub open spec fn update_rule(c: Ctx, s: Scene, cell: Cell, ds: Draws) -> Scene {
    if cell.clock == next_clock(c.generation) || !can_update(cell.species, cell) {
        s
    } else {
        species_rule(cell.species, c, s, cell, ds)
    }
}

/// The bounds of the draws of the turn of `cell` (see `update_rule`): a
/// cell that stays put makes none.
pub open spec fn update_draws(c: Ctx, s: Scene, cell: Cell, ds: Draws) -> Seq<int> {
    if cell.clock == next_clock(c.generation) || !can_update(cell.species, cell) {
        seq![]
    } else {
        species_draws(cell.species, c, s, cell, ds)
    }
}

/// The context of a turn at `(x, y)` of a universe shaped like `u`, the
/// turn starting from the cells and burns `s`.
pub open spec fn turn_ctx(u: UniverseView, s: Scene, x: int, y: int) -> Ctx {
    Ctx {
        x,
        y,
        width: u.width,
        height: u.height,
        generation: u.generation,
        winds: u.winds,
        base_cells: s.cells,
        base_burns: s.burns,
    }
}

/// How many positions a pass over `u` visits.
pub open spec fn positions(u: UniverseView) -> int {
    if u.width > 0 && u.height > 0 {
        u.width * u.height
    } else {
        0
    }
}

/// The wind pass over the first `n` positions of `u` (column by column,
/// each from the top), starting from `s`: each position's cell is pushed
/// by the air flow there (see `blow_rule`).
pub open spec fn wind_pass(u: UniverseView, s: Scene, n: int) -> Scene
    decreases n,
{
    if n <= 0 {
        s
    } else {
        let p = wind_pass(u, s, n - 1);
        let x = (n - 1) / u.height;
        let y = (n - 1) % u.height;
        let i = grid_index(u.height, x, y);
        blow_rule(turn_ctx(u, p, x, y), p, p.cells[i], u.winds[i])
    }
}

/// The column that the `x`-th step of a pass over `width` columns visits:
/// from the right when `reverse`.
pub open spec fn scan_column(width: int, x: int, reverse: bool) -> int {
    if reverse {
        width - (1 + x)
    } else {
        x
    }
}

/// The update pass over the first `n` positions of `u` (see
/// `scan_column`; each column from the top), starting from `s`, the `j`-th
/// turn drawing `dss[j]`: each position's burn is cleared and its cell
/// takes its turn (see `update_rule`).
pub open spec fn update_pass(u: UniverseView, s: Scene, reverse: bool, dss: Seq<Draws>, n: int) -> Scene
    decreases n,
{
    if n <= 0 {
        s
    } else {
        let p = update_pass(u, s, reverse, dss, n - 1);
        let x = scan_column(u.width, (n - 1) / u.height, reverse);
        let y = (n - 1) % u.height;
        let i = grid_index(u.height, x, y);
        let q = Scene { cells: p.cells, burns: p.burns.update(i, Wind::zero()) };
        update_rule(turn_ctx(u, q, x, y), q, p.cells[i], dss[n - 1])
    }
}

/// The update pass reads no turn's draws past the `n` it makes.
pub proof fn lemma_update_pass_prefix(
    u: UniverseView,
    s: Scene,
    reverse: bool,
    dss1: Seq<Draws>,
    dss2: Seq<Draws>,
    n: int,
)
    requires
        n <= dss1.len(),
        n <= dss2.len(),
        forall|j: int| 0 <= j < n ==> #[trigger] dss1[j] == dss2[j],
    ensures
        update_pass(u, s, reverse, dss1, n) == update_pass(u, s, reverse, dss2, n),
    decreases n,
{
    if n > 0 {
        lemma_update_pass_prefix(u, s, reverse, dss1, dss2, n - 1);
        assert(dss1[n - 1] == dss2[n - 1]);
    }
}

/// Whether, in the update pass over the first `n` positions (see
/// `update_pass`), the `j`-th turn's draws had the bounds that its rule
/// reads (see `update_draws`), for each `j` below `n`.
pub open spec fn pass_draws_fit(u: UniverseView, s: Scene, reverse: bool, dss: Seq<Draws>, n: int) -> bool
    decreases n,
{
    if n <= 0 {
        true
    } else {
        let p = update_pass(u, s, reverse, dss, n - 1);
        let x = scan_column(u.width, (n - 1) / u.height, reverse);
        let y = (n - 1) % u.height;
        let i = grid_index(u.height, x, y);
        let q = Scene { cells: p.cells, burns: p.burns.update(i, Wind::zero()) };
        pass_draws_fit(u, s, reverse, dss, n - 1) && bounds(dss[n - 1]) == update_draws(
            turn_ctx(u, q, x, y),
            q,
            p.cells[i],
            dss[n - 1],
        )
    }
}

/// `pass_draws_fit` reads no turn's draws past the `n` it covers.
pub proof fn lemma_pass_draws_fit_prefix(
    u: UniverseView,
    s: Scene,
    reverse: bool,
    dss1: Seq<Draws>,
    dss2: Seq<Draws>,
    n: int,
)
    requires
        n <= dss1.len(),
        n <= dss2.len(),
        forall|j: int| 0 <= j < n ==> #[trigger] dss1[j] == dss2[j],
    ensures
        pass_draws_fit(u, s, reverse, dss1, n) == pass_draws_fit(u, s, reverse, dss2, n),
    decreases n,
{
    if n > 0 {
        lemma_pass_draws_fit_prefix(u, s, reverse, dss1, dss2, n - 1);
        lemma_update_pass_prefix(u, s, reverse, dss1, dss2, n - 1);
        assert(dss1[n - 1] == dss2[n - 1]);
    }
}

/// Whether the turns of the update pass of one tick of `u` (see
/// `tick_rule`) drew `dss` with the bounds that their rules read.
pub open spec fn tick_draws_fit(u: UniverseView, dss: Seq<Draws>) -> bool {
    let g1 = wadd(u.generation, 1);
    let g2 = wadd(g1, 1);
    let s1 = wind_pass(UniverseView { generation: g1, ..u }, Scene { cells: u.cells, burns: u.burns }, positions(u));
    pass_draws_fit(UniverseView { generation: g2, ..u }, s1, g2 % 2 == 0, dss, positions(u))
}

/// Every draw of every turn lies below its bound.
pub open spec fn draws_bounded(dss: Seq<Draws>) -> bool {
    forall|i: int, k: int|
        0 <= i < dss.len() && 0 <= k < dss[i].len() ==> 0 <= #[trigger] dss[i][k].1 < dss[i][k].0
}

/// One tick of `u`, the `j`-th turn of its update pass drawing `dss[j]`:
/// the generation advances, the wind pass runs (see `wind_pass`), the
/// generation advances again, and the update pass runs (see
/// `update_pass`), from the right on even generations.
pub open spec fn tick_rule(u: UniverseView, dss: Seq<Draws>) -> UniverseView {
    let g1 = wadd(u.generation, 1);
    let g2 = wadd(g1, 1);
    let s1 = wind_pass(UniverseView { generation: g1, ..u }, Scene { cells: u.cells, burns: u.burns }, positions(u));
    let s2 = update_pass(UniverseView { generation: g2, ..u }, s1, g2 % 2 == 0, dss, positions(u));
    UniverseView { cells: s2.cells, burns: s2.burns, generation: g2, ..u }
}

/// `v / 2` rounded towards zero.
pub open spec fn trunc_half(v: int) -> int {
    if v >= 0 {
        v / 2
    } else {
        -((-v) / 2)
    }
}

/// Whether the offset `(dx, dy)` lies under a round brush of diameter
/// `size`: within the square the brush scans (from `-(size + 2) / 2` up to
/// but excluding `(size + 3) / 2` on each axis, rounded towards zero) and
/// no farther than `size / 2` from the centre.
pub open spec fn in_brush(size: int, dx: int, dy: int) -> bool {
    &&& -trunc_half(size + 2) <= dx < trunc_half(size + 3)
    &&& -trunc_half(size + 2) <= dy < trunc_half(size + 3)
    &&& 4 * (dx * dx + dy * dy) <= size * size
}

/// The glow that the generation `g` adds to painted colours: the distance
/// of `g % 127` from 60.
pub open spec fn glow(g: u8) -> u8 {
    let v = g % 127 - 60;
    (if v < 0 { -v } else { v }) as u8
}

/// A cell painted with `species` by a brush of diameter `size` in
/// generation `g`, with random colour offset `r`: `ra` is 60 plus `size`
/// (as a byte) plus `r` plus the glow (see `glow`), wrapping past 255.
pub open spec fn brush_cell(species: Species, size: i32, r: int, g: u8) -> Cell {
    Cell { species, ra: wadd(wadd(wadd(60, size as u8), r as u8), glow(g)), rb: 0, clock: g }
}

/// What painting `species` with a brush of diameter `size` centred on
/// `(x, y)` leaves at cell index `i` of `u`, given the cell `c` found
/// there afterwards: under the brush, where the cell was empty or the
/// brush paints empty space, a freshly painted cell with some colour
/// offset below 30 (see `brush_cell`); elsewhere the old cell.
pub open spec fn painted(u: UniverseView, x: int, y: int, size: i32, species: Species, i: int, c: Cell) -> bool {
    let px = i / u.height;
    let py = i % u.height;
    if 0 < u.height && in_brush(size as int, px - x, py - y) && (u.cells[i].species == Species::Empty || species
        == Species::Empty) {
        exists|r: int| 0 <= r < 30 && c == #[trigger] brush_cell(species, size, r, u.generation)
    } else {
        c == u.cells[i]
    }
}

/// Whether the brush scan (dx outer, dy inner) has passed offset
/// `(ax, ay)` before reaching `(dx, dy)`.
pub open spec fn scanned_before(lo: int, hi: int, ax: int, ay: int, dx: int, dy: int) -> bool {
    &&& lo <= ax < hi
    &&& lo <= ay < hi
    &&& (ax < dx || (ax == dx && ay < dy))
}

/// The progress of a brush scan that has reached `(dx, dy)`, at cell index
/// `j` holding `c`: cells already scanned are as painting leaves them (see
/// `painted`), the others as they were in `u`.
pub open spec fn paint_progress(
    u: UniverseView,
    c: Cell,
    x: int,
    y: int,
    size: i32,
    species: Species,
    lo: int,
    hi: int,
    dx: int,
    dy: int,
    j: int,
) -> bool {
    if scanned_before(lo, hi, j / u.height - x, j % u.height - y, dx, dy) {
        painted(u, x, y, size, species, j, c)
    } else {
        c == u.cells[j]
    }
}

/// One step of the brush scan at `(dx, dy)` keeps `paint_progress`: the
/// cells go from `before` to `after`, the position of that offset is
/// painted with colour offset `r` when it is on the grid, under the brush
/// (`round`) and paintable, and nothing else changes.
proof fn lemma_paint_scan_step(
    u: UniverseView,
    before: Seq<Cell>,
    after: Seq<Cell>,
    x: int,
    y: int,
    size: i32,
    species: Species,
    lo: int,
    hi: int,
    dx: int,
    dy: int,
    round: bool,
    r: int,
)
    requires
        0 <= u.width * u.height,
        before.len() == after.len() == u.cells.len() == u.width * u.height,
        lo == -trunc_half(size + 2),
        hi == trunc_half(size + 3),
        lo <= dx < hi,
        lo <= dy < hi,
        round == (4 * (dx * dx + dy * dy) <= size * size),
        forall|j: int|
            0 <= j < before.len() ==> #[trigger] paint_progress(u, before[j], x, y, size, species, lo, hi, dx, dy, j),
        ({
            let px = x + dx;
            let py = y + dy;
            let i = px * u.height + py;
            let on_grid = 0 <= px < u.width && 0 <= py < u.height;
            if round && on_grid && (before[i].species == Species::Empty || species == Species::Empty) {
                &&& 0 <= r < 30
                &&& after == before.update(i, brush_cell(species, size, r, u.generation))
            } else {
                after == before
            }
        }),
    ensures
        forall|j: int|
            0 <= j < after.len() ==> #[trigger] paint_progress(u, after[j], x, y, size, species, lo, hi, dx, dy + 1, j),
{
    let h = u.height;
    let px = x + dx;
    let py = y + dy;
    let on_grid = 0 <= px < u.width && 0 <= py < h;
    if on_grid {
        lemma_index_bounds(u.width, h, px, py);
    }
    if h <= 0 {
        assert forall|j: int| 0 <= j < after.len() implies #[trigger] paint_progress(u, after[j], x, y, size, species, lo, hi, dx, dy + 1, j) by {
            assert(paint_progress(u, before[j], x, y, size, species, lo, hi, dx, dy, j));
        }
        return;
    }
    assert forall|j: int| 0 <= j < after.len() implies #[trigger] paint_progress(u, after[j], x, y, size, species, lo, hi, dx, dy + 1, j) by {
        assert(paint_progress(u, before[j], x, y, size, species, lo, hi, dx, dy, j));
        vstd::arithmetic::div_mod::lemma_fundamental_div_mod(j, h);
        assert(0 <= j / h) by (nonlinear_arith)
            requires
                0 <= j,
                0 < h,
        ;
        assert(j / h < u.width) by (nonlinear_arith)
            requires
                0 <= j < u.width * h,
                0 < h,
                j == h * (j / h) + j % h,
                0 <= j % h < h,
        ;
        if j / h - x == dx && j % h - y == dy {
            assert(on_grid);
            assert(j == px * h + py) by (nonlinear_arith)
                requires
                    j == h * (j / h) + j % h,
                    j / h == px,
                    j % h == py,
            ;
            if round && (before[j].species == Species::Empty || species == Species::Empty) {
                assert(after[j] == brush_cell(species, size, r, u.generation));
            }
        } else if on_grid {
            assert(j != px * h + py);
        }
    }
}

/// Air flow pushes a cell (one not written this generation, and not empty
/// space) along each axis whose flow component passes the species'
/// resistance `t`: its `dy` above `126 + t` pushes right and below
/// `126 - t` left, its `dx` likewise down and up. The cell moves one step
/// that way when the target is empty (a cell that `wind_jumps` lifted
/// straight up goes two steps when that is empty too), and stays put when
/// the target is taken.
pub proof fn lemma_wind_pushes(c: Ctx, s: Scene, cell: Cell, wind: Wind)
    requires
        fits(c, s),
        cell.clock != next_clock(c.generation),
        cell.species != Species::Empty,
    ensures
        ({
            let t = spec_wind_threshold(cell.species) as int;
            let h = wind.dy - 126;
            let v = wind.dx - 126;
            &&& -t <= v <= t && h > t && sget(c, s, 1, 0).species == Species::Empty ==> blow_rule(c, s, cell, wind)
                == moveto(c, s, 1, 0, cell)
            &&& -t <= v <= t && h < -t && sget(c, s, -1, 0).species == Species::Empty ==> blow_rule(c, s, cell, wind)
                == moveto(c, s, -1, 0, cell)
            &&& -t <= v <= t && h > t && sget(c, s, 1, 0).species != Species::Empty ==> blow_rule(c, s, cell, wind) == s
            &&& -t <= v <= t && h < -t && sget(c, s, -1, 0).species != Species::Empty ==> blow_rule(c, s, cell, wind)
                == s
            &&& -t <= h <= t && v > t && sget(c, s, 0, 1).species == Species::Empty ==> blow_rule(c, s, cell, wind)
                == moveto(c, s, 0, 1, cell)
            &&& -t <= h <= t && v < -t && sget(c, s, 0, -1).species == Species::Empty && !(wind_jumps(cell.species)
                && sget(c, s, 0, -2).species == Species::Empty) ==> blow_rule(c, s, cell, wind) == moveto(c, s, 0, -1, cell)
            &&& -t <= h <= t && v < -t && sget(c, s, 0, -1).species == Species::Empty && wind_jumps(cell.species)
                && sget(c, s, 0, -2).species == Species::Empty ==> blow_rule(c, s, cell, wind) == moveto(c, s, 0, -2, cell)
            &&& h > t && v > t && sget(c, s, 1, 1).species == Species::Empty ==> blow_rule(c, s, cell, wind) == moveto(
                c,
                s,
                1,
                1,
                cell,
            )
            &&& h < -t && v > t && sget(c, s, -1, 1).species == Species::Empty ==> blow_rule(c, s, cell, wind) == moveto(
                c,
                s,
                -1,
                1,
                cell,
            )
            &&& h > t && v < -t && !wind_jumps(cell.species) && sget(c, s, 1, -1).species == Species::Empty ==> blow_rule(
                c,
                s,
                cell,
                wind,
            ) == moveto(c, s, 1, -1, cell)
            &&& h < -t && v < -t && !wind_jumps(cell.species) && sget(c, s, -1, -1).species == Species::Empty
                ==> blow_rule(c, s, cell, wind) == moveto(c, s, -1, -1, cell)
            &&& -t <= h <= t && -t <= v <= t ==> blow_rule(c, s, cell, wind) == s
        }),
{
    lemma_index_bounds(c.width, c.height, c.x, c.y);
    if in_grid(c, c.x, c.y - 2) {
        lemma_index_bounds(c.width, c.height, c.x, c.y - 2);
    }
}

/// The air flow moves a cell only into a cell that was empty, and so keeps
/// the count of each species on the grid.
pub proof fn lemma_blow_moves_into_empty(c: Ctx, s: Scene, cell: Cell, wind: Wind)
    requires
        fits(c, s),
        sget(c, s, 0, 0).species == cell.species,
    ensures
        kinds(blow_rule(c, s, cell, wind).cells) == kinds(s.cells),
        blow_rule(c, s, cell, wind) == s || exists|dx: int, dy: int|
            (dx != 0 || dy != 0) && #[trigger] sget(c, s, dx, dy).species == Species::Empty && blow_rule(c, s, cell, wind)
                == moveto(c, s, dx, dy, cell),
{
    let t = spec_wind_threshold(cell.species) as int;
    let dx = wind_step(wind.dy - 126, t);
    let dy = wind_step(wind.dx - 126, t);
    if cell.clock == next_clock(c.generation) || cell.species == Species::Empty {
    } else if (dx != 0 || dy != 0) && sget(c, s, dx, dy).species == Species::Empty {
        let s1 = stay(c, s, Cell::empty());
        if dy == -1 && sget(c, s1, dx, -2).species == Species::Empty && wind_jumps(cell.species) {
            lemma_index_bounds(c.width, c.height, c.x, c.y);
            lemma_index_bounds(c.width, c.height, c.x + dx, c.y - 2);
            assert(sget(c, s, dx, -2) == sget(c, s1, dx, -2));
            lemma_moveto_kinds(c, s, dx, -2, cell);
            assert(sget(c, s, dx, -2).species == Species::Empty);
        } else {
            lemma_moveto_kinds(c, s, dx, dy, cell);
            assert(sget(c, s, dx, dy).species == Species::Empty);
        }
    }
}

/// Air flow within a species' resistance on both axes does not move a cell
/// of that species; in particular still air (both components at 126)
/// moves nothing.
pub proof fn lemma_gentle_wind_moves_nothing(c: Ctx, s: Scene, cell: Cell, wind: Wind)
    requires
        -(spec_wind_threshold(cell.species) as int) <= wind.dx - 126 <= spec_wind_threshold(cell.species) as int,
        -(spec_wind_threshold(cell.species) as int) <= wind.dy - 126 <= spec_wind_threshold(cell.species) as int,
    ensures
        blow_rule(c, s, cell, wind) == s,
{
}

/// A cell written this generation rests for the rest of the tick: neither
/// the air flow nor its own rule moves it again.
pub proof fn lemma_fresh_cells_rest(c: Ctx, s: Scene, cell: Cell, wind: Wind, ds: Draws)
    requires
        cell.clock == next_clock(c.generation),
    ensures
        blow_rule(c, s, cell, wind) == s,
        update_rule(c, s, cell, ds) == s,
{
}

/// Empty space and walls do nothing on their turn, and the air flow never
/// moves empty space.
pub proof fn lemma_inert_species(c: Ctx, s: Scene, cell: Cell, wind: Wind, ds: Draws)
    ensures
        species_rule(Species::Empty, c, s, cell, ds) == s,
        species_rule(Species::Wall, c, s, cell, ds) == s,
        cell.species == Species::Empty ==> blow_rule(c, s, cell, wind) == s,
        cell.species == Species::Empty ==> update_rule(c, s, cell, ds) == s,
{
}

/// A tick keeps the grid's shape, its air flow and its history, and
/// advances the generation by two (wrapping past 255).
pub proof fn lemma_tick_keeps_shape(u: UniverseView, dss: Seq<Draws>)
    ensures
        tick_rule(u, dss).width == u.width,
        tick_rule(u, dss).height == u.height,
        tick_rule(u, dss).winds == u.winds,
        tick_rule(u, dss).undo == u.undo,
        tick_rule(u, dss).generation == wadd(wadd(u.generation, 1), 1),
{
}

/// The `n`-th position of a pass lies on the grid.
proof fn lemma_pass_position(u: UniverseView, n: int, reverse: bool)
    requires
        0 < n <= positions(u),
    ensures
        0 <= (n - 1) / u.height < u.width,
        0 <= (n - 1) % u.height < u.height,
        0 <= scan_column(u.width, (n - 1) / u.height, reverse) < u.width,
        0 <= grid_index(u.height, (n - 1) / u.height, (n - 1) % u.height) < u.width * u.height,
        0 <= grid_index(u.height, scan_column(u.width, (n - 1) / u.height, reverse), (n - 1) % u.height) < u.width
            * u.height,
{
    let h = u.height;
    vstd::arithmetic::div_mod::lemma_fundamental_div_mod(n - 1, h);
    assert(0 <= (n - 1) / h) by (nonlinear_arith)
        requires
            0 <= n - 1,
            0 < h,
    ;
    assert((n - 1) / h < u.width) by (nonlinear_arith)
        requires
            0 <= n - 1 < u.width * h,
            0 < h,
            n - 1 == h * ((n - 1) / h) + (n - 1) % h,
            0 <= (n - 1) % h < h,
    ;
    lemma_index_bounds(u.width, h, (n - 1) / h, (n - 1) % h);
    lemma_index_bounds(u.width, h, scan_column(u.width, (n - 1) / h, reverse), (n - 1) % h);
}

/// Over a grid of empty space the wind pass changes nothing.
proof fn lemma_wind_pass_on_empty(u: UniverseView, s: Scene, n: int)
    requires
        0 <= n <= positions(u),
        s.cells.len() == u.width * u.height,
        forall|i: int| 0 <= i < s.cells.len() ==> (#[trigger] s.cells[i]).species == Species::Empty,
    ensures
        wind_pass(u, s, n) == s,
    decreases n,
{
    if n > 0 {
        lemma_wind_pass_on_empty(u, s, n - 1);
        lemma_pass_position(u, n, false);
    }
}

/// Over a grid of empty space the update pass changes no cell.
proof fn lemma_update_pass_on_empty(u: UniverseView, s: Scene, reverse: bool, dss: Seq<Draws>, n: int)
    requires
        0 <= n <= positions(u),
        s.cells.len() == u.width * u.height,
        forall|i: int| 0 <= i < s.cells.len() ==> (#[trigger] s.cells[i]).species == Species::Empty,
    ensures
        update_pass(u, s, reverse, dss, n).cells == s.cells,
    decreases n,
{
    if n > 0 {
        lemma_update_pass_on_empty(u, s, reverse, dss, n - 1);
        lemma_pass_position(u, n, reverse);
    }
}

/// A grid of empty space stays empty space: a tick changes none of its
/// cells, whatever the draws.
pub proof fn lemma_empty_universe_stays_empty(u: UniverseView, dss: Seq<Draws>)
    requires
        u.cells.len() == u.width * u.height,
        forall|i: int| 0 <= i < u.cells.len() ==> (#[trigger] u.cells[i]).species == Species::Empty,
    ensures
        tick_rule(u, dss).cells == u.cells,
{
    let u1 = UniverseView { generation: wadd(u.generation, 1), ..u };
    let u2 = UniverseView { generation: wadd(wadd(u.generation, 1), 1), ..u };
    let s0 = Scene { cells: u.cells, burns: u.burns };
    lemma_wind_pass_on_empty(u1, s0, positions(u));
    lemma_update_pass_on_empty(u2, s0, u2.generation % 2 == 0, dss, positions(u));
}

impl Universe {
    /// Paints `species` with a round brush of diameter `size` centred on
    /// `(x, y)` (see `painted`): every cell under the brush that is empty,
    /// or every cell under it when the brush paints empty space, becomes a
    /// fresh cell stamped with the current generation. Nothing else
    /// changes.
    #[verifier::rlimit(60)]
    pub fn paint(&mut self, x: i32, y: i32, size: i32, species: Species)
        requires
            old(self).wf(),
        ensures
            final(self).wf(),
            final(self)@ == (UniverseView { cells: final(self)@.cells, ..old(self)@ }),
            final(self)@.cells.len() == old(self)@.cells.len(),
            forall|i: int|
                0 <= i < old(self)@.cells.len() ==> painted(
                    old(self)@,
                    x as int,
                    y as int,
                    size,
                    species,
                    i,
                    #[trigger] final(self)@.cells[i],
                ),
    {
        let ghost u0 = self@;
        let n = self.cells.len();
        let s2: i64 = size as i64 + 2;
        let s3: i64 = size as i64 + 3;
        let floor: i64 = if s2 >= 0 {
            s2 / 2
        } else {
            -((-s2) / 2)
        };
        let ciel: i64 = if s3 >= 0 {
            s3 / 2
        } else {
            -((-s3) / 2)
        };
        let wide: i128 = size as i128;
        proof {
            assert(0 <= wide * wide <= 0x4000_0000_0000_0000) by (nonlinear_arith)
                requires
                    -0x8000_0000 <= wide <= 0x7fff_ffff,
            ;
        }
        let sq: i128 = wide * wide;
        let g = self.generation;
        let v: i32 = (g % 127) as i32 - 60;
        let glow_v: u8 = (if v < 0 {
            -v
        } else {
            v
        }) as u8;
        let base: u8 = 60u8.wrapping_add(size as u8);
        let ghost lo = -floor as int;
        let ghost hi = ciel as int;
        let mut dx: i64 = -floor;
        while dx < ciel
            invariant
                self.wf(),
                self@ == (UniverseView { cells: self@.cells, ..u0 }),
                n == self@.cells.len() == u0.cells.len(),
                lo == -trunc_half(size + 2),
                hi == trunc_half(size + 3),
                lo == -floor,
                hi == ciel,
                sq == size * size,
                g == u0.generation,
                glow_v == glow(g),
                base == wadd(60, size as u8),
                lo <= dx <= hi || hi <= lo == dx,
                -0x4000_0002 <= lo,
                hi <= 0x4000_0002,
                forall|j: int|
                    0 <= j < n ==> #[trigger] paint_progress(u0, self@.cells[j], x as int, y as int, size, species, lo, hi, dx as int, lo, j),
            decreases ciel - dx,
        {
            let mut dy: i64 = -floor;
            while dy < ciel
                invariant
                    self.wf(),
                    self@ == (UniverseView { cells: self@.cells, ..u0 }),
                    n == self@.cells.len() == u0.cells.len(),
                    lo == -trunc_half(size + 2),
                    hi == trunc_half(size + 3),
                    lo == -floor,
                    hi == ciel,
                    sq == size * size,
                    g == u0.generation,
                    glow_v == glow(g),
                    base == wadd(60, size as u8),
                    lo <= dx < hi,
                    lo <= dy <= hi,
                    -0x4000_0002 <= lo,
                    hi <= 0x4000_0002,
                    forall|j: int|
                        0 <= j < n ==> #[trigger] paint_progress(u0, self@.cells[j], x as int, y as int, size, species, lo, hi, dx as int, dy as int, j),
                decreases ciel - dy,
            {
                let ghost before = self@.cells;
                let ghost mut rr: int = 0;
                let px: i64 = x as i64 + dx;
                let py: i64 = y as i64 + dy;
                proof {
                    assert(0 <= dx * dx <= 0x1_0000_0000_0000_0000) by (nonlinear_arith)
                        requires
                            -0x1_0000_0000 <= dx <= 0x1_0000_0000,
                    ;
                    assert(0 <= dy * dy <= 0x1_0000_0000_0000_0000) by (nonlinear_arith)
                        requires
                            -0x1_0000_0000 <= dy <= 0x1_0000_0000,
                    ;
                }
                let outside = 4 * (dx as i128 * dx as i128 + dy as i128 * dy as i128) > sq;
                let inside_grid = 0 <= px && px < self.width as i64 && 0 <= py && py < self.height as i64;
                if !outside && inside_grid {
                    let i = self.get_index(px as i32, py as i32);
                    if self.get_cell(px as i32, py as i32).species == Species::Empty || species == Species::Empty {
                        let r = gen_below(&mut self.rng, 30);
                        let ra = base.wrapping_add(r as u8).wrapping_add(glow_v);
                        self.cells.set(i, Cell { species, ra, rb: 0, clock: g });
                        proof {
                            rr = r as int;
                        }
                    }
                }
                proof {
                    lemma_paint_scan_step(
                        u0,
                        before,
                        self@.cells,
                        x as int,
                        y as int,
                        size,
                        species,
                        lo,
                        hi,
                        dx as int,
                        dy as int,
                        !outside,
                        rr,
                    );
                }
                dy = dy + 1;
            }
            proof {
                assert forall|j: int| 0 <= j < n implies #[trigger] paint_progress(
                    u0,
                    self@.cells[j],
                    x as int,
                    y as int,
                    size,
                    species,
                    lo,
                    hi,
                    dx + 1,
                    lo,
                    j,
                ) by {
                    assert(paint_progress(u0, self@.cells[j], x as int, y as int, size, species, lo, hi, dx as int, dy as int, j));
                }
            }
            dx = dx + 1;
        }
        proof {
            assert forall|j: int| 0 <= j < n implies painted(u0, x as int, y as int, size, species, j, #[trigger] self@.cells[j]) by {
                assert(paint_progress(u0, self@.cells[j], x as int, y as int, size, species, lo, hi, dx as int, lo, j));
            }
        }
    }

    /// The air flow `wind` acting on `cell` at the handle's position (see
    /// `blow_rule`).
    pub fn blow_wind(cell: Cell, wind: Wind, api: &mut SandApi)
        requires
            old(api).wf(),
        ensures
            final(api).continues(*old(api)),
            final(api).draws() == old(api).draws(),
            final(api).scene() == blow_rule(old(api).ctx(), old(api).scene(), cell, wind),
    {
        if cell.clock.wrapping_sub(api.generation()) == 1 {
            return;
        }
        if cell.species == Species::Empty {
            return;
        }
        let threshold = wind_threshold(cell.species) as i32;
        let wx = (wind.dy as i32) - 126;
        let wy = (wind.dx as i32) - 126;
        let dx: i32 = if wx > threshold {
            1
        } else if wx < -threshold {
            -1
        } else {
            0
        };
        let dy: i32 = if wy > threshold {
            1
        } else if wy < -threshold {
            -1
        } else {
            0
        };
        if (dx != 0 || dy != 0) && api.get(dx, dy).species == Species::Empty {
            api.set(0, 0, Cell::empty());
            let final_dy = if dy == -1 && api.get(dx, -2).species == Species::Empty && matches!(cell.species,
                Species::Sand | Species::Water | Species::Lava | Species::Acid | Species::Mite | Species::Dust
                | Species::Oil | Species::Rocket) {
                -2
            } else {
                dy
            };
            api.set(dx, final_dy, cell);
        }
    }

    /// Advances the universe by one tick (see `tick_rule`): the result is
    /// the tick under the draws that the turns of its update pass made,
    /// each below its bound.
    #[verifier::rlimit(60)]
    pub fn tick(&mut self)
        requires
            old(self).wf(),
        ensures
            final(self).wf(),
            exists|dss: Seq<Draws>|
                #![trigger tick_rule(old(self)@, dss)]
                dss.len() == positions(old(self)@) && draws_bounded(dss) && tick_draws_fit(old(self)@, dss) && final(self)@
                    == tick_rule(old(self)@, dss),
    {
        let mut u = Universe::new(0, 0);
        std::mem::swap(&mut u, self);
        let ghost u0 = u@;
        let ghost s0 = Scene { cells: u0.cells, burns: u0.burns };
        u.generation = u.generation.wrapping_add(1);
        let ghost u1 = u@;
        let h = u.height;
        let mut x: i32 = 0;
        while x < u.width
            invariant
                u.wf(),
                u@.width == u0.width,
                u@.height == u0.height == h,
                u@.winds == u0.winds,
                u@.undo == u0.undo,
                u@.generation == u1.generation,
                u1 == (UniverseView { generation: wadd(u0.generation, 1), ..u0 }),
                0 <= u0.width * u0.height,
                u0.width > 0 ==> 0 <= x <= u0.width,
                u0.width <= 0 ==> x == 0,
                0 <= x * h,
                (Scene { cells: u@.cells, burns: u@.burns }) == wind_pass(u1, s0, x * h),
            decreases u0.width - x,
        {
            proof {
                assert(h >= 0) by (nonlinear_arith)
                    requires
                        0 <= u0.width * u0.height,
                        u0.width > 0,
                        u0.height == h,
                ;
            }
            let mut y: i32 = 0;
            while y < u.height
                invariant
                    u.wf(),
                    u@.width == u0.width,
                    u@.height == u0.height == h,
                    u@.winds == u0.winds,
                    u@.undo == u0.undo,
                    u@.generation == u1.generation,
                    u1 == (UniverseView { generation: wadd(u0.generation, 1), ..u0 }),
                    0 <= x < u0.width,
                    0 <= y <= h,
                    0 <= x * h,
                    (Scene { cells: u@.cells, burns: u@.burns }) == wind_pass(u1, s0, x * h + y),
                decreases h - y,
            {
                proof {
                    lemma_index_bounds(u0.width, h as int, x as int, y as int);
                }
                let cell = u.get_cell(x, y);
                let wind = u.get_wind(x, y);
                let mut api = SandApi::new(u, x, y);
                Universe::blow_wind(cell, wind, &mut api);
                u = api.into_universe();
                y = y + 1;
            }
            proof {
                assert(x * h + h == (x + 1) * h) by (nonlinear_arith);
            }
            x = x + 1;
        }
        let ghost s1 = Scene { cells: u@.cells, burns: u@.burns };
        proof {
            if u0.width > 0 && u0.height > 0 {
                assert(x * h == positions(u0));
            } else {
                assert(x * h <= 0) by (nonlinear_arith)
                    requires
                        0 <= u0.width * u0.height,
                        u0.width > 0 ==> x == u0.width,
                        u0.width <= 0 ==> x == 0,
                        h == u0.height,
                        !(u0.width > 0 && u0.height > 0),
                ;
            }
            assert(s1 == wind_pass(u1, s0, positions(u0)));
        }
        u.generation = u.generation.wrapping_add(1);
        let ghost u2 = u@;
        let ghost uv2 = UniverseView { generation: u2.generation, ..u0 };
        let scan_reverse = u.generation % 2 == 0;
        let ghost mut dss: Seq<Draws> = Seq::empty();
        let mut x: i32 = 0;
        while x < u.width
            invariant
                u.wf(),
                u@.width == u0.width,
                u@.height == u0.height == h,
                u@.winds == u0.winds,
                u@.undo == u0.undo,
                u@.generation == uv2.generation,
                uv2 == (UniverseView { generation: wadd(wadd(u0.generation, 1), 1), ..u0 }),
                scan_reverse == (uv2.generation % 2 == 0),
                0 <= u0.width * u0.height,
                u0.width > 0 ==> 0 <= x <= u0.width,
                u0.width <= 0 ==> x == 0,
                0 <= x * h,
                dss.len() == x * h,
                draws_bounded(dss),
                pass_draws_fit(uv2, s1, scan_reverse, dss, x * h),
                (Scene { cells: u@.cells, burns: u@.burns }) == update_pass(uv2, s1, scan_reverse, dss, x * h),
            decreases u0.width - x,
        {
            proof {
                assert(h >= 0) by (nonlinear_arith)
                    requires
                        0 <= u0.width * u0.height,
                        u0.width > 0,
                        u0.height == h,
                ;
            }
            let scanx = if scan_reverse {
                u.width - (1 + x)
            } else {
                x
            };
            let mut y: i32 = 0;
            while y < u.height
                invariant
                    u.wf(),
                    u@.width == u0.width,
                    u@.height == u0.height == h,
                    u@.winds == u0.winds,
                    u@.undo == u0.undo,
                    u@.generation == uv2.generation,
                    uv2 == (UniverseView { generation: wadd(wadd(u0.generation, 1), 1), ..u0 }),
                    scan_reverse == (uv2.generation % 2 == 0),
                    0 <= x < u0.width,
                    scanx == scan_column(u0.width, x as int, scan_reverse),
                    0 <= y <= h,
                    0 <= x * h,
                    dss.len() == x * h + y,
                    draws_bounded(dss),
                    pass_draws_fit(uv2, s1, scan_reverse, dss, x * h + y),
                    (Scene { cells: u@.cells, burns: u@.burns }) == update_pass(uv2, s1, scan_reverse, dss, x * h + y),
                decreases h - y,
            {
                proof {
                    lemma_index_bounds(u0.width, h as int, x as int, y as int);
                }
                let ghost p = Scene { cells: u@.cells, burns: u@.burns };
                let ghost before = dss;
                let idx = u.get_index(scanx, y);
                let cell = u.get_cell(scanx, y);
                u.burns.set(idx, Wind { dx: 0, dy: 0, pressure: 0, density: 0 });
                let mut api = SandApi::new(u, scanx, y);
                Universe::update_cell(cell, &mut api);
                proof {
                    dss = dss.push(api.draws());
                    lemma_update_pass_prefix(uv2, s1, scan_reverse, before, dss, x * h + y);
                    lemma_pass_draws_fit_prefix(uv2, s1, scan_reverse, before, dss, x * h + y);
                    assert(api.draws().skip(0) =~= api.draws());
                    assert(dss[x * h + y] == api.draws());
                }
                u = api.into_universe();
                y = y + 1;
            }
            proof {
                assert(x * h + h == (x + 1) * h) by (nonlinear_arith);
            }
            x = x + 1;
        }
        proof {
            if u0.width > 0 && u0.height > 0 {
                assert(x * h == positions(u0));
            } else {
                assert(x * h <= 0) by (nonlinear_arith)
                    requires
                        0 <= u0.width * u0.height,
                        u0.width > 0 ==> x == u0.width,
                        u0.width <= 0 ==> x == 0,
                        h == u0.height,
                        !(u0.width > 0 && u0.height > 0),
                ;
            }
            assert(u@ == tick_rule(u0, dss));
            assert(tick_draws_fit(u0, dss));
        }
        std::mem::swap(&mut u, self);
    }

    /// The turn of `cell` at the handle's position (see `update_rule`).
    pub fn update_cell(cell: Cell, api: &mut SandApi)
        requires
            old(api).wf(),
        ensures
            final(api).continues(*old(api)),
            final(api).scene() == update_rule(old(api).ctx(), old(api).scene(), cell, final(api).new_draws(*old(api))),
            bounds(final(api).new_draws(*old(api))) == update_draws(old(api).ctx(), old(api).scene(), cell, final(api).new_draws(*old(api))),
            cell.clock == next_clock(old(api).ctx().generation) || !can_update(cell.species, cell) ==> *final(api)
                == *old(api),
    {
        if cell.clock.wrapping_sub(api.generation()) == 1 {
            return;
        }
        if !may_update(cell.species, cell) {
            return;
        }
        cell.update(api);
    }
}

/// Whether the draws `ds2` begin with the draws `ds1`.
pub open spec fn extends(ds1: Draws, ds2: Draws) -> bool {
    &&& ds1.len() <= ds2.len()
    &&& forall|j: int| 0 <= j < ds1.len() ==> #[trigger] ds2[j] == ds1[j]
}

/// The draws handed out since `start` only grow as a turn goes on.
pub proof fn lemma_new_draws_extend(start: SandApi, mid: SandApi, fin: SandApi)
    requires
        start.draws().len() <= mid.draws().len(),
        fin.continues(mid),
    ensures
        extends(mid.new_draws(start), fin.new_draws(start)),
{
    let n = start.draws().len() as int;
    assert forall|j: int| 0 <= j < mid.new_draws(start).len() implies #[trigger] fin.new_draws(start)[j]
        == mid.new_draws(start)[j] by {
        assert(fin.draws()[n + j] == mid.draws()[n + j]);
    }
}

/// Locality of a turn: while a handle is consistent, every cell that
/// differs from the start of the turn lies within two steps of the position
/// and was written this generation, and no burn but the position's own
/// differs.
pub proof fn lemma_turn_is_local(api: SandApi)
    requires
        api.wf(),
    ensures
        forall|i: int|
            0 <= i < api.scene().cells.len() && !near(api.ctx(), i) ==> api.scene().cells[i]
                == api.ctx().base_cells[i],
        forall|i: int|
            0 <= i < api.scene().cells.len() && api.scene().cells[i] != api.ctx().base_cells[i]
                ==> api.scene().cells[i].clock == next_clock(api.ctx().generation),
        forall|i: int|
            0 <= i < api.scene().burns.len() && i != grid_index(api.ctx().height, api.ctx().x, api.ctx().y)
                ==> api.scene().burns[i] == api.ctx().base_burns[i],
{
}

} // verus!
