//! The grid, its cells, the order in which coordinates are scanned, and the
//! random selection of the cells that spawn.

use rand::Rng;
use vstd::prelude::*;

verus! {

/// Width of the grid, in columns.
pub const WIDTH: u16 = 200;

/// Height of the grid, in rows.
pub const HEIGHT: u16 = 100;

/// Number of coordinates in the grid.
pub const GRID_SIZE: usize = 20000;

/// Default chance, in percent, that a coordinate spawns a cell.
pub const SPAWN_CHANCE: u32 = 1;

/// A selected grid coordinate: column, then row.
#[derive(Clone, Copy, Debug, PartialEq, Eq, Structural)]
pub struct Cell(pub u16, pub u16);

impl Cell {
    /// The coordinate lies inside the grid.
    pub open spec fn in_grid(self) -> bool {
        self.0 < WIDTH && self.1 < HEIGHT
    }
}

/// Position of the coordinate (x, y) in the scan: columns outer, rows inner.
pub open spec fn scan_index(x: int, y: int) -> int {
    x * HEIGHT as int + y
}

/// The coordinate at position `i` of the scan.
pub open spec fn scan_cell(i: int) -> Cell {
    Cell((i / HEIGHT as int) as u16, (i % HEIGHT as int) as u16)
}

/// `a` comes before `b` when columns are compared first, then rows.
pub open spec fn scan_before(a: Cell, b: Cell) -> bool {
    a.0 < b.0 || (a.0 == b.0 && a.1 < b.1)
}

/// The whole scan: every coordinate of the grid, in scan order.
pub open spec fn full_scan() -> Seq<Cell> {
    Seq::new(GRID_SIZE as nat, |i: int| scan_cell(i))
}

/// The cells spawned among the first `n` coordinates of the scan, where
/// `samples[i]` is the sample drawn for the coordinate at position `i`.
pub open spec fn spawned(samples: Seq<u32>, chance: u32, n: nat) -> Seq<Cell>
    decreases n,
{
    if n == 0 {
        Seq::empty()
    } else {
        let prev = spawned(samples, chance, (n - 1) as nat);
        if samples[n - 1] < chance {
            prev.push(scan_cell(n - 1))
        } else {
            prev
        }
    }
}

/// Every sample lies in [0, 100) and there is one for each coordinate.
pub open spec fn valid_samples(samples: Seq<u32>) -> bool {
    &&& samples.len() == GRID_SIZE
    &&& forall|i: int| 0 <= i < samples.len() ==> samples[i] < 100
}

/// The coordinate at position `i` of the scan.
pub fn cell_at(i: usize) -> (c: Cell)
    requires
        i < GRID_SIZE,
    ensures
        c == scan_cell(i as int),
        c.in_grid(),
{
    Cell((i / 100) as u16, (i % 100) as u16)
}

/// Whether a coordinate whose sample is `sample` spawns a cell, for a spawn
/// chance of `chance` percent.
pub fn should_spawn(sample: u32, chance: u32) -> (r: bool)
    ensures
        r == (sample < chance),
{
    sample < chance
}

/// The cells spawned over one pass of the whole grid, in scan order, where
/// `samples[i]` is the sample drawn for the coordinate at position `i`.
pub fn select_cells(samples: &Vec<u32>, chance: u32) -> (cells: Vec<Cell>)
    requires
        samples@.len() == GRID_SIZE,
    ensures
        cells@ == spawned(samples@, chance, GRID_SIZE as nat),
{
    let mut cells: Vec<Cell> = Vec::new();
    let mut x: u16 = 0;
    while x < WIDTH
        invariant
            samples@.len() == GRID_SIZE,
            x <= WIDTH,
            cells@ == spawned(samples@, chance, scan_index(x as int, 0) as nat),
        decreases WIDTH - x,
    {
        let mut y: u16 = 0;
        while y < HEIGHT
            invariant
                samples@.len() == GRID_SIZE,
                x < WIDTH,
                y <= HEIGHT,
                cells@ == spawned(samples@, chance, scan_index(x as int, y as int) as nat),
            decreases HEIGHT - y,
        {
            let i: usize = x as usize * 100 + y as usize;
            let cell = Cell(x, y);
            assert(cell == scan_cell(i as int));
            if should_spawn(samples[i], chance) {
                cells.push(cell);
            }
            y = y + 1;
        }
        x = x + 1;
    }
    cells
}

/// Relies on rand's thread-local generator and `Rng::gen_range`, which draws
/// uniformly from the half-open range and panics only when it is empty.
#[verifier::external_body]
fn random_percent() -> (r: u32)
    ensures
        r < 100,
{
    rand::thread_rng().gen_range(0u32..100u32)
}

/// Draws one sample in [0, 100) for each coordinate, in scan order.
pub fn draw_samples() -> (samples: Vec<u32>)
    ensures
        valid_samples(samples@),
{
    let mut samples: Vec<u32> = Vec::new();
    let mut i: usize = 0;
    while i < GRID_SIZE
        invariant
            i <= GRID_SIZE,
            samples@.len() == i,
            forall|j: int| 0 <= j < i ==> samples@[j] < 100,
        decreases GRID_SIZE - i,
    {
        let r = random_percent();
        samples.push(r);
        i = i + 1;
    }
    samples
}

/// Seeds the grid: one random sample per coordinate, and a cell wherever the
/// sample falls below `chance` percent.
pub fn seed_cells(chance: u32) -> (cells: Vec<Cell>)
    ensures
        exists|s: Seq<u32>| valid_samples(s) && cells@ == spawned(s, chance, GRID_SIZE as nat),
        chance == 0 ==> cells@.len() == 0,
        chance >= 100 ==> cells@ == full_scan(),
        forall|j: int| 0 <= j < cells@.len() ==> (#[trigger] cells@[j]).in_grid(),
{
    let samples = draw_samples();
    let cells = select_cells(&samples, chance);
    proof {
        lemma_never_spawns(samples@, chance);
        lemma_always_spawns(samples@, chance);
        lemma_spawned_members(samples@, chance);
        assert forall|j: int| 0 <= j < cells@.len() implies (#[trigger] cells@[j]).in_grid() by {
            assert(cells@.contains(cells@[j]));
        }
    }
    cells
}

/// A chance of zero spawns no cell, whatever the samples.
pub proof fn lemma_never_spawns(samples: Seq<u32>, chance: u32)
    requires
        samples.len() == GRID_SIZE,
    ensures
        chance == 0 ==> spawned(samples, chance, GRID_SIZE as nat).len() == 0,
{
    if chance == 0 {
        lemma_spawned_empty(samples, GRID_SIZE as nat);
    }
}

proof fn lemma_spawned_empty(samples: Seq<u32>, n: nat)
    requires
        n <= samples.len(),
    ensures
        spawned(samples, 0, n).len() == 0,
    decreases n,
{
    if n > 0 {
        lemma_spawned_empty(samples, (n - 1) as nat);
    }
}

/// A chance of 100 percent or more, with samples in [0, 100), spawns a cell
/// at every coordinate, each exactly once and in scan order.
pub proof fn lemma_always_spawns(samples: Seq<u32>, chance: u32)
    requires
        valid_samples(samples),
    ensures
        chance >= 100 ==> spawned(samples, chance, GRID_SIZE as nat) == full_scan(),
{
    if chance >= 100 {
        lemma_spawned_all(samples, chance, GRID_SIZE as nat);
        assert(spawned(samples, chance, GRID_SIZE as nat) =~= full_scan());
    }
}

proof fn lemma_spawned_all(samples: Seq<u32>, chance: u32, n: nat)
    requires
        valid_samples(samples),
        chance >= 100,
        n <= samples.len(),
    ensures
        spawned(samples, chance, n) =~= Seq::new(n, |i: int| scan_cell(i)),
    decreases n,
{
    if n > 0 {
        lemma_spawned_all(samples, chance, (n - 1) as nat);
    }
}

/// Each coordinate decides for itself: the coordinate at position `i` of the
/// scan is among the spawned cells exactly when its own sample lies below
/// the chance, and no other cell is ever spawned.
pub proof fn lemma_spawned_members(samples: Seq<u32>, chance: u32)
    requires
        samples.len() == GRID_SIZE,
    ensures
        forall|i: int| 0 <= i < GRID_SIZE ==>
            (#[trigger] spawned(samples, chance, GRID_SIZE as nat).contains(scan_cell(i))
                <==> samples[i] < chance),
        forall|c: Cell| #[trigger] spawned(samples, chance, GRID_SIZE as nat).contains(c) ==>
            c.in_grid(),
{
    lemma_scan_order();
    lemma_spawned_prefix(samples, chance, GRID_SIZE as nat);
}

proof fn lemma_spawned_prefix(samples: Seq<u32>, chance: u32, n: nat)
    requires
        samples.len() == GRID_SIZE,
        n <= GRID_SIZE,
    ensures
        forall|c: Cell| #[trigger] spawned(samples, chance, n).contains(c) ==>
            exists|k: int| 0 <= k < n && samples[k] < chance && c == scan_cell(k),
        forall|i: int| 0 <= i < n ==>
            (#[trigger] spawned(samples, chance, n).contains(scan_cell(i)) <==> samples[i] < chance),
    decreases n,
{
    if n > 0 {
        let m = (n - 1) as nat;
        lemma_spawned_prefix(samples, chance, m);
        lemma_scan_order();
        let prev = spawned(samples, chance, m);
        let cur = spawned(samples, chance, n);
        assert forall|c: Cell| #[trigger] cur.contains(c) implies
            exists|k: int| 0 <= k < n && samples[k] < chance && c == scan_cell(k) by {
            if !prev.contains(c) {
                assert(c == scan_cell(m as int));
            }
        }
        assert forall|i: int| 0 <= i < n implies
            (#[trigger] cur.contains(scan_cell(i)) <==> samples[i] < chance) by {
            if i < m {
                if scan_cell(i) == scan_cell(m as int) {
                    assert(scan_index(scan_cell(i).0 as int, scan_cell(i).1 as int) == i);
                    assert(scan_index(scan_cell(m as int).0 as int, scan_cell(m as int).1 as int)
                        == m);
                }
                if samples[m as int] < chance {
                    assert(cur == prev.push(scan_cell(m as int)));
                    if cur.contains(scan_cell(i)) {
                        let j = choose|j: int| 0 <= j < cur.len() && cur[j] == scan_cell(i);
                        if j < prev.len() {
                            assert(prev[j] == cur[j]);
                        }
                    }
                    if prev.contains(scan_cell(i)) {
                        let j = choose|j: int| 0 <= j < prev.len() && prev[j] == scan_cell(i);
                        assert(cur[j] == scan_cell(i));
                    }
                }
            } else {
                if samples[m as int] < chance {
                    assert(cur == prev.push(scan_cell(m as int)));
                    assert(cur[prev.len() as int] == scan_cell(m as int));
                } else {
                    if prev.contains(scan_cell(i)) {
                        let k = choose|k: int| 0 <= k < m && samples[k] < chance && scan_cell(i) == scan_cell(k);
                        assert(scan_index(scan_cell(k).0 as int, scan_cell(k).1 as int) == k);
                    }
                }
            }
        }
    }
}

/// The scan visits every coordinate of the grid exactly once, columns outer
/// and rows inner: positions and coordinates correspond one to one, and a
/// later position holds a later coordinate.
pub proof fn lemma_scan_order()
    ensures
        forall|i: int| #![trigger scan_cell(i)] 0 <= i < GRID_SIZE ==> {
            &&& scan_cell(i).in_grid()
            &&& scan_index(scan_cell(i).0 as int, scan_cell(i).1 as int) == i
        },
        forall|x: int, y: int| #![trigger scan_index(x, y)] 0 <= x < WIDTH && 0 <= y < HEIGHT ==> {
            &&& 0 <= scan_index(x, y) < GRID_SIZE
            &&& scan_cell(scan_index(x, y)) == Cell(x as u16, y as u16)
        },
        forall|i: int, j: int| 0 <= i < j < GRID_SIZE ==> #[trigger] scan_before(scan_cell(i), scan_cell(j)),
{
    assert forall|x: int, y: int| 0 <= x < WIDTH && 0 <= y < HEIGHT implies {
            &&& 0 <= #[trigger] scan_index(x, y) < GRID_SIZE
            &&& scan_cell(scan_index(x, y)) == Cell(x as u16, y as u16)
        } by {
        let i = scan_index(x, y);
        assert(i / 100 == x && i % 100 == y) by (nonlinear_arith)
            requires i == x * 100 + y, 0 <= y < 100;
    }
    assert forall|i: int, j: int| 0 <= i < j < GRID_SIZE implies #[trigger] scan_before(scan_cell(i), scan_cell(j)) by {
        assert(i / 100 <= j / 100) by (nonlinear_arith) requires 0 <= i < j;
        assert(i / 100 == j / 100 ==> i % 100 < j % 100) by (nonlinear_arith) requires 0 <= i < j;
    }
}

} // verus!
