//! Cells, sectors and the bookkeeping of property queries.
use vstd::prelude::*;
use std::ops::Range;
use itertools::Itertools;
use crate::keyed::KeyedTable;

verus! {

/// Whether a cell is one of those that `sector_from_cell` places one sector
/// below the quotient of `cell + 4` by 8 rounded down: left of -4, with
/// `cell + 4` a multiple of 8 (-12, -20, ...).
pub open spec fn spec_sector_shifted(cell: int) -> bool {
    cell < -4 && (cell + 4) % 8 == 0
}

/// The sector `sector_from_cell` assigns to a cell: the quotient of
/// `cell + 4` by 8 rounded down, one less for the cells that
/// `spec_sector_shifted` singles out.
pub open spec fn spec_sector_from_cell(cell: int) -> int {
    if spec_sector_shifted(cell) {
        (cell + 4) / 8 - 1
    } else {
        (cell + 4) / 8
    }
}

/// Maps a cell coordinate to the coordinate of the sector that holds it:
/// `(cell + 4) / 8` with Rust's division, lowered by one for every cell left
/// of -4.
pub fn sector_from_cell(cell: i32) -> (sector: i32)
    requires
        cell <= i32::MAX - 4,
    ensures
        sector == spec_sector_from_cell(cell as int),
{
    let mut sector = (cell + 4) / 8;
    if cell < -4 {
        sector -= 1;
    }
    sector
}

/// Lowest cell of the range `cells_from_sector` returns for a sector.
pub open spec fn spec_first_cell(sector: int) -> int {
    sector * 8 - 4
}

/// End (exclusive) of the range `cells_from_sector` returns for a sector:
/// nine cells, from `8 * sector - 4` to `8 * sector + 4` inclusive.
pub open spec fn spec_cells_end(sector: int) -> int {
    sector * 8 + 5
}

/// The cells to query for a sector: from `8 * sector - 4` up to and including
/// `8 * sector + 4`.
pub fn cells_from_sector(sector: i32) -> (cells: Range<i32>)
    requires
        i32::MIN <= spec_first_cell(sector as int),
        spec_cells_end(sector as int) <= i32::MAX,
    ensures
        cells.start == spec_first_cell(sector as int),
        cells.end == spec_cells_end(sector as int),
{
    let min = sector * 8 - 4;
    let max = min + 8;
    min..(max + 1)
}

/// A cell lies among the eight cells `8 * s - 4 ..= 8 * s + 3` of its sector
/// `s`, for every cell but those that `spec_sector_shifted` singles out.
pub proof fn lemma_cell_within_its_sector(cell: int)
    requires
        !spec_sector_shifted(cell),
    ensures
        spec_sector_from_cell(cell) * 8 - 4 <= cell <= spec_sector_from_cell(cell) * 8 + 3,
{
    let q = (cell + 4) / 8;
    assert(q * 8 <= cell + 4 < q * 8 + 8);
}

/// Each of the eight cells `8 * s - 4 ..= 8 * s + 3` of a sector `s` is mapped
/// back to `s`, but for those that `spec_sector_shifted` singles out.
pub proof fn lemma_sector_of_its_cells(sector: int, cell: int)
    requires
        sector * 8 - 4 <= cell <= sector * 8 + 3,
        !spec_sector_shifted(cell),
    ensures
        spec_sector_from_cell(cell) == sector,
{
    let q = (cell + 4) / 8;
    assert(q * 8 <= cell + 4 < q * 8 + 8);
    assert(q == sector) by (nonlinear_arith)
        requires
            q * 8 <= cell + 4 < q * 8 + 8,
            sector * 8 <= cell + 4 < sector * 8 + 8,
    ;
}

/// Every cell lies in the range of cells that `cells_from_sector` gives for
/// the sector that `sector_from_cell` assigns to it: querying the cells of a
/// cell's sector always covers that cell.
pub proof fn lemma_cell_in_cells_of_its_sector(cell: int)
    ensures
        spec_first_cell(spec_sector_from_cell(cell)) <= cell < spec_cells_end(
            spec_sector_from_cell(cell),
        ),
{
    let q = (cell + 4) / 8;
    assert(q * 8 <= cell + 4 < q * 8 + 8);
    if spec_sector_shifted(cell) {
        assert(q * 8 == cell + 4);
    }
}

/// The pairs of the cartesian product of two ranges, in the order in which
/// `Itertools::cartesian_product` yields them: the first coordinate varies
/// slowest.
pub open spec fn spec_product_at(a: Range<i32>, b: Range<i32>, k: int) -> (i32, i32) {
    let width = b.end - b.start;
    ((a.start + k / width) as i32, (b.start + k % width) as i32)
}

/// Collects `itertools::Itertools::cartesian_product` of two ranges. The
/// contract states what the crate documents: every element of `a` paired
/// with every element of `b`, `a` in the outer position, in ascending order.
#[verifier::external_body]
fn cartesian_product_of_ranges(a: Range<i32>, b: Range<i32>) -> (pairs: Vec<(i32, i32)>)
    requires
        a.start <= a.end,
        b.start <= b.end,
        (a.end - a.start) * (b.end - b.start) <= usize::MAX,
    ensures
        pairs@.len() == (a.end - a.start) * (b.end - b.start),
        forall|k: int| 0 <= k < pairs@.len() ==> #[trigger] pairs@[k] == spec_product_at(a, b, k),
{
    a.cartesian_product(b).collect()
}

/// Every cell coordinate pair of the sector at (`sector_x`, `sector_z`): the
/// product of the two cell ranges of `cells_from_sector`, x varying slowest.
pub fn cell_coords_from_sector_coords(sector_x: i32, sector_z: i32) -> (cells: Vec<(i32, i32)>)
    requires
        i32::MIN <= spec_first_cell(sector_x as int),
        spec_cells_end(sector_x as int) <= i32::MAX,
        i32::MIN <= spec_first_cell(sector_z as int),
        spec_cells_end(sector_z as int) <= i32::MAX,
    ensures
        cells@.len() == 81,
        forall|k: int|
            0 <= k < 81 ==> #[trigger] cells@[k] == (
                (spec_first_cell(sector_x as int) + k / 9) as i32,
                (spec_first_cell(sector_z as int) + k % 9) as i32,
            ),
{
    let xs = cells_from_sector(sector_x);
    let zs = cells_from_sector(sector_z);
    assert(xs.end - xs.start == 9 && zs.end - zs.start == 9);
    cartesian_product_of_ranges(xs, zs)
}

/// What a query of the world is doing at the moment.
#[derive(Debug)]
pub enum Query {
    Active(ActiveQuery),
    Live(LiveUpdates),
    /// No query is running.
    Idle,
}

/// A query in progress.
#[derive(Debug)]
pub struct ActiveQuery {
    /// Indicates next object is not a new cell
    pub in_cell: bool,
}

impl ActiveQuery {
    pub fn new() -> (query: Self)
        ensures
            !query.in_cell,
    {
        ActiveQuery { in_cell: false }
    }
}

/// The rectangle of cells, bounds included, for which live updates arrive.
#[derive(Debug)]
pub struct LiveUpdates {
    pub min_cell_x: i32,
    pub max_cell_x: i32,
    pub min_cell_z: i32,
    pub max_cell_z: i32,
}

impl LiveUpdates {
    /// Whether the cell (`cell_x`, `cell_z`) lies in the rectangle.
    pub fn contains(&self, cell_x: i32, cell_z: i32) -> (inside: bool)
        ensures
            inside == (self.min_cell_x <= cell_x <= self.max_cell_x && self.min_cell_z <= cell_z
                <= self.max_cell_z),
    {
        self.min_cell_x <= cell_x && cell_x <= self.max_cell_x && self.min_cell_z <= cell_z
            && cell_z <= self.max_cell_z
    }
}

/// The key of a sequence counter: the world's name and the sector's
/// coordinates.
pub type SectorKey = (Seq<u8>, i32, i32);

/// The number `inc_and_get` hands out for `key`: one more than the last
/// number handed out for it, or than `start` for a key never seen before.
pub open spec fn spec_next_sequence(counters: Map<SectorKey, i32>, key: SectorKey, start: i32) -> int {
    if counters.contains_key(key) {
        counters[key] + 1
    } else {
        start + 1
    }
}

/// Per world and per sector, the sequence number last handed out.
#[derive(Debug)]
pub struct SequenceNums(KeyedTable<(Vec<u8>, i32, i32), i32>);

impl View for SequenceNums {
    type V = Map<SectorKey, i32>;

    closed spec fn view(&self) -> Map<SectorKey, i32> {
        self.0@
    }
}

impl SequenceNums {
    /// No counter started yet.
    pub fn new() -> (nums: Self)
        ensures
            nums@ == Map::<SectorKey, i32>::empty(),
    {
        SequenceNums(KeyedTable::new())
    }

    /// Advances the counter of the sector (`sector_x`, `sector_z`) of `world`,
    /// starting it at `start` if it does not exist yet, and returns its new
    /// value.
    pub fn inc_and_get(&mut self, world: Vec<u8>, sector_x: i32, sector_z: i32, start: i32) -> (n: i32)
        requires
            spec_next_sequence(old(self)@, (world@, sector_x, sector_z), start) <= i32::MAX,
        ensures
            n == spec_next_sequence(old(self)@, (world@, sector_x, sector_z), start),
            final(self)@ == old(self)@.insert((world@, sector_x, sector_z), n),
    {
        let key = (world, sector_x, sector_z);
        let current = match self.0.get(&key) {
            Some(v) => *v,
            None => start,
        };
        let n = current + 1;
        self.0.insert(key, n);
        n
    }
}

/// Two calls of `inc_and_get` on one sector of one world hand out consecutive
/// numbers, whatever `start` the second call passes.
pub proof fn lemma_sequence_consecutive(
    counters: Map<SectorKey, i32>,
    key: SectorKey,
    start: i32,
    later_start: i32,
)
    requires
        spec_next_sequence(counters, key, start) <= i32::MAX,
    ensures
        spec_next_sequence(
            counters.insert(key, spec_next_sequence(counters, key, start) as i32),
            key,
            later_start,
        ) == spec_next_sequence(counters, key, start) + 1,
{
}

/// Advancing the counter of one sector leaves the counter of every other
/// sector, and of every other world, as it was.
pub proof fn lemma_sequence_independent(
    counters: Map<SectorKey, i32>,
    key: SectorKey,
    value: i32,
    other: SectorKey,
    start: i32,
)
    requires
        other != key,
    ensures
        spec_next_sequence(counters.insert(key, value), other, start) == spec_next_sequence(
            counters,
            other,
            start,
        ),
{
}

} // verus!
