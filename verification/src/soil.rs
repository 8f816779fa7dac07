//! The soil layer: a fixed-size, row-major grid of cells, each either
//! untilled or tilled, plus the till requests that mutate it.
//!
//! Out-of-bounds till requests are dropped silently: the grid never wraps
//! and never panics on a bad coordinate.

use vstd::prelude::*;

verus! {

/// The cultivation state of one soil cell.
#[derive(Clone, Copy, PartialEq, Eq, Structural, Debug)]
pub enum SoilState {
    Untilled,
    Tilled,
}

/// A request to mark one cell as worked. Produced by the player's tool
/// action, consumed by the autotiler; it lives for exactly one tick.
#[derive(Clone, Copy, PartialEq, Eq, Structural, Debug)]
pub struct TillRequest {
    pub x: u32,
    pub y: u32,
}

/// True iff some request in `reqs` targets the cell `(x, y)`.
pub open spec fn requests_hit(reqs: Seq<TillRequest>, x: int, y: int) -> bool {
    exists|k: int| 0 <= k < reqs.len() && #[trigger] reqs[k].x == x && reqs[k].y == y
}

/// Row-major grid of soil cells; `cells[y][x]` is the cell in column `x` of
/// row `y`. Row `0` is the northern edge: south is `y + 1`. The dimensions
/// are fixed at construction.
pub struct SoilMap {
    pub cells: Vec<Vec<SoilState>>,
}

impl SoilMap {
    /// Well-formed: every row has the same width.
    pub open spec fn wf(&self) -> bool {
        forall|y: int|
            0 <= y < self.cells@.len() ==> (#[trigger] self.cells@[y])@.len()
                == self.spec_width()
    }

    pub open spec fn spec_height(&self) -> nat {
        self.cells@.len()
    }

    pub open spec fn spec_width(&self) -> nat {
        if self.cells@.len() == 0 {
            0
        } else {
            self.cells@[0]@.len()
        }
    }

    pub open spec fn in_bounds(&self, x: int, y: int) -> bool {
        0 <= x < self.spec_width() && 0 <= y < self.spec_height()
    }

    pub open spec fn spec_cell(&self, x: int, y: int) -> SoilState {
        self.cells@[y]@[x]
    }

    /// True iff `(x, y)` exists and holds `target`. An out-of-bounds
    /// position never matches.
    pub open spec fn cell_matches(&self, x: int, y: int, target: SoilState) -> bool {
        self.in_bounds(x, y) && self.spec_cell(x, y) == target
    }

    /// A fresh grid of `width` x `height` cells, all untilled.
    pub fn new(width: usize, height: usize) -> (map: SoilMap)
        ensures
            map.wf(),
            map.spec_width() == if height == 0 { 0nat } else { width as nat },
            map.spec_height() == height,
            forall|x: int, y: int|
                map.in_bounds(x, y) ==> map.spec_cell(x, y) == SoilState::Untilled,
    {
        let mut cells: Vec<Vec<SoilState>> = Vec::new();
        let mut y: usize = 0;
        while y < height
            invariant
                y <= height,
                cells@.len() == y,
                forall|r: int|
                    0 <= r < y ==> (#[trigger] cells@[r])@.len() == width,
                forall|r: int, c: int|
                    0 <= r < y && 0 <= c < width ==> #[trigger] cells@[r]@[c]
                        == SoilState::Untilled,
            decreases height - y,
        {
            let mut row: Vec<SoilState> = Vec::new();
            let mut x: usize = 0;
            while x < width
                invariant
                    x <= width,
                    row@.len() == x,
                    forall|c: int| 0 <= c < x ==> row@[c] == SoilState::Untilled,
                decreases width - x,
            {
                row.push(SoilState::Untilled);
                x = x + 1;
            }
            cells.push(row);
            y = y + 1;
        }
        SoilMap { cells }
    }

    pub fn width(&self) -> (w: usize)
        requires
            self.wf(),
        ensures
            w == self.spec_width(),
    {
        if self.cells.len() == 0 {
            0
        } else {
            self.cells[0].len()
        }
    }

    pub fn height(&self) -> (h: usize)
        ensures
            h == self.spec_height(),
    {
        self.cells.len()
    }

    /// The state of cell `(x, y)`, or `None` when the position is out of
    /// bounds. Access outside the grid is explicit, never wrapped.
    pub fn get(&self, x: u32, y: u32) -> (r: Option<SoilState>)
        requires
            self.wf(),
        ensures
            r matches Some(s) ==> self.in_bounds(x as int, y as int)
                && s == self.spec_cell(x as int, y as int),
            r is None <==> !self.in_bounds(x as int, y as int),
    {
        if (y as usize) < self.cells.len() {
            let row = &self.cells[y as usize];
            if (x as usize) < row.len() {
                return Some(row[x as usize]);
            }
        }
        None
    }

    /// Marks cell `(x, y)` as tilled. A request outside the grid changes
    /// nothing; every other cell keeps its state either way.
    pub fn till(&mut self, x: u32, y: u32)
        requires
            old(self).wf(),
        ensures
            final(self).wf(),
            final(self).spec_width() == old(self).spec_width(),
            final(self).spec_height() == old(self).spec_height(),
            old(self).in_bounds(x as int, y as int) ==> final(self).spec_cell(
                x as int,
                y as int,
            ) == SoilState::Tilled,
            forall|i: int, j: int|
                old(self).in_bounds(i, j) && !(i == x && j == y)
                    ==> final(self).spec_cell(i, j) == old(self).spec_cell(i, j),
            !old(self).in_bounds(x as int, y as int) ==> final(self).cells@
                == old(self).cells@,
    {
        if (y as usize) < self.cells.len() {
            let row_len = self.cells[y as usize].len();
            if (x as usize) < row_len {
                self.cells[y as usize][x as usize] = SoilState::Tilled;
            }
        }
    }

    /// Applies one tick's batch of till requests in order. Afterwards a cell
    /// is tilled exactly when it already was or when some request in the
    /// batch targets it; in particular the order of the batch does not
    /// matter.
    pub fn apply_till_requests(&mut self, requests: &Vec<TillRequest>)
        requires
            old(self).wf(),
        ensures
            final(self).wf(),
            final(self).spec_width() == old(self).spec_width(),
            final(self).spec_height() == old(self).spec_height(),
            forall|i: int, j: int|
                old(self).in_bounds(i, j) ==> (final(self).spec_cell(i, j)
                    == SoilState::Tilled <==> (old(self).spec_cell(i, j)
                    == SoilState::Tilled || requests_hit(requests@, i, j))),
    {
        let ghost g0 = *self;
        let mut k: usize = 0;
        while k < requests.len()
            invariant
                self.wf(),
                k <= requests@.len(),
                self.spec_width() == g0.spec_width(),
                self.spec_height() == g0.spec_height(),
                forall|i: int, j: int|
                    g0.in_bounds(i, j) ==> (self.spec_cell(i, j) == SoilState::Tilled
                        <==> (g0.spec_cell(i, j) == SoilState::Tilled
                        || requests_hit(requests@.subrange(0, k as int), i, j))),
            decreases requests@.len() - k,
        {
            let req = requests[k];
            self.till(req.x, req.y);
            proof {
                assert forall|i: int, j: int| g0.in_bounds(i, j) implies (
                    self.spec_cell(i, j) == SoilState::Tilled <==> (
                    g0.spec_cell(i, j) == SoilState::Tilled
                    || requests_hit(requests@.subrange(0, k + 1 as int), i, j))) by {
                    let prefix = requests@.subrange(0, k as int);
                    let extended = requests@.subrange(0, k + 1 as int);
                    assert(extended =~= prefix.push(requests@[k as int]));
                    if requests_hit(prefix, i, j) {
                        let w = choose|w: int|
                            0 <= w < prefix.len() && #[trigger] prefix[w].x == i
                                && prefix[w].y == j;
                        assert(extended[w] == prefix[w]);
                        assert(requests_hit(extended, i, j));
                    }
                    if requests_hit(extended, i, j) && !(req.x == i && req.y == j) {
                        let w = choose|w: int|
                            0 <= w < extended.len() && #[trigger] extended[w].x == i
                                && extended[w].y == j;
                        assert(w < prefix.len());
                        assert(prefix[w] == extended[w]);
                        assert(requests_hit(prefix, i, j));
                    }
                    if req.x == i && req.y == j {
                        assert(extended[k as int].x == i && extended[k as int].y == j);
                        assert(requests_hit(extended, i, j));
                    }
                }
            }
            k = k + 1;
        }
        proof {
            assert(requests@.subrange(0, requests@.len() as int) =~= requests@);
        }
    }
}

} // verus!
