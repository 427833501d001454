use vstd::prelude::*;

verus! {

/// The shape of a three-dimensional table stored flat, jitter-major, then cutoff, then beta.
#[derive(Debug, Clone, Copy, PartialEq, Eq, Structural)]
pub struct Lattice {
    j_dim: usize,
    fc_dim: usize,
    b_dim: usize,
}

/// Position of a cell in the flat storage.
pub open spec fn flat_offset(fc_dim: int, b_dim: int, j: int, fc: int, b: int) -> int {
    (j * fc_dim + fc) * b_dim + b
}

/// Number of cells of a shape.
pub open spec fn cell_count(j_dim: int, fc_dim: int, b_dim: int) -> int {
    j_dim * fc_dim * b_dim
}

/// The eight corner offsets of the cell spanned by two brackets on each axis, in the order
/// c000, c100, c010, c110, c001, c101, c011, c111 (the first digit is jitter, the second
/// cutoff, the third beta; 0 is the low end of the bracket, 1 the high end).
pub open spec fn corner_offsets(
    fc_dim: int,
    b_dim: int,
    j_lo: int,
    j_hi: int,
    fc_lo: int,
    fc_hi: int,
    b_lo: int,
    b_hi: int,
) -> Seq<int> {
    seq![
        flat_offset(fc_dim, b_dim, j_lo, fc_lo, b_lo),
        flat_offset(fc_dim, b_dim, j_hi, fc_lo, b_lo),
        flat_offset(fc_dim, b_dim, j_lo, fc_hi, b_lo),
        flat_offset(fc_dim, b_dim, j_hi, fc_hi, b_lo),
        flat_offset(fc_dim, b_dim, j_lo, fc_lo, b_hi),
        flat_offset(fc_dim, b_dim, j_hi, fc_lo, b_hi),
        flat_offset(fc_dim, b_dim, j_lo, fc_hi, b_hi),
        flat_offset(fc_dim, b_dim, j_hi, fc_hi, b_hi),
    ]
}

proof fn lemma_offset_in_range(j_dim: int, fc_dim: int, b_dim: int, j: int, fc: int, b: int)
    requires
        0 <= j < j_dim,
        0 <= fc < fc_dim,
        0 <= b < b_dim,
    ensures
        0 <= flat_offset(fc_dim, b_dim, j, fc, b) < cell_count(j_dim, fc_dim, b_dim),
{
    assert(0 <= j * fc_dim + fc < j_dim * fc_dim) by (nonlinear_arith)
        requires
            0 <= j < j_dim,
            0 <= fc < fc_dim,
    ;
    let row = j * fc_dim + fc;
    assert(0 <= row * b_dim + b < (j_dim * fc_dim) * b_dim) by (nonlinear_arith)
        requires
            0 <= row < j_dim * fc_dim,
            0 <= b < b_dim,
    ;
    assert((j_dim * fc_dim) * b_dim == j_dim * fc_dim * b_dim);
}

impl Lattice {
    pub closed spec fn j_dim_spec(&self) -> nat {
        self.j_dim as nat
    }

    pub closed spec fn fc_dim_spec(&self) -> nat {
        self.fc_dim as nat
    }

    pub closed spec fn b_dim_spec(&self) -> nat {
        self.b_dim as nat
    }

    /// Number of cells of the table.
    pub open spec fn cells(&self) -> int {
        cell_count(self.j_dim_spec() as int, self.fc_dim_spec() as int, self.b_dim_spec() as int)
    }

    pub open spec fn wf(&self) -> bool {
        &&& self.j_dim_spec() > 0
        &&& self.fc_dim_spec() > 0
        &&& self.b_dim_spec() > 0
        &&& self.cells() <= usize::MAX
    }

    /// A shape with the given extents; `None` when one is zero or the cell count does not fit
    /// in `usize`.
    pub fn new(j_dim: usize, fc_dim: usize, b_dim: usize) -> (r: Option<Lattice>)
        ensures
            r is Some <==> (j_dim > 0 && fc_dim > 0 && b_dim > 0 && cell_count(
                j_dim as int,
                fc_dim as int,
                b_dim as int,
            ) <= usize::MAX),
            r is Some ==> r->0.wf() && r->0.j_dim_spec() == j_dim && r->0.fc_dim_spec() == fc_dim
                && r->0.b_dim_spec() == b_dim,
    {
        if j_dim == 0 || fc_dim == 0 || b_dim == 0 {
            return None;
        }
        match j_dim.checked_mul(fc_dim) {
            None => {
                assert(cell_count(j_dim as int, fc_dim as int, b_dim as int) > usize::MAX) by (
                nonlinear_arith)
                    requires
                        j_dim * fc_dim > usize::MAX,
                        b_dim >= 1,
                ;
                None
            },
            Some(jf) => match jf.checked_mul(b_dim) {
                None => None,
                Some(_) => Some(Lattice { j_dim, fc_dim, b_dim }),
            },
        }
    }

    pub fn j_dim(&self) -> (r: usize)
        ensures
            r == self.j_dim_spec(),
    {
        self.j_dim
    }

    pub fn fc_dim(&self) -> (r: usize)
        ensures
            r == self.fc_dim_spec(),
    {
        self.fc_dim
    }

    pub fn b_dim(&self) -> (r: usize)
        ensures
            r == self.b_dim_spec(),
    {
        self.b_dim
    }

    /// Number of cells of the table.
    pub fn len(&self) -> (r: usize)
        requires
            self.wf(),
        ensures
            r == self.cells(),
    {
        proof {
            let (j, f, b) = (self.j_dim as int, self.fc_dim as int, self.b_dim as int);
            assert(j * f <= j * f * b) by (nonlinear_arith)
                requires
                    b >= 1,
                    j >= 0,
                    f >= 0,
            ;
        }
        self.j_dim * self.fc_dim * self.b_dim
    }

    /// Offset of a cell in the flat storage; `None` when an index is outside the table.
    pub fn offset(&self, j: usize, fc: usize, b: usize) -> (r: Option<usize>)
        requires
            self.wf(),
        ensures
            r is Some <==> (j < self.j_dim_spec() && fc < self.fc_dim_spec() && b
                < self.b_dim_spec()),
            r is Some ==> r->0 == flat_offset(
                self.fc_dim_spec() as int,
                self.b_dim_spec() as int,
                j as int,
                fc as int,
                b as int,
            ) && r->0 < self.cells(),
    {
        if j >= self.j_dim || fc >= self.fc_dim || b >= self.b_dim {
            return None;
        }
        proof {
            lemma_offset_in_range(
                self.j_dim as int,
                self.fc_dim as int,
                self.b_dim as int,
                j as int,
                fc as int,
                b as int,
            );
            assert(j * self.fc_dim + fc < self.j_dim * self.fc_dim) by (nonlinear_arith)
                requires
                    j < self.j_dim,
                    fc < self.fc_dim,
            ;
            assert(j * self.fc_dim + fc <= (j * self.fc_dim + fc) * self.b_dim) by (
            nonlinear_arith)
                requires
                    self.b_dim >= 1,
                    j * self.fc_dim + fc >= 0,
            ;
        }
        Some((j * self.fc_dim + fc) * self.b_dim + b)
    }

    /// The eight corner offsets of an interpolation cell, in the order of `corner_offsets`;
    /// `None` when a bracket end lies outside the table.
    pub fn corners(
        &self,
        j_lo: usize,
        j_hi: usize,
        fc_lo: usize,
        fc_hi: usize,
        b_lo: usize,
        b_hi: usize,
    ) -> (r: Option<Vec<usize>>)
        requires
            self.wf(),
        ensures
            r is Some <==> (j_lo < self.j_dim_spec() && j_hi < self.j_dim_spec() && fc_lo
                < self.fc_dim_spec() && fc_hi < self.fc_dim_spec() && b_lo < self.b_dim_spec()
                && b_hi < self.b_dim_spec()),
            r is Some ==> r->0@.map_values(|o: usize| o as int) == corner_offsets(
                self.fc_dim_spec() as int,
                self.b_dim_spec() as int,
                j_lo as int,
                j_hi as int,
                fc_lo as int,
                fc_hi as int,
                b_lo as int,
                b_hi as int,
            ),
            r is Some ==> forall|i: int| 0 <= i < 8 ==> #[trigger] r->0@[i] < self.cells(),
    {
        let c000 = self.offset(j_lo, fc_lo, b_lo);
        let c100 = self.offset(j_hi, fc_lo, b_lo);
        let c010 = self.offset(j_lo, fc_hi, b_lo);
        let c110 = self.offset(j_hi, fc_hi, b_lo);
        let c001 = self.offset(j_lo, fc_lo, b_hi);
        let c101 = self.offset(j_hi, fc_lo, b_hi);
        let c011 = self.offset(j_lo, fc_hi, b_hi);
        let c111 = self.offset(j_hi, fc_hi, b_hi);
        match (c000, c100, c010, c110, c001, c101, c011, c111) {
            (Some(a), Some(b), Some(c), Some(d), Some(e), Some(f), Some(g), Some(h)) => {
                let v = vec![a, b, c, d, e, f, g, h];
                assert(v@.map_values(|o: usize| o as int) =~= corner_offsets(
                    self.fc_dim_spec() as int,
                    self.b_dim_spec() as int,
                    j_lo as int,
                    j_hi as int,
                    fc_lo as int,
                    fc_hi as int,
                    b_lo as int,
                    b_hi as int,
                ));
                Some(v)
            },
            _ => None,
        }
    }
}

} // verus!
