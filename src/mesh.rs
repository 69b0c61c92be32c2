use vstd::prelude::*;

use crate::error::Error;

verus! {

/// Cells along one direction of a structured buffer: the interior cells and
/// two ghost cells on each side.
pub open spec fn padded(n: int) -> int {
    n + 4
}

/// The buffer offset of the first primitive of cell `(i, j)` in a structured
/// buffer with `nj` interior cells per row: rows of `i` are `3 (nj + 4)` apart
/// and neighbouring cells in `j` are `3` apart; cell `(-2, -2)` comes first.
pub open spec fn structured_offset(nj: int, i: int, j: int) -> int {
    3 * ((i + 2) * padded(nj) + (j + 2))
}

/// The three values stored at offset `n` of a buffer.
pub open spec fn triple_at<T>(v: Seq<T>, n: int) -> (T, T, T) {
    (v[n], v[n + 1], v[n + 2])
}

/// A rectangle of cell indices: `i0 <= i < i1` and `j0 <= j < j1`.
#[derive(Clone, Copy, Debug, PartialEq, Eq, Structural)]
pub struct IndexSpace {
    pub i0: i64,
    pub i1: i64,
    pub j0: i64,
    pub j1: i64,
}

impl IndexSpace {
    /// The index space is a (possibly empty) rectangle.
    pub open spec fn wf(&self) -> bool {
        self.i0 <= self.i1 && self.j0 <= self.j1
    }

    /// Extent in `j`: the stride, in cells, from one row of `i` to the next.
    pub open spec fn width(&self) -> int {
        self.j1 - self.j0
    }

    /// Number of cells in the rectangle.
    pub open spec fn cells(&self) -> int {
        (self.i1 - self.i0) * (self.j1 - self.j0)
    }

    /// Whether cell `(i, j)` lies in the rectangle.
    pub open spec fn contains(&self, i: int, j: int) -> bool {
        self.i0 <= i < self.i1 && self.j0 <= j < self.j1
    }

    /// The offset of the first primitive of cell `(i, j)` in a buffer of the
    /// rectangle: rows of `i` in order, `j` the fast index, three values per
    /// cell.
    pub open spec fn offset(&self, i: int, j: int) -> int {
        3 * ((i - self.i0) * self.width() + (j - self.j0))
    }
}

proof fn lemma_cell_number(w: int, a: int, b: int)
    requires
        0 <= b < w,
        0 <= a,
    ensures
        (a * w + b) / w == a,
        (a * w + b) % w == b,
{
    vstd::arithmetic::div_mod::lemma_fundamental_div_mod_converse(a * w + b, w, a, b);
}

/// Fills the primitives of every cell of an index space, in the layout that
/// [`IndexSpace::offset`] gives; `cell(i, j)` gives the three primitives of
/// cell `(i, j)`.
pub fn patch_primitive<T: Copy, F: Fn(i64, i64) -> (T, T, T)>(space: &IndexSpace, cell: F) -> (r:
    Vec<T>)
    requires
        space.wf(),
        space.i1 - space.i0 <= i64::MAX,
        space.j1 - space.j0 <= i64::MAX,
        3 * space.cells() <= usize::MAX,
        3 * space.cells() <= i64::MAX,
        forall|i: i64, j: i64| cell.requires((i, j)),
    ensures
        r@.len() == 3 * space.cells(),
        forall|i: int, j: int|
            space.contains(i, j) ==> cell.ensures(
                (i as i64, j as i64),
                #[trigger] triple_at(r@, space.offset(i, j)),
            ),
{
    let h: i64 = space.i1 - space.i0;
    let w: i64 = space.j1 - space.j0;
    let mut out: Vec<T> = Vec::new();
    if h == 0 || w == 0 {
        assert(space.cells() == 0) by (nonlinear_arith)
            requires
                h == 0 || w == 0,
                space.cells() == h * w,
        ;
        return out;
    }
    let total: i64 = h * w;
    let mut c: i64 = 0;
    while c < total
        invariant
            h == space.i1 - space.i0,
            w == space.j1 - space.j0,
            h > 0,
            w > 0,
            total == h * w,
            total == space.cells(),
            3 * total <= usize::MAX,
            3 * total <= i64::MAX,
            0 <= c <= total,
            out@.len() == 3 * c,
            forall|d: int|
                0 <= d < c ==> cell.ensures(
                    ((space.i0 + d / (w as int)) as i64, (space.j0 + d % (w as int)) as i64),
                    #[trigger] triple_at(out@, 3 * d),
                ),
            forall|i: i64, j: i64| cell.requires((i, j)),
        decreases total - c,
    {
        assert(c / w < h) by {
            vstd::arithmetic::div_mod::lemma_div_by_multiple_is_strongly_ordered(
                c as int,
                total as int,
                h as int,
                w as int,
            );
            vstd::arithmetic::div_mod::lemma_div_by_multiple(h as int, w as int);
        }
        let i = space.i0 + c / w;
        let j = space.j0 + c % w;
        let (a, b, p) = cell(i, j);
        let ghost before = out@;
        out.push(a);
        out.push(b);
        out.push(p);
        assert forall|d: int| 0 <= d <= c implies cell.ensures(
            ((space.i0 + d / (w as int)) as i64, (space.j0 + d % (w as int)) as i64),
            #[trigger] triple_at(out@, 3 * d),
        ) by {
            if d < c {
                assert(triple_at(out@, 3 * d) == triple_at(before, 3 * d));
            }
        }
        c += 1;
    }
    assert forall|i: int, j: int| space.contains(i, j) implies cell.ensures(
        (i as i64, j as i64),
        #[trigger] triple_at(out@, space.offset(i, j)),
    ) by {
        let d = (i - space.i0) * (w as int) + (j - space.j0);
        lemma_cell_number(w as int, i - space.i0, j - space.j0);
        assert(0 <= d < total) by (nonlinear_arith)
            requires
                d == (i - space.i0) * w + (j - space.j0),
                total == h * w,
                h == space.i1 - space.i0,
                w == space.j1 - space.j0,
                space.i0 <= i < space.i1,
                space.j0 <= j < space.j1,
        ;
        assert(triple_at(out@, 3 * d) == triple_at(out@, space.offset(i, j)));
    }
    out
}

/// The index space of a structured `ni` by `nj` mesh with its ghost cells:
/// two on each side.
pub fn padded_space(ni: i64, nj: i64) -> (r: IndexSpace)
    requires
        0 <= ni <= i64::MAX - 2,
        0 <= nj <= i64::MAX - 2,
    ensures
        r.i0 == -2 && r.i1 == ni + 2 && r.j0 == -2 && r.j1 == nj + 2,
{
    IndexSpace { i0: -2, i1: ni + 2, j0: -2, j1: nj + 2 }
}

/// Fills the primitive buffer of a structured `ni` by `nj` mesh, ghost cells
/// included. `cell(i, j)` gives the three primitives of cell `(i, j)`, for
/// `-2 <= i < ni + 2` and `-2 <= j < nj + 2`; every cell, ghosts too, is
/// filled by it, at the offset that [`structured_offset`] gives.
pub fn structured_primitive<T: Copy, F: Fn(i64, i64) -> (T, T, T)>(
    ni: i64,
    nj: i64,
    cell: F,
) -> (r: Vec<T>)
    requires
        ni >= 0,
        nj >= 0,
        3 * (padded(ni as int) * padded(nj as int)) <= usize::MAX,
        3 * (padded(ni as int) * padded(nj as int)) <= i64::MAX,
        forall|i: i64, j: i64| cell.requires((i, j)),
    ensures
        r@.len() == 3 * padded(ni as int) * padded(nj as int),
        forall|i: int, j: int|
            -2 <= i < ni + 2 && -2 <= j < nj + 2 ==> cell.ensures(
                (i as i64, j as i64),
                #[trigger] triple_at(r@, structured_offset(nj as int, i, j)),
            ),
{
    assert(padded(nj as int) <= padded(ni as int) * padded(nj as int) && padded(ni as int)
        <= padded(ni as int) * padded(nj as int)) by (nonlinear_arith)
        requires
            ni >= 0,
            nj >= 0,
    ;
    let space = padded_space(ni, nj);
    let r = patch_primitive(&space, cell);
    assert forall|i: int, j: int| -2 <= i < ni + 2 && -2 <= j < nj + 2 implies cell.ensures(
        (i as i64, j as i64),
        #[trigger] triple_at(r@, structured_offset(nj as int, i, j)),
    ) by {
        assert(space.contains(i, j));
        assert(space.offset(i, j) == structured_offset(nj as int, i, j));
    }
    assert(3 * padded(ni as int) * padded(nj as int) == 3 * space.cells()) by (nonlinear_arith)
        requires
            space.cells() == padded(ni as int) * padded(nj as int),
    ;
    r
}

/// Fills the primitive buffer of a one-dimensional mesh given by its face
/// positions: one cell between each two neighbouring faces, three values per
/// cell. `cell(left, right)` gives the primitives of the cell between faces
/// `left` and `right` (the caller evaluates the flow at its midpoint).
pub fn face_primitive<T: Copy, F: Fn(T, T) -> (T, T, T)>(faces: &Vec<T>, cell: F) -> (r: Vec<T>)
    requires
        faces@.len() >= 1,
        3 * (faces@.len() - 1) <= usize::MAX,
        forall|a: T, b: T| cell.requires((a, b)),
    ensures
        r@.len() == 3 * (faces@.len() - 1),
        forall|k: int|
            0 <= k < faces@.len() - 1 ==> cell.ensures(
                (faces@[k], faces@[k + 1]),
                #[trigger] triple_at(r@, 3 * k),
            ),
{
    let n = faces.len() - 1;
    let mut out: Vec<T> = Vec::new();
    let mut k: usize = 0;
    while k < n
        invariant
            n == faces@.len() - 1,
            k <= n,
            out@.len() == 3 * k,
            forall|d: int|
                0 <= d < k ==> cell.ensures(
                    (faces@[d], faces@[d + 1]),
                    #[trigger] triple_at(out@, 3 * d),
                ),
            forall|a: T, b: T| cell.requires((a, b)),
        decreases n - k,
    {
        let (a, b, p) = cell(faces[k], faces[k + 1]);
        let ghost before = out@;
        out.push(a);
        out.push(b);
        out.push(p);
        assert forall|d: int| 0 <= d <= k implies cell.ensures(
            (faces@[d], faces@[d + 1]),
            #[trigger] triple_at(out@, 3 * d),
        ) by {
            if d < k {
                assert(triple_at(out@, 3 * d) == triple_at(before, 3 * d));
            }
        }
        k += 1;
    }
    out
}

/// The faces of a uniform one-dimensional mesh of `resolution` cells: face
/// `k` is `face(k)`, for `k` from 0 to `resolution`.
pub fn uniform_faces<T, F: Fn(u32) -> T>(resolution: u32, face: F) -> (r: Vec<T>)
    requires
        resolution < u32::MAX,
        forall|k: u32| face.requires((k,)),
    ensures
        r@.len() == resolution + 1,
        forall|k: int| 0 <= k <= resolution ==> face.ensures((k as u32,), #[trigger] r@[k]),
{
    let mut out: Vec<T> = Vec::new();
    let mut k: u32 = 0;
    while k <= resolution
        invariant
            resolution < u32::MAX,
            k <= resolution + 1,
            out@.len() == k,
            forall|d: int| 0 <= d < k ==> face.ensures((d as u32,), #[trigger] out@[d]),
            forall|k: u32| face.requires((k,)),
        decreases resolution + 1 - k,
    {
        let x = face(k);
        out.push(x);
        k += 1;
    }
    out
}

/// The message given for a table too short to place faces around its rows.
pub open spec fn short_table_text() -> Seq<char> {
    "table must have at least 2 rows"@
}

/// The faces of a non-uniform one-dimensional mesh whose cell centers are
/// given: each interior face is `midpoint` of the two centers beside it, and
/// each outer face is `extrapolate(neighbour, edge)` of the outermost center
/// and the one next to it, which places it half a spacing beyond the edge.
/// Fewer than two centers give no spacing to extrapolate from, and fail.
pub fn faces_from_centers<T: Copy, M: Fn(T, T) -> T, X: Fn(T, T) -> T>(
    centers: &Vec<T>,
    midpoint: M,
    extrapolate: X,
) -> (r: Result<Vec<T>, Error>)
    requires
        forall|a: T, b: T| midpoint.requires((a, b)),
        forall|a: T, b: T| extrapolate.requires((a, b)),
    ensures
        centers@.len() < 2 <==> r is Err,
        r is Err ==> r->Err_0 is InvalidSetup && r->Err_0.text() == short_table_text(),
        r is Ok ==> {
            let c = centers@;
            let f = r->Ok_0@;
            let n = c.len() as int;
            &&& f.len() == n + 1
            &&& extrapolate.ensures((c[1], c[0]), f[0])
            &&& extrapolate.ensures((c[n - 2], c[n - 1]), f[n])
            &&& forall|k: int| 1 <= k < n ==> midpoint.ensures((c[k - 1], c[k]), #[trigger] f[k])
        },
{
    let n = centers.len();
    if n < 2 {
        return Err(Error::InvalidSetup("table must have at least 2 rows".to_owned()));
    }
    let mut out: Vec<T> = Vec::new();
    out.push(extrapolate(centers[1], centers[0]));
    let mut k: usize = 1;
    while k < n
        invariant
            n == centers@.len(),
            n >= 2,
            1 <= k <= n,
            out@.len() == k,
            extrapolate.ensures((centers@[1], centers@[0]), out@[0]),
            forall|d: int|
                1 <= d < k ==> midpoint.ensures((centers@[d - 1], centers@[d]), #[trigger] out@[d]),
            forall|a: T, b: T| midpoint.requires((a, b)),
        decreases n - k,
    {
        let m = midpoint(centers[k - 1], centers[k]);
        out.push(m);
        k += 1;
    }
    out.push(extrapolate(centers[n - 2], centers[n - 1]));
    Ok(out)
}

} // verus!
