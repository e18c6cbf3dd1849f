use vstd::prelude::*;

verus! {

/// A two-dimensional grid of 64-bit integers, row-major, backed by an
/// ndarray array. The backing array's element storage cannot be described
/// to the verifier (its struct requires ndarray's `RawData` trait as a
/// bound), so the array sits in a private field and every access goes
/// through a trusted wrapper below, specified over `mat_seq` and
/// `mat_width`.
#[verifier::external_body]
pub struct Mat {
    inner: ndarray::Array2<i64>,
}

/// The rows the backing array holds, outermost first, each row a sequence
/// of its elements in column order.
pub uninterp spec fn mat_seq(m: Mat) -> Seq<Seq<i64>>;

/// The column count the backing array was created with.
pub uninterp spec fn mat_width(m: Mat) -> nat;

impl View for Mat {
    type V = Seq<Seq<i64>>;

    open spec fn view(&self) -> Seq<Seq<i64>> {
        mat_seq(*self)
    }
}

/// Every row has exactly the matrix's column count.
pub open spec fn mat_wf(m: Mat) -> bool {
    forall|i: int| 0 <= i < mat_seq(m).len() ==> (#[trigger] mat_seq(m)[i]).len() == mat_width(m)
}

/// The element count stays clear of the allocation limit, so a fresh
/// matrix of the same shape can always be made.
pub open spec fn mat_small(m: Mat) -> bool {
    mat_seq(m).len() * mat_width(m) <= 0x7fff_ffff
}

/// Every element lies in the closed range [lo, hi].
pub open spec fn mat_bounded(m: Mat, lo: int, hi: int) -> bool {
    forall|i: int, j: int|
        0 <= i < mat_seq(m).len() && 0 <= j < mat_seq(m)[i].len() ==> lo <= #[trigger] mat_seq(
            m,
        )[i][j] <= hi
}

impl Mat {
    /// Relies on ndarray::ArrayBase::from_elem: builds an h x w array with
    /// every element equal to v. It panics only when the element count
    /// overflows isize, which the precondition rules out.
    #[verifier::external_body]
    pub fn new(h: usize, w: usize, v: i64) -> (m: Mat)
        requires
            h * w <= 0x7fff_ffff,
        ensures
            mat_seq(m).len() == h,
            mat_width(m) == w,
            mat_wf(m),
            forall|i: int, j: int| 0 <= i < h && 0 <= j < w ==> mat_seq(m)[i][j] == v,
    {
        Mat { inner: ndarray::Array2::from_elem((h, w), v) }
    }

    /// Relies on ndarray's nrows for two-dimensional arrays: the length of
    /// the row axis.
    #[verifier::external_body]
    pub fn rows(&self) -> (r: usize)
        ensures
            r == mat_seq(*self).len(),
    {
        self.inner.nrows()
    }

    /// Relies on ndarray's ncols for two-dimensional arrays: the length of
    /// the column axis.
    #[verifier::external_body]
    pub fn cols(&self) -> (c: usize)
        ensures
            c == mat_width(*self),
    {
        self.inner.ncols()
    }

    /// Relies on ndarray::ArrayRef::get: Some of a reference to the element
    /// at (i, j) whenever the index is in bounds.
    #[verifier::external_body]
    pub fn get(&self, i: usize, j: usize) -> (v: i64)
        requires
            i < mat_seq(*self).len(),
            j < mat_width(*self),
        ensures
            v == mat_seq(*self)[i as int][j as int],
    {
        *self.inner.get((i, j)).unwrap()
    }

    /// Relies on ndarray::ArrayRef::get_mut: Some of a mutable reference to
    /// the element at (i, j) whenever the index is in bounds.
    #[verifier::external_body]
    pub fn set(&mut self, i: usize, j: usize, v: i64)
        requires
            i < mat_seq(*old(self)).len(),
            j < mat_width(*old(self)),
        ensures
            mat_seq(*final(self)) == mat_seq(*old(self)).update(
                i as int,
                mat_seq(*old(self))[i as int].update(j as int, v),
            ),
            mat_width(*final(self)) == mat_width(*old(self)),
    {
        *self.inner.get_mut((i, j)).unwrap() = v;
    }
}

} // verus!
