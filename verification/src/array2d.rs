//! A dense, fixed-size 2D grid stored row-major in a flat buffer, with both
//! panicking and option-returning accessors.

use vstd::prelude::*;
use vstd::pervasive::VecAdditionalExecFns;
use vstd::arithmetic::div_mod::lemma_fundamental_div_mod;
use vstd::arithmetic::div_mod::lemma_div_by_multiple;
use vstd::arithmetic::div_mod::lemma_mod_multiples_basic;

verus! {

/// A value that names a grid cell as a pair of zero-based coordinates
/// `(x, y)`: column first, then row.
pub trait IntoU2 {
    /// The coordinate pair this value stands for.
    spec fn u2(&self) -> (usize, usize);

    fn into_u2(&self) -> (r: (usize, usize))
        ensures
            r == self.u2(),
    ;

    /// The row-major position of the cell in a grid of the given width.
    fn into_index(&self, width: usize) -> (r: usize)
        requires
            self.u2().0 + self.u2().1 * width <= usize::MAX,
        ensures
            r == self.u2().0 + self.u2().1 * width,
    {
        let (x, y) = self.into_u2();
        x + y * width
    }
}

impl IntoU2 for (usize, usize) {
    open spec fn u2(&self) -> (usize, usize) {
        *self
    }

    fn into_u2(&self) -> (usize, usize) {
        *self
    }
}

impl IntoU2 for [usize; 2] {
    open spec fn u2(&self) -> (usize, usize) {
        (self[0], self[1])
    }

    fn into_u2(&self) -> (usize, usize) {
        (self[0], self[1])
    }
}

/// A fixed-size 2D grid over a flat row-major buffer: the cell `(x, y)`
/// lives at position `x + y * width`.
pub struct Array2D<T> {
    width: usize,
    data: Vec<T>,
}

impl<T> Array2D<T> {
    /// The number of columns.
    pub closed spec fn width_spec(&self) -> nat {
        self.width as nat
    }

    /// The cells, row by row.
    pub closed spec fn contents(&self) -> Seq<T> {
        self.data@
    }

    /// The buffer holds whole rows: its length is a multiple of the width.
    pub open spec fn wf(&self) -> bool {
        if self.width_spec() == 0 {
            self.contents().len() == 0
        } else {
            (self.contents().len() as int) % (self.width_spec() as int) == 0
        }
    }

    /// The number of rows.
    pub open spec fn height_spec(&self) -> nat {
        if self.width_spec() == 0 {
            0
        } else {
            ((self.contents().len() as int) / (self.width_spec() as int)) as nat
        }
    }

    /// Whether `(x, y)` names a cell of the grid.
    pub open spec fn in_bounds(&self, x: usize, y: usize) -> bool {
        x < self.width_spec() && y < self.height_spec()
    }

    /// The row-major position of `(x, y)`.
    pub open spec fn idx(&self, x: usize, y: usize) -> int {
        x + y * self.width_spec()
    }
}

/// In a grid of whole rows, the row-major position of an in-bounds
/// coordinate pair lies inside the buffer.
proof fn lemma_row_major_index(w: int, len: int, x: int, y: int)
    requires
        0 < w,
        len % w == 0,
        0 <= x < w,
        0 <= y < len / w,
    ensures
        x + y * w < len,
{
    lemma_fundamental_div_mod(len, w);
    let h = len / w;
    assert(x + y * w < w * h) by (nonlinear_arith)
        requires
            0 < w,
            0 <= x < w,
            0 <= y < h,
    ;
}

/// The row-major position of an in-bounds coordinate pair lies inside the
/// grid's buffer, so the panicking accessors accept every in-bounds pair.
pub proof fn lemma_in_bounds_index<T>(g: &Array2D<T>, x: usize, y: usize)
    requires
        g.wf(),
        g.in_bounds(x, y),
    ensures
        0 <= g.idx(x, y) < g.contents().len(),
{
    lemma_row_major_index(
        g.width_spec() as int,
        g.contents().len() as int,
        x as int,
        y as int,
    );
}

impl<T: Copy> Array2D<T> {
    /// A `width` by `height` grid with every cell set to `value`.
    pub fn new(width: usize, height: usize, value: T) -> (r: Self)
        requires
            width * height <= usize::MAX,
        ensures
            r.wf(),
            r.width_spec() == width,
            width > 0 ==> r.height_spec() == height,
            r.contents() == Seq::new((width * height) as nat, |i: int| value),
    {
        let size = width * height;
        let mut data: Vec<T> = Vec::new();
        while data.len() < size
            invariant
                data.len() <= size,
                forall|i: int| 0 <= i < data.len() ==> data[i] == value,
            decreases size - data.len(),
        {
            data.push(value);
        }
        proof {
            assert(data@ =~= Seq::new((width * height) as nat, |i: int| value));
            if width > 0 {
                lemma_mod_multiples_basic(height as int, width as int);
                lemma_div_by_multiple(height as int, width as int);
                assert(height * width == width * height) by (nonlinear_arith);
            }
        }
        Array2D { width, data }
    }
}

impl<T> Array2D<T> {
    /// The number of cells.
    pub fn len(&self) -> (r: usize)
        ensures
            r == self.contents().len(),
    {
        self.data.len()
    }

    /// The dimensions of the grid, `(width, height)`.
    pub fn size(&self) -> (r: (usize, usize))
        requires
            self.width_spec() > 0,
        ensures
            r.0 == self.width_spec(),
            r.1 == self.height_spec(),
    {
        (self.width, self.data.len() / self.width)
    }

    /// Replaces the cell named by `at` and hands back its old value.
    pub fn set<A: IntoU2>(&mut self, at: A, value: T) -> (r: T)
        requires
            old(self).wf(),
            old(self).in_bounds(at.u2().0, at.u2().1),
        ensures
            final(self).wf(),
            final(self).width_spec() == old(self).width_spec(),
            final(self).contents() == old(self).contents().update(
                old(self).idx(at.u2().0, at.u2().1),
                value,
            ),
            r == old(self).contents()[old(self).idx(at.u2().0, at.u2().1)],
    {
        proof {
            // the buffer length is a usize, so an in-buffer index fits one
            assert(self.data.len() <= usize::MAX);
            let (x, y) = at.u2();
            lemma_in_bounds_index(self, x, y);
        }
        let i = at.into_index(self.width);
        let mut v = value;
        self.data.set_and_swap(i, &mut v);
        v
    }

    /// The cell named by `at`.
    pub fn get<A: IntoU2>(&self, at: A) -> (r: &T)
        requires
            self.wf(),
            self.in_bounds(at.u2().0, at.u2().1),
        ensures
            *r == self.contents()[self.idx(at.u2().0, at.u2().1)],
    {
        proof {
            // the buffer length is a usize, so an in-buffer index fits one
            assert(self.data.len() <= usize::MAX);
            let (x, y) = at.u2();
            lemma_in_bounds_index(self, x, y);
        }
        let i = at.into_index(self.width);
        &self.data[i]
    }

    /// A mutable reference to the cell named by `at`.
    pub fn get_mut<A: IntoU2>(&mut self, at: A) -> (r: &mut T)
        requires
            old(self).wf(),
            old(self).in_bounds(at.u2().0, at.u2().1),
        ensures
            final(self).wf(),
            *r == old(self).contents()[old(self).idx(at.u2().0, at.u2().1)],
            final(self).width_spec() == old(self).width_spec(),
            final(self).contents() == old(self).contents().update(
                old(self).idx(at.u2().0, at.u2().1),
                *final(r),
            ),
    {
        proof {
            // the buffer length is a usize, so an in-buffer index fits one
            assert(self.data.len() <= usize::MAX);
            let (x, y) = at.u2();
            lemma_in_bounds_index(self, x, y);
        }
        let i = at.into_index(self.width);
        &mut self.data[i]
    }

    /// Whether `at` names a cell of the grid.
    pub fn is_inside<A: IntoU2>(&self, at: A) -> (r: bool)
        requires
            self.wf(),
        ensures
            r == self.in_bounds(at.u2().0, at.u2().1),
    {
        let (x, y) = at.into_u2();
        x < self.width && y < self.data.len() / self.width
    }

    /// Writes the cell named by `at` if it is inside the grid; hands the
    /// value back otherwise.
    pub fn try_set<A: IntoU2 + Copy>(&mut self, at: A, value: T) -> (r: Option<T>)
        requires
            old(self).wf(),
        ensures
            final(self).wf(),
            final(self).width_spec() == old(self).width_spec(),
            old(self).in_bounds(at.u2().0, at.u2().1) ==> r is None
                && final(self).contents() == old(self).contents().update(
                    old(self).idx(at.u2().0, at.u2().1),
                    value,
                ),
            !old(self).in_bounds(at.u2().0, at.u2().1) ==> r == Some(value)
                && final(self).contents() == old(self).contents(),
    {
        if self.is_inside(at) {
            proof {
                assert(self.data.len() <= usize::MAX);
                let (x, y) = at.u2();
                lemma_row_major_index(
                    self.width_spec() as int,
                    self.contents().len() as int,
                    x as int,
                    y as int,
                );
            }
            let i = at.into_index(self.width);
            self.data.set(i, value);
            None
        } else {
            Some(value)
        }
    }

    /// The cell named by `at`, if it is inside the grid.
    pub fn try_get<A: IntoU2 + Copy>(&self, at: A) -> (r: Option<&T>)
        requires
            self.wf(),
        ensures
            self.in_bounds(at.u2().0, at.u2().1) ==> r.is_some()
                && *r.unwrap() == self.contents()[self.idx(at.u2().0, at.u2().1)],
            !self.in_bounds(at.u2().0, at.u2().1) ==> r.is_none(),
    {
        if self.is_inside(at) {
            proof {
                assert(self.data.len() <= usize::MAX);
                let (x, y) = at.u2();
                lemma_row_major_index(
                    self.width_spec() as int,
                    self.contents().len() as int,
                    x as int,
                    y as int,
                );
            }
            let i = at.into_index(self.width);
            Some(&self.data[i])
        } else {
            None
        }
    }

    /// A mutable reference to the cell named by `at`, if it is inside the
    /// grid.
    pub fn try_get_mut<A: IntoU2 + Copy>(&mut self, at: A) -> (r: Option<&mut T>)
        requires
            old(self).wf(),
        ensures
            old(self).in_bounds(at.u2().0, at.u2().1) ==> r.is_some()
                && *r.unwrap() == old(self).contents()[old(self).idx(at.u2().0, at.u2().1)]
                && final(self).wf()
                && final(self).width_spec() == old(self).width_spec()
                && final(self).contents() == old(self).contents().update(
                    old(self).idx(at.u2().0, at.u2().1),
                    *final(r.unwrap()),
                ),
            !old(self).in_bounds(at.u2().0, at.u2().1) ==> r.is_none()
                && *final(self) == *old(self),
    {
        if self.is_inside(at) {
            proof {
                assert(self.data.len() <= usize::MAX);
                let (x, y) = at.u2();
                lemma_row_major_index(
                    self.width_spec() as int,
                    self.contents().len() as int,
                    x as int,
                    y as int,
                );
            }
            let i = at.into_index(self.width);
            Some(&mut self.data[i])
        } else {
            None
        }
    }
}

} // verus!
