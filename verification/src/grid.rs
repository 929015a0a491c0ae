//! Row-major grids of cells, the drawing surface of every widget.

use vstd::prelude::*;

verus! {

/// A `width x height` grid of cells stored row-major in one flat vector: the
/// cell at column `x`, row `y` sits at flat index `y * width + x`.
#[derive(Clone, Debug, PartialEq, Eq)]
pub struct Grid<C> {
    /// Number of columns.
    pub width: u16,
    /// Number of rows.
    pub height: u16,
    /// The cells, one row after another.
    pub content: Vec<C>,
}

impl<C> Grid<C> {
    /// Well-formed: the flat vector holds exactly one cell per coordinate.
    pub open spec fn wf(self) -> bool {
        self.content@.len() == self.width * self.height
    }

    /// The cell at column `x`, row `y`.
    pub open spec fn cell(self, x: int, y: int) -> C {
        self.content@[y * self.width + x]
    }
}

impl<C: Copy> Grid<C> {
    /// Builds a grid with every cell equal to `fill`.
    pub fn filled(width: u16, height: u16, fill: C) -> (g: Grid<C>)
        ensures
            g.wf(),
            g.width == width,
            g.height == height,
            forall|i: int| 0 <= i < g.content@.len() ==> g.content@[i] == fill,
    {
        proof {
            assert((width as int) * (height as int) <= 0xffff * 0xffff) by (nonlinear_arith)
                requires
                    width <= 0xffff,
                    height <= 0xffff,
            ;
        }
        let n: usize = (width as usize) * (height as usize);
        let mut content: Vec<C> = Vec::new();
        let mut i: usize = 0;
        while i < n
            invariant
                i <= n,
                n == width * height,
                content@.len() == i,
                forall|j: int| 0 <= j < i ==> content@[j] == fill,
            decreases n - i,
        {
            content.push(fill);
            i = i + 1;
        }
        Grid { width, height, content }
    }

    /// Reads the cell at column `x`, row `y`.
    pub fn get(&self, x: u16, y: u16) -> (c: C)
        requires
            self.wf(),
            x < self.width,
            y < self.height,
        ensures
            c == self.cell(x as int, y as int),
    {
        proof {
            assert((y as int) * (self.width as int) + (x as int) < (self.width as int)
                * (self.height as int) && (self.width as int) * (self.height as int) <= 0xffff
                * 0xffff) by (nonlinear_arith)
                requires
                    x < self.width,
                    y < self.height,
                    self.width <= 0xffff,
                    self.height <= 0xffff,
            ;
        }
        let i: usize = (y as usize) * (self.width as usize) + (x as usize);
        self.content[i]
    }

    /// Writes `c` into the cell at column `x`, row `y`; every other cell keeps
    /// its value.
    pub fn set(&mut self, x: u16, y: u16, c: C)
        requires
            old(self).wf(),
            x < old(self).width,
            y < old(self).height,
        ensures
            final(self).wf(),
            final(self).width == old(self).width,
            final(self).height == old(self).height,
            final(self).content@ == old(self).content@.update(
                y * old(self).width + x,
                c,
            ),
    {
        proof {
            assert((y as int) * (self.width as int) + (x as int) < (self.width as int)
                * (self.height as int) && (self.width as int) * (self.height as int) <= 0xffff
                * 0xffff) by (nonlinear_arith)
                requires
                    x < self.width,
                    y < self.height,
                    self.width <= 0xffff,
                    self.height <= 0xffff,
            ;
        }
        let i: usize = (y as usize) * (self.width as usize) + (x as usize);
        self.content[i] = c;
    }
}

impl<C: Copy + Default> Grid<C> {
    /// Builds a grid of default cells covering the rectangle `(0, 0, width,
    /// height)`: the fresh drawing surface a render starts from. Every cell
    /// satisfies the contract of `C`'s own `default`.
    pub fn empty(width: u16, height: u16) -> (g: Grid<C>)
        ensures
            g.wf(),
            g.width == width,
            g.height == height,
            forall|i: int|
                0 <= i < g.content@.len() ==> call_ensures(
                    C::default,
                    (),
                    #[trigger] g.content@[i],
                ),
    {
        Grid::filled(width, height, C::default())
    }
}

} // verus!
