//! The render protocol for inner widgets, and a simple canvas widget.
//!
//! A scroll area is generic over what it scrolls. An inner widget promises,
//! through one of the two traits here, that rendering paints the whole grid
//! it is given and is a function of the widget, the size and (for the
//! stateful protocol) the incoming state — in particular, that it does not
//! depend on what the grid held before. The scroll area's own contract is
//! built on that promise.

use vstd::prelude::*;

use crate::grid::Grid;
use crate::rect::Rect;

verus! {

/// A renderable with no state of its own: `render(rect, &mut buffer)`.
pub trait Widget<C>: Sized {
    /// Whether the widget can paint a `width x height` grid.
    spec fn valid_size(self, width: u16, height: u16) -> bool;

    /// The full contents the widget paints onto a `width x height` grid.
    spec fn rendered(self, width: u16, height: u16) -> Seq<C>;

    /// Paints the widget onto `buf`, which `area` must cover exactly.
    fn render(self, area: Rect, buf: &mut Grid<C>)
        requires
            old(buf).wf(),
            area == (Rect {
                x: 0,
                y: 0,
                width: old(buf).width,
                height: old(buf).height,
            }),
            self.valid_size(area.width, area.height),
        ensures
            final(buf).wf(),
            final(buf).width == old(buf).width,
            final(buf).height == old(buf).height,
            final(buf).content@ == self.rendered(area.width, area.height),
    ;
}

/// A renderable that threads an externally owned state through rendering:
/// `render(rect, &mut buffer, &mut state)`.
pub trait StatefulWidget<C>: Sized {
    /// The externally owned state the widget renders from.
    type State;

    /// Whether the widget can paint a `width x height` grid.
    spec fn valid_size(self, width: u16, height: u16) -> bool;

    /// The full contents the widget paints onto a `width x height` grid,
    /// given the state it was handed.
    spec fn rendered(self, width: u16, height: u16, state: Self::State) -> Seq<C>;

    /// Paints the widget onto `buf`, which `area` must cover exactly. The
    /// widget may update `state` as it renders.
    fn render(self, area: Rect, buf: &mut Grid<C>, state: &mut Self::State)
        requires
            old(buf).wf(),
            area == (Rect {
                x: 0,
                y: 0,
                width: old(buf).width,
                height: old(buf).height,
            }),
            self.valid_size(area.width, area.height),
        ensures
            final(buf).wf(),
            final(buf).width == old(buf).width,
            final(buf).height == old(buf).height,
            final(buf).content@ == self.rendered(area.width, area.height, *old(state)),
    ;
}

/// A fixed grid of cells that paints itself verbatim: the simplest inner
/// widget. It accepts exactly its own size.
#[derive(Clone, Debug)]
pub struct Canvas<C> {
    /// Number of columns of the canvas.
    pub width: u16,
    /// Number of rows of the canvas.
    pub height: u16,
    /// The cells, row-major.
    pub cells: Vec<C>,
}

impl<C> Canvas<C> {
    /// Well-formed: one cell per coordinate.
    pub open spec fn wf(self) -> bool {
        self.cells@.len() == self.width * self.height
    }

    /// Builds a canvas from its row-major cells.
    pub fn new(width: u16, height: u16, cells: Vec<C>) -> (r: Canvas<C>)
        requires
            cells@.len() == width * height,
        ensures
            r == (Canvas { width, height, cells }),
    {
        Canvas { width, height, cells }
    }
}

impl<C: Copy> Widget<C> for Canvas<C> {
    open spec fn valid_size(self, width: u16, height: u16) -> bool {
        self.wf() && width == self.width && height == self.height
    }

    open spec fn rendered(self, width: u16, height: u16) -> Seq<C> {
        self.cells@
    }

    fn render(self, area: Rect, buf: &mut Grid<C>) {
        let n: usize = self.cells.len();
        let mut i: usize = 0;
        while i < n
            invariant
                n == self.cells@.len(),
                i <= n,
                buf.wf(),
                buf.width == old(buf).width,
                buf.height == old(buf).height,
                buf.content@.len() == n,
                forall|j: int| 0 <= j < i ==> buf.content@[j] == self.cells@[j],
            decreases n - i,
        {
            let c: C = self.cells[i];
            buf.content[i] = c;
            i = i + 1;
        }
        proof {
            assert(buf.content@ =~= self.cells@);
        }
    }
}

impl<C: Copy> StatefulWidget<C> for Canvas<C> {
    type State = ();

    open spec fn valid_size(self, width: u16, height: u16) -> bool {
        self.wf() && width == self.width && height == self.height
    }

    open spec fn rendered(self, width: u16, height: u16, state: ()) -> Seq<C> {
        self.cells@
    }

    fn render(self, area: Rect, buf: &mut Grid<C>, state: &mut ()) {
        Widget::render(self, area, buf);
    }
}

} // verus!
