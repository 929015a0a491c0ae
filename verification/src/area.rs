//! The scroll areas: widgets that render an inner widget onto a logical
//! canvas and blit a clipped window of it into an outer rectangle.

use vstd::prelude::*;

use crate::blit::blit;
use crate::blit::blit_spec;
use crate::grid::Grid;
use crate::rect::Rect;
use crate::scroll::ScrollState;
use crate::scroll::StatefulScrollState;
use crate::widget::StatefulWidget;
use crate::widget::Widget;

verus! {

/// Renders a stateless widget to a canvas of a declared inner size, then cuts
/// a window of that canvas — positioned by a [`ScrollState`] — into the outer
/// rectangle it is asked to draw in.
#[derive(Clone, Debug)]
pub struct ScrollArea<W> {
    /// The nested widget that paints the inner canvas.
    widget: W,
    /// Width of the inner canvas.
    inner_w: u16,
    /// Height of the inner canvas.
    inner_h: u16,
}

impl<W> ScrollArea<W> {
    /// The wrapped inner widget.
    pub closed spec fn spec_widget(self) -> W {
        self.widget
    }

    /// The declared size of the inner canvas, as a `(width, height)` pair.
    pub closed spec fn inner_size(self) -> (u16, u16) {
        (self.inner_w, self.inner_h)
    }

    /// Wraps `widget`, declaring that it draws on an inner canvas of size
    /// `inner`.
    pub fn new(widget: W, inner: (u16, u16)) -> (r: Self)
        ensures
            r.spec_widget() == widget,
            r.inner_size() == inner,
    {
        ScrollArea { widget, inner_w: inner.0, inner_h: inner.1 }
    }

    /// Renders the inner widget onto a fresh inner canvas, then blits the
    /// window selected by `state.pos` into `outer_buf` at `outer`. Cells of
    /// `outer_buf` outside the window are untouched, and the scroll state is
    /// only read.
    pub fn render<C: Copy + Default>(
        self,
        outer: Rect,
        outer_buf: &mut Grid<C>,
        state: &mut ScrollState,
    ) where W: Widget<C>
        requires
            old(outer_buf).wf(),
            outer.width == old(outer_buf).width,
            outer.x + outer.width <= old(outer_buf).width,
            outer.y + outer.height <= old(outer_buf).height,
            self.spec_widget().valid_size(self.inner_size().0, self.inner_size().1),
        ensures
            final(outer_buf).wf(),
            final(outer_buf).width == old(outer_buf).width,
            final(outer_buf).height == old(outer_buf).height,
            final(outer_buf).content@ == blit_spec(
                old(state).pos,
                outer,
                self.inner_size().0,
                self.inner_size().1,
                self.spec_widget().rendered(self.inner_size().0, self.inner_size().1),
                old(outer_buf).content@,
            ),
            *final(state) == *old(state),
    {
        let inner_rect = Rect::new(0, 0, self.inner_w, self.inner_h);
        let mut inner_buf: Grid<C> = Grid::empty(self.inner_w, self.inner_h);
        self.widget.render(inner_rect, &mut inner_buf);
        blit(state.pos, outer, &inner_buf, outer_buf);
    }
}

/// Renders a stateful widget to a canvas of a declared inner size, then cuts
/// a window of that canvas — positioned by a [`StatefulScrollState`] — into
/// the outer rectangle it is asked to draw in. The nested widget state rides
/// along in the scroll state and is handed to the inner widget on render.
#[derive(Clone, Debug)]
pub struct StatefulScrollArea<W> {
    /// The nested widget that paints the inner canvas.
    widget: W,
    /// Width of the inner canvas.
    inner_w: u16,
    /// Height of the inner canvas.
    inner_h: u16,
}

impl<W> StatefulScrollArea<W> {
    /// The wrapped inner widget.
    pub closed spec fn spec_widget(self) -> W {
        self.widget
    }

    /// The declared size of the inner canvas, as a `(width, height)` pair.
    pub closed spec fn inner_size(self) -> (u16, u16) {
        (self.inner_w, self.inner_h)
    }

    /// Wraps `widget`, declaring that it draws on an inner canvas of size
    /// `inner`.
    pub fn new(widget: W, inner: (u16, u16)) -> (r: Self)
        ensures
            r.spec_widget() == widget,
            r.inner_size() == inner,
    {
        StatefulScrollArea { widget, inner_w: inner.0, inner_h: inner.1 }
    }

    /// Renders the inner widget — handing it the nested state — onto a fresh
    /// inner canvas, then blits the window selected by `state.pos` into
    /// `outer_buf` at `outer`. Cells of `outer_buf` outside the window are
    /// untouched; the offset is only read, while the nested state is the
    /// inner widget's to update.
    pub fn render<C: Copy + Default>(
        self,
        outer: Rect,
        outer_buf: &mut Grid<C>,
        state: &mut StatefulScrollState<W::State>,
    ) where W: StatefulWidget<C>
        requires
            old(outer_buf).wf(),
            outer.width == old(outer_buf).width,
            outer.x + outer.width <= old(outer_buf).width,
            outer.y + outer.height <= old(outer_buf).height,
            self.spec_widget().valid_size(self.inner_size().0, self.inner_size().1),
        ensures
            final(outer_buf).wf(),
            final(outer_buf).width == old(outer_buf).width,
            final(outer_buf).height == old(outer_buf).height,
            final(outer_buf).content@ == blit_spec(
                old(state).pos,
                outer,
                self.inner_size().0,
                self.inner_size().1,
                self.spec_widget().rendered(
                    self.inner_size().0,
                    self.inner_size().1,
                    old(state).state,
                ),
                old(outer_buf).content@,
            ),
            final(state).pos == old(state).pos,
    {
        let inner_rect = Rect::new(0, 0, self.inner_w, self.inner_h);
        let mut inner_buf: Grid<C> = Grid::empty(self.inner_w, self.inner_h);
        self.widget.render(inner_rect, &mut inner_buf, &mut state.state);
        blit(state.pos, outer, &inner_buf, outer_buf);
    }
}

} // verus!
