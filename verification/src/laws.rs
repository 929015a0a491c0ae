//! Laws of the scroll state and of the blit, proved once and for all.

use vstd::arithmetic::div_mod::lemma_fundamental_div_mod;
use vstd::arithmetic::div_mod::lemma_fundamental_div_mod_converse;
use vstd::prelude::*;

use crate::blit::blit_spec;
use crate::blit::copy_height;
use crate::blit::copy_width;
use crate::blit::in_window;
use crate::blit::source_index;
use crate::rect::Rect;
use crate::scroll::scrolled_down;
use crate::scroll::scrolled_up;
use crate::scroll::sat_add;
use crate::scroll::StatefulScrollState;
use crate::widget::Widget;

verus! {

/// Scrolling up by `n` and then down by `n` saturates below at zero: the
/// column is untouched and the row lands on `max(sy, n)`, since the upward
/// move pins at row zero whenever `n` exceeds it. In particular, from row
/// zero the upward move alone changes nothing.
pub proof fn lemma_scroll_up_then_down<S>(s: StatefulScrollState<S>, n: u16)
    ensures
        scrolled_down(scrolled_up(s, n), n).pos.0 == s.pos.0,
        scrolled_down(scrolled_up(s, n), n).pos.1 == if s.pos.1 >= n {
            s.pos.1
        } else {
            n
        },
        s.pos.1 == 0 ==> scrolled_up(s, n) == s,
{
    assert(s.pos.1 == 0 ==> s.pos == (s.pos.0, 0u16));
}

/// Scrolling down twice adds up: down by `a` and then by `b` is down by
/// `a + b` under saturating addition.
pub proof fn lemma_scroll_down_additive<S>(s: StatefulScrollState<S>, a: u16, b: u16)
    ensures
        scrolled_down(scrolled_down(s, a), b) == scrolled_down(s, sat_add(a, b)),
{
}

/// With the offset at the origin, an inner canvas exactly the size of the
/// destination, and the outer rectangle covering the whole destination, the
/// blit copies the entire inner contents verbatim.
pub proof fn lemma_blit_identity<C>(outer: Rect, src: Seq<C>, dst: Seq<C>)
    requires
        outer.x == 0,
        outer.y == 0,
        src.len() == outer.width * outer.height,
        dst.len() == outer.width * outer.height,
    ensures
        blit_spec((0u16, 0u16), outer, outer.width, outer.height, src, dst) == src,
{
    let w = outer.width as int;
    let h = outer.height as int;
    let out = blit_spec((0u16, 0u16), outer, outer.width, outer.height, src, dst);
    assert(w * h <= 0xffff * 0xffff) by (nonlinear_arith)
        requires
            0 <= w <= 0xffff,
            0 <= h <= 0xffff,
    ;
    assert forall|i: int| 0 <= i < dst.len() implies out[i] == src[i] by {
        assert(w > 0) by (nonlinear_arith)
            requires
                0 <= w,
                0 <= h,
                0 <= i < w * h,
        ;
        lemma_fundamental_div_mod(i, w);
        assert(0 <= i % w < w);
        assert(0 <= i / w < h) by (nonlinear_arith)
            requires
                w > 0,
                i == w * (i / w) + i % w,
                0 <= i % w < w,
                0 <= i < w * h,
        ;
        assert(in_window(i, (0u16, 0u16), outer, outer.width, outer.height));
        assert(source_index(i, outer, outer.width) == (i / w) * w + i % w);
        assert((i / w) * w == w * (i / w)) by (nonlinear_arith);
        assert(source_index(i, outer, outer.width) == i);
    }
    assert(out =~= src);
}

/// With the offset at the origin and the inner canvas exactly the outer
/// rectangle's size, the blit copies the entire inner contents verbatim into
/// the outer rectangle, wherever that rectangle sits in the destination: the
/// cell at window coordinate `(x, y)` receives inner cell `(x, y)`. Together
/// with [`lemma_blit_outside_untouched`], a render under these conditions
/// writes the whole inner canvas into the rectangle and nothing else.
pub proof fn lemma_blit_identity_in_rect<C>(outer: Rect, src: Seq<C>, dst: Seq<C>, x: int, y: int)
    requires
        outer.x + outer.width <= outer.width,
        src.len() == outer.width * outer.height,
        0 <= x < outer.width,
        0 <= y < outer.height,
        (outer.y + y) * outer.width + outer.x + x < dst.len(),
    ensures
        blit_spec((0u16, 0u16), outer, outer.width, outer.height, src, dst)[(outer.y + y)
            * outer.width + outer.x + x] == src[y * outer.width + x],
{
    let w = outer.width as int;
    let i = (outer.y + y) * w + outer.x + x;
    assert(0 <= i) by (nonlinear_arith)
        requires
            0 <= outer.y + y,
            0 <= outer.x + x,
            w > 0,
            i == (outer.y + y) * w + outer.x + x,
    ;
    lemma_fundamental_div_mod_converse(i, w, outer.y + y, outer.x + x);
    assert(in_window(i, (0u16, 0u16), outer, outer.width, outer.height));
    assert(source_index(i, outer, outer.width) == y * w + x);
}

/// The identity law at the render contract: a scroll area whose inner size
/// equals the outer rectangle's size, rendered with the offset at the origin,
/// writes its widget's entire output verbatim into the outer rectangle. The
/// destination contents that `ScrollArea::render` ensures hold the widget's
/// cell `(x, y)` at window coordinate `(x, y)` of the rectangle; by
/// [`lemma_blit_outside_untouched`], every cell outside the rectangle keeps
/// its old value.
pub proof fn lemma_render_identity<C, W: Widget<C>>(
    widget: W,
    outer: Rect,
    dst: Seq<C>,
    x: int,
    y: int,
)
    requires
        widget.rendered(outer.width, outer.height).len() == outer.width * outer.height,
        outer.x + outer.width <= outer.width,
        0 <= x < outer.width,
        0 <= y < outer.height,
        (outer.y + y) * outer.width + outer.x + x < dst.len(),
    ensures
        blit_spec(
            (0u16, 0u16),
            outer,
            outer.width,
            outer.height,
            widget.rendered(outer.width, outer.height),
            dst,
        )[(outer.y + y) * outer.width + outer.x + x] == widget.rendered(
            outer.width,
            outer.height,
        )[y * outer.width + x],
{
    lemma_blit_identity_in_rect(outer, widget.rendered(outer.width, outer.height), dst, x, y);
}

/// The blit never writes outside the outer rectangle: a destination cell
/// whose column or row lies outside it keeps its old value, whatever the
/// offset and the inner size.
pub proof fn lemma_blit_outside_untouched<C>(
    pos: (u16, u16),
    outer: Rect,
    inner_w: u16,
    inner_h: u16,
    src: Seq<C>,
    dst: Seq<C>,
    col: int,
    row: int,
)
    requires
        0 <= col < outer.width,
        0 <= row,
        row * outer.width + col < dst.len(),
        !(outer.x <= col < outer.x + outer.width && outer.y <= row < outer.y + outer.height),
    ensures
        blit_spec(pos, outer, inner_w, inner_h, src, dst)[row * outer.width + col] == dst[row
            * outer.width + col],
{
    let w = outer.width as int;
    let i = row * w + col;
    assert(0 <= i) by (nonlinear_arith)
        requires
            0 <= row,
            0 <= col,
            w > 0,
            i == row * w + col,
    ;
    lemma_fundamental_div_mod_converse(i, w, row, col);
    assert(copy_width(pos.0, outer.width, inner_w) <= outer.width);
    assert(copy_height(pos.1, outer.height, inner_h) <= outer.height);
    assert(!in_window(i, pos, outer, inner_w, inner_h));
}

/// Blitting is idempotent: running the same blit over its own output changes
/// nothing. Rendering twice with the same widget and the same scroll state
/// therefore yields identical destination grids.
pub proof fn lemma_blit_idempotent<C>(
    pos: (u16, u16),
    outer: Rect,
    inner_w: u16,
    inner_h: u16,
    src: Seq<C>,
    dst: Seq<C>,
)
    ensures
        blit_spec(pos, outer, inner_w, inner_h, src, blit_spec(pos, outer, inner_w, inner_h, src, dst))
            == blit_spec(pos, outer, inner_w, inner_h, src, dst),
{
    let once = blit_spec(pos, outer, inner_w, inner_h, src, dst);
    let twice = blit_spec(pos, outer, inner_w, inner_h, src, once);
    assert forall|i: int| 0 <= i < once.len() implies twice[i] == once[i] by {
    }
    assert(twice =~= once);
}

} // verus!
