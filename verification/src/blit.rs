//! The clipping copy at the heart of the scroll area.
//!
//! Given a scroll offset, an outer rectangle and an inner grid, the blit
//! copies a clipped window of the inner grid into the destination grid. Two
//! deliberate properties of the design are kept exactly as stated:
//!
//! * the offset is clamped against the *outer* dimensions, not the inner
//!   ones, so an offset beyond the outer size yields an empty copy;
//! * the window is read from the inner origin `(0, 0)`, not from the offset,
//!   so a growing offset shrinks the copied region instead of panning it.
//!
//! Destination indices use the outer rectangle's width as the row stride, so
//! the copy is meaningful only when the outer rectangle spans the full width
//! of the destination grid; the preconditions demand exactly that.

use vstd::arithmetic::div_mod::lemma_fundamental_div_mod;
use vstd::arithmetic::div_mod::lemma_fundamental_div_mod_converse;
use vstd::prelude::*;

use crate::grid::Grid;
use crate::rect::Rect;

verus! {

/// The scroll offset clamped to a dimension of the outer rectangle:
/// `min(offset, limit)`.
pub open spec fn clip(offset: u16, limit: u16) -> int {
    if offset <= limit {
        offset as int
    } else {
        limit as int
    }
}

/// Width of the copied window: when the inner canvas is at least as wide as
/// the outer rectangle, the outer width minus the clamped column offset;
/// otherwise the whole inner width.
pub open spec fn copy_width(sx: u16, outer_w: u16, inner_w: u16) -> int {
    if inner_w >= outer_w {
        outer_w - clip(sx, outer_w)
    } else {
        inner_w as int
    }
}

/// Height of the copied window, by the same rule as [`copy_width`].
pub open spec fn copy_height(sy: u16, outer_h: u16, inner_h: u16) -> int {
    if inner_h >= outer_h {
        outer_h - clip(sy, outer_h)
    } else {
        inner_h as int
    }
}

/// Whether flat destination index `i` falls inside the copied window, reading
/// `i` as row-major with stride `outer.width`.
pub open spec fn in_window(i: int, pos: (u16, u16), outer: Rect, inner_w: u16, inner_h: u16) -> bool {
    let w = outer.width as int;
    w > 0 && {
        let row = i / w;
        let col = i % w;
        &&& outer.y <= row < outer.y + copy_height(pos.1, outer.height, inner_h)
        &&& outer.x <= col < outer.x + copy_width(pos.0, outer.width, inner_w)
    }
}

/// The flat index of the inner cell that the blit copies to destination index
/// `i`: the window is read from the inner origin `(0, 0)`, not from the
/// scroll offset.
pub open spec fn source_index(i: int, outer: Rect, inner_w: u16) -> int {
    let w = outer.width as int;
    (i / w - outer.y) * inner_w + (i % w - outer.x)
}

/// The destination contents after the blit: every cell of the copied window
/// comes from the inner grid, every other cell keeps its old value.
pub open spec fn blit_spec<C>(
    pos: (u16, u16),
    outer: Rect,
    inner_w: u16,
    inner_h: u16,
    src: Seq<C>,
    dst: Seq<C>,
) -> Seq<C> {
    Seq::new(
        dst.len(),
        |i: int|
            if in_window(i, pos, outer, inner_w, inner_h) {
                src[source_index(i, outer, inner_w)]
            } else {
                dst[i]
            },
    )
}

/// The cell-to-cell index mapping of the blit, for hosts whose cell type the
/// library cannot copy itself: entry `k` maps the inner flat index
/// `pairs[k].0` to the destination flat index `pairs[k].1`, the destination
/// read row-major at stride `outer.width`. Assigning along the pairs, in any
/// order, performs exactly the copy that [`blit`] performs.
pub fn blit_indices(pos: (u16, u16), outer: Rect, inner_w: u16, inner_h: u16) -> (pairs: Vec<
    (usize, usize),
>)
    requires
        outer.x + outer.width <= u16::MAX,
        outer.y + outer.height <= u16::MAX,
    ensures
        pairs@.len() == copy_width(pos.0, outer.width, inner_w) * copy_height(
            pos.1,
            outer.height,
            inner_h,
        ),
        forall|k: int|
            0 <= k < pairs@.len() ==> ({
                let cw = copy_width(pos.0, outer.width, inner_w);
                &&& (#[trigger] pairs@[k]).0 == (k / cw) * inner_w + k % cw
                &&& pairs@[k].1 == (outer.y + k / cw) * outer.width + outer.x + k % cw
                &&& pairs@[k].0 < inner_w * inner_h
            }),
{
    let px: u16 = if pos.0 <= outer.width {
        pos.0
    } else {
        outer.width
    };
    let py: u16 = if pos.1 <= outer.height {
        pos.1
    } else {
        outer.height
    };
    let cw: u16 = if inner_w >= outer.width {
        outer.width - px
    } else {
        inner_w
    };
    let ch: u16 = if inner_h >= outer.height {
        outer.height - py
    } else {
        inner_h
    };
    let ghost cwi = copy_width(pos.0, outer.width, inner_w);
    let ghost chi = copy_height(pos.1, outer.height, inner_h);

    let mut pairs: Vec<(usize, usize)> = Vec::new();
    let mut y: u16 = 0;
    while y < ch
        invariant
            cw as int == cwi,
            ch as int == chi,
            cw <= outer.width,
            cw <= inner_w,
            ch <= outer.height,
            ch <= inner_h,
            outer.x + outer.width <= u16::MAX,
            outer.y + outer.height <= u16::MAX,
            y <= ch,
            pairs@.len() == y * cwi,
            forall|k: int|
                0 <= k < pairs@.len() ==> ({
                    &&& (#[trigger] pairs@[k]).0 == (k / cwi) * inner_w + k % cwi
                    &&& pairs@[k].1 == (outer.y + k / cwi) * outer.width + outer.x + k % cwi
                    &&& pairs@[k].0 < inner_w * inner_h
                }),
        decreases ch - y,
    {
        let mut x: u16 = 0;
        while x < cw
            invariant
                cw as int == cwi,
                ch as int == chi,
                cw <= outer.width,
                cw <= inner_w,
                ch <= outer.height,
                ch <= inner_h,
                outer.x + outer.width <= u16::MAX,
                outer.y + outer.height <= u16::MAX,
                y < ch,
                x <= cw,
                pairs@.len() == y * cwi + x,
                forall|k: int|
                    0 <= k < pairs@.len() ==> ({
                        &&& (#[trigger] pairs@[k]).0 == (k / cwi) * inner_w + k % cwi
                        &&& pairs@[k].1 == (outer.y + k / cwi) * outer.width + outer.x + k % cwi
                        &&& pairs@[k].0 < inner_w * inner_h
                    }),
            decreases cw - x,
        {
            proof {
                assert((y as int) * (inner_w as int) + (x as int) < (inner_w as int) * (
                inner_h as int) && (inner_w as int) * (inner_h as int) <= 0xffff * 0xffff)
                    by (nonlinear_arith)
                    requires
                        x < inner_w,
                        y < inner_h,
                        inner_w <= 0xffff,
                        inner_h <= 0xffff,
                ;
                assert(((outer.y + y) as int) * (outer.width as int) + ((outer.x + x) as int)
                    <= 0xffff * 0xffff + 0xffff) by (nonlinear_arith)
                    requires
                        outer.y + y <= 0xffff,
                        outer.x + x <= 0xffff,
                        outer.width <= 0xffff,
                ;
            }
            let si: usize = (y as usize) * (inner_w as usize) + (x as usize);
            let oy: u16 = outer.y + y;
            let ox: u16 = outer.x + x;
            let di: usize = (oy as usize) * (outer.width as usize) + (ox as usize);
            pairs.push((si, di));
            proof {
                lemma_fundamental_div_mod_converse(
                    (y as int) * cwi + (x as int),
                    cwi,
                    y as int,
                    x as int,
                );
            }
            x = x + 1;
        }
        proof {
            assert((y as int) * cwi + cwi == ((y as int) + 1) * cwi) by (nonlinear_arith);
        }
        y = y + 1;
    }
    proof {
        assert((ch as int) * cwi == cwi * chi) by (nonlinear_arith)
            requires
                ch as int == chi,
        ;
    }
    pairs
}

/// Copies the clipped window of `inner` into `dest` at `outer`, leaving every
/// destination cell outside the window untouched.
pub fn blit<C: Copy>(pos: (u16, u16), outer: Rect, inner: &Grid<C>, dest: &mut Grid<C>)
    requires
        inner.wf(),
        old(dest).wf(),
        outer.width == old(dest).width,
        outer.x + outer.width <= old(dest).width,
        outer.y + outer.height <= old(dest).height,
    ensures
        final(dest).wf(),
        final(dest).width == old(dest).width,
        final(dest).height == old(dest).height,
        final(dest).content@ == blit_spec(
            pos,
            outer,
            inner.width,
            inner.height,
            inner.content@,
            old(dest).content@,
        ),
{
    let ghost dst0 = old(dest).content@;
    let px: u16 = if pos.0 <= outer.width {
        pos.0
    } else {
        outer.width
    };
    let py: u16 = if pos.1 <= outer.height {
        pos.1
    } else {
        outer.height
    };
    let cw: u16 = if inner.width >= outer.width {
        outer.width - px
    } else {
        inner.width
    };
    let ch: u16 = if inner.height >= outer.height {
        outer.height - py
    } else {
        inner.height
    };

    let mut y: u16 = 0;
    while y < ch
        invariant
            inner.wf(),
            dest.wf(),
            dest.width == old(dest).width,
            dest.height == old(dest).height,
            dest.content@.len() == dst0.len(),
            dst0 == old(dest).content@,
            outer.width == dest.width,
            outer.x + outer.width <= dest.width,
            outer.y + outer.height <= dest.height,
            cw as int == copy_width(pos.0, outer.width, inner.width),
            ch as int == copy_height(pos.1, outer.height, inner.height),
            cw <= outer.width,
            cw <= inner.width,
            ch <= outer.height,
            ch <= inner.height,
            y <= ch,
            forall|i: int|
                0 <= i < dest.content@.len() ==> #[trigger] dest.content@[i] == (
                if in_window(i, pos, outer, inner.width, inner.height) && i / (
                outer.width as int) < outer.y + y {
                    inner.content@[source_index(i, outer, inner.width)]
                } else {
                    dst0[i]
                }),
        decreases ch - y,
    {
        let oy: u16 = outer.y + y;
        let mut x: u16 = 0;
        while x < cw
            invariant
                inner.wf(),
                dest.wf(),
                dest.width == old(dest).width,
                dest.height == old(dest).height,
                dest.content@.len() == dst0.len(),
                dst0 == old(dest).content@,
                outer.width == dest.width,
                outer.x + outer.width <= dest.width,
                outer.y + outer.height <= dest.height,
                cw as int == copy_width(pos.0, outer.width, inner.width),
                ch as int == copy_height(pos.1, outer.height, inner.height),
                cw <= outer.width,
                cw <= inner.width,
                ch <= outer.height,
                ch <= inner.height,
                y < ch,
                oy == outer.y + y,
                x <= cw,
                forall|i: int|
                    0 <= i < dest.content@.len() ==> #[trigger] dest.content@[i] == (
                    if in_window(i, pos, outer, inner.width, inner.height) && (i / (
                    outer.width as int) < outer.y + y || (i / (outer.width as int) == outer.y + y
                        && i % (outer.width as int) < outer.x + x)) {
                        inner.content@[source_index(i, outer, inner.width)]
                    } else {
                        dst0[i]
                    }),
            decreases cw - x,
        {
            let ox: u16 = outer.x + x;
            proof {
                assert((y as int) * (inner.width as int) + (x as int) < (inner.width as int) * (
                inner.height as int) && (inner.width as int) * (inner.height as int) <= 0xffff
                    * 0xffff) by (nonlinear_arith)
                    requires
                        x < inner.width,
                        y < inner.height,
                        inner.width <= 0xffff,
                        inner.height <= 0xffff,
                ;
                assert((oy as int) * (outer.width as int) + (ox as int) < (dest.width as int) * (
                dest.height as int) && (dest.width as int) * (dest.height as int) <= 0xffff
                    * 0xffff) by (nonlinear_arith)
                    requires
                        oy < dest.height,
                        ox < dest.width,
                        outer.width == dest.width,
                        dest.width <= 0xffff,
                        dest.height <= 0xffff,
                ;
            }
            let si: usize = (y as usize) * (inner.width as usize) + (x as usize);
            let di: usize = (oy as usize) * (outer.width as usize) + (ox as usize);
            let c: C = inner.content[si];
            dest.content[di] = c;
            proof {
                let w = outer.width as int;
                lemma_fundamental_div_mod_converse(di as int, w, oy as int, ox as int);
                assert(in_window(di as int, pos, outer, inner.width, inner.height));
                assert(source_index(di as int, outer, inner.width) == si as int);
                assert forall|i: int|
                    0 <= i < dest.content@.len() && i != di implies #[trigger] dest.content@[i]
                    == (
                if in_window(i, pos, outer, inner.width, inner.height) && (i / w < outer.y + y || (
                i / w == outer.y + y && i % w < outer.x + x + 1)) {
                    inner.content@[source_index(i, outer, inner.width)]
                } else {
                    dst0[i]
                }) by {
                    if i / w == oy as int && i % w == ox as int {
                        lemma_fundamental_div_mod(i, w);
                        assert(w * (oy as int) == (oy as int) * w) by (nonlinear_arith);
                        assert(i == di as int);
                    }
                }
            }
            x = x + 1;
        }
        y = y + 1;
    }
    proof {
        assert(dest.content@ =~= blit_spec(
            pos,
            outer,
            inner.width,
            inner.height,
            inner.content@,
            dst0,
        ));
    }
}

} // verus!
