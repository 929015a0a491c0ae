//! Rendering scenarios: identity copies, clipping, offsets and idempotence.

use scroll_area::blit::blit;
use scroll_area::blit::blit_indices;
use scroll_area::grid::Grid;
use scroll_area::rect::Rect;
use scroll_area::scroll::ScrollState;
use scroll_area::scroll::StatefulScrollState;
use scroll_area::widget::Canvas;
use scroll_area::ScrollArea;
use scroll_area::StatefulScrollArea;

fn canvas_of(width: u16, height: u16, text: &str) -> Canvas<char> {
    let cells: Vec<char> = text.chars().collect();
    assert_eq!(cells.len(), width as usize * height as usize);
    Canvas::new(width, height, cells)
}

fn chars_of(text: &str) -> Vec<char> {
    text.chars().collect()
}

#[test]
fn identity_copy() {
    // Inner 4x2 equal to the outer rectangle, offset (0, 0): verbatim copy.
    let area = ScrollArea::new(canvas_of(4, 2, "ABCDEFGH"), (4, 2));
    let mut out: Grid<char> = Grid::filled(4, 2, '.');
    let mut state: ScrollState = StatefulScrollState::new(());
    area.render(Rect::new(0, 0, 4, 2), &mut out, &mut state);
    assert_eq!(out.content, chars_of("ABCDEFGH"));
}

#[test]
fn horizontal_clip_with_larger_inner() {
    // Inner 6x1, outer 3x1: cw = 3, copy starts at inner (0, 0).
    let area = ScrollArea::new(canvas_of(6, 1, "ABCDEF"), (6, 1));
    let mut out: Grid<char> = Grid::filled(3, 1, '.');
    let mut state: ScrollState = StatefulScrollState::new(());
    area.render(Rect::new(0, 0, 3, 1), &mut out, &mut state);
    assert_eq!(out.content, chars_of("ABC"));
}

#[test]
fn vertical_offset_past_outer_height() {
    // Offset (0, 10) against outer height 3: py = 3, ch = 0, nothing written.
    let area = ScrollArea::new(canvas_of(2, 5, "0123456789"), (2, 5));
    let mut out: Grid<char> = Grid::filled(2, 3, '.');
    let mut state: ScrollState = StatefulScrollState::new(());
    state.scroll_down_by(10);
    area.render(Rect::new(0, 0, 2, 3), &mut out, &mut state);
    assert_eq!(out.content, chars_of("......"));
}

#[test]
fn inner_smaller_than_outer() {
    // Inner 2x2 in an outer 4x4: only the top-left 2x2 cells are written.
    let area = ScrollArea::new(canvas_of(2, 2, "ABCD"), (2, 2));
    let mut out: Grid<char> = Grid::filled(4, 4, '.');
    let mut state: ScrollState = StatefulScrollState::new(());
    area.render(Rect::new(0, 0, 4, 4), &mut out, &mut state);
    assert_eq!(out.content, chars_of("AB..CD.........."));
}

#[test]
fn offset_shrinks_window() {
    // With the inner at least as large as the outer, a positive offset
    // shrinks the copied region; the source still starts at inner (0, 0).
    let area = ScrollArea::new(canvas_of(4, 2, "ABCDEFGH"), (4, 2));
    let mut out: Grid<char> = Grid::filled(4, 2, '.');
    let mut state: ScrollState = StatefulScrollState::new(());
    state.scroll_right_by(1);
    area.render(Rect::new(0, 0, 4, 2), &mut out, &mut state);
    assert_eq!(out.content, chars_of("ABC.EFG."));
}

#[test]
fn render_twice_is_idempotent() {
    let mut out: Grid<char> = Grid::filled(3, 1, '.');
    let mut state: ScrollState = StatefulScrollState::new(());
    state.scroll_right_by(1);

    let area = ScrollArea::new(canvas_of(6, 1, "ABCDEF"), (6, 1));
    area.render(Rect::new(0, 0, 3, 1), &mut out, &mut state);
    let first = out.content.clone();

    let again = ScrollArea::new(canvas_of(6, 1, "ABCDEF"), (6, 1));
    again.render(Rect::new(0, 0, 3, 1), &mut out, &mut state);
    assert_eq!(out.content, first);
}

#[test]
fn stateful_render_threads_state() {
    let area = StatefulScrollArea::new(canvas_of(4, 2, "ABCDEFGH"), (4, 2));
    let mut out: Grid<char> = Grid::filled(4, 2, '.');
    let mut state: StatefulScrollState<()> = StatefulScrollState::new(());
    area.render(Rect::new(0, 0, 4, 2), &mut out, &mut state);
    assert_eq!(out.content, chars_of("ABCDEFGH"));
    assert_eq!(state.pos, (0, 0));
}

#[test]
fn blit_into_lower_rows() {
    // Outer rectangle at row 1 of a 2x4 destination: rows 0 and 3 untouched.
    let inner: Grid<char> = Grid {
        width: 2,
        height: 2,
        content: chars_of("ABCD"),
    };
    let mut out: Grid<char> = Grid::filled(2, 4, '.');
    blit((0, 0), Rect::new(0, 1, 2, 2), &inner, &mut out);
    assert_eq!(out.content, chars_of("..ABCD.."));
}

#[test]
fn blit_index_pairs() {
    // Identity window: inner 6x1 clipped to 3x1.
    let pairs = blit_indices((0, 0), Rect::new(0, 0, 3, 1), 6, 1);
    assert_eq!(pairs, vec![(0, 0), (1, 1), (2, 2)]);

    // A column offset of 2 shrinks the window to one cell.
    let pairs = blit_indices((2, 0), Rect::new(0, 0, 3, 1), 6, 1);
    assert_eq!(pairs, vec![(0, 0)]);

    // An offset past the outer size empties the window.
    let pairs = blit_indices((0, 9), Rect::new(0, 0, 3, 1), 6, 1);
    assert!(pairs.is_empty());
}

#[test]
fn zero_size_outer_writes_nothing() {
    let area = ScrollArea::new(canvas_of(2, 2, "ABCD"), (2, 2));
    let mut out: Grid<char> = Grid::filled(0, 0, '.');
    let mut state: ScrollState = StatefulScrollState::new(());
    area.render(Rect::new(0, 0, 0, 0), &mut out, &mut state);
    assert_eq!(out.content, vec![]);
}

#[test]
fn empty_grid_holds_default_cells() {
    let g: Grid<char> = Grid::empty(2, 2);
    assert_eq!(g.content, vec!['\0', '\0', '\0', '\0']);
    assert_eq!((g.width, g.height), (2, 2));
}

#[test]
fn grid_get_and_set() {
    let mut g: Grid<char> = Grid::filled(3, 2, '.');
    g.set(2, 1, 'X');
    assert_eq!(g.get(2, 1), 'X');
    assert_eq!(g.get(0, 0), '.');
    assert_eq!(g.content, chars_of(".....X"));
}
