//! Behaviour of the scroll state and its saturating mutators.

use scroll_area::scroll::ScrollState;
use scroll_area::scroll::StatefulScrollState;

#[test]
fn new_starts_at_origin() {
    let s: ScrollState = StatefulScrollState::new(());
    assert_eq!(s.pos, (0, 0));
}

#[test]
fn default_starts_at_origin() {
    let s: StatefulScrollState<u8> = Default::default();
    assert_eq!(s.pos, (0, 0));
    assert_eq!(s.state, 0);
}

#[test]
fn reset_returns_to_origin() {
    let mut s: ScrollState = StatefulScrollState::new(());
    s.scroll_down_by(7).scroll_right_by(9);
    assert_eq!(s.pos, (9, 7));
    s.reset();
    assert_eq!(s.pos, (0, 0));
}

#[test]
fn saturating_scroll_at_zero() {
    let mut s: ScrollState = StatefulScrollState::new(());
    s.scroll_up_by(5);
    assert_eq!(s.pos, (0, 0));
    s.scroll_left_by(5);
    assert_eq!(s.pos, (0, 0));
    s.scroll_down_by(3);
    assert_eq!(s.pos, (0, 3));
}

#[test]
fn saturating_scroll_at_max() {
    let mut s: ScrollState = StatefulScrollState::new(());
    s.scroll_down_by(u16::MAX).scroll_down_by(5);
    assert_eq!(s.pos.1, u16::MAX);
    s.scroll_right_by(u16::MAX - 1).scroll_right_by(3);
    assert_eq!(s.pos.0, u16::MAX);
}

#[test]
fn chaining_scrolls() {
    let mut s: ScrollState = StatefulScrollState::new(());
    s.scroll_down().scroll_down().scroll_right_by(4);
    assert_eq!(s.pos, (4, 2));
}

#[test]
fn single_step_scrolls() {
    let mut s: ScrollState = StatefulScrollState::new(());
    s.scroll_down().scroll_right().scroll_right();
    assert_eq!(s.pos, (2, 1));
    s.scroll_up().scroll_left();
    assert_eq!(s.pos, (1, 0));
    s.scroll_up().scroll_left();
    assert_eq!(s.pos, (0, 0));
}

#[test]
fn up_then_down_lands_on_larger() {
    // From row 7, up 10 saturates at 0, so down 10 lands on 10, not 7.
    let mut s: ScrollState = StatefulScrollState::new(());
    s.scroll_down_by(7);
    s.scroll_up_by(10).scroll_down_by(10);
    assert_eq!(s.pos.1, 10);
    // From row 7, up 3 then down 3 returns to 7.
    let mut t: ScrollState = StatefulScrollState::new(());
    t.scroll_down_by(7);
    t.scroll_up_by(3).scroll_down_by(3);
    assert_eq!(t.pos.1, 7);
}

#[test]
fn scroll_down_is_additive() {
    let mut a: ScrollState = StatefulScrollState::new(());
    a.scroll_down_by(12).scroll_down_by(30);
    let mut b: ScrollState = StatefulScrollState::new(());
    b.scroll_down_by(42);
    assert_eq!(a.pos, b.pos);

    let mut c: ScrollState = StatefulScrollState::new(());
    c.scroll_down_by(u16::MAX - 1).scroll_down_by(7);
    let mut d: ScrollState = StatefulScrollState::new(());
    d.scroll_down_by(u16::MAX);
    assert_eq!(c.pos, d.pos);
}

#[test]
fn clone_keeps_offset() {
    let mut s: StatefulScrollState<u8> = StatefulScrollState::new(5);
    s.scroll_down_by(2).scroll_right_by(3);
    let t = s.clone();
    assert_eq!(t.pos, (3, 2));
    assert_eq!(t.state, 5);
}

#[test]
fn states_copy_implicitly() {
    let mut s: StatefulScrollState<u8> = StatefulScrollState::new(5);
    s.scroll_down_by(2);
    let t = s;
    s.scroll_down_by(1);
    assert_eq!(t.pos, (0, 2));
    assert_eq!(s.pos, (0, 3));
    assert_eq!(t.state, 5);
}

#[test]
fn state_accessors() {
    let mut s: StatefulScrollState<u8> = StatefulScrollState::new(17);
    assert_eq!(*s.state(), 17);
    *s.state_mut() = 23;
    assert_eq!(*s.state(), 23);
    assert_eq!(s.pos, (0, 0));
    assert_eq!(s.into_state(), 23);
}
