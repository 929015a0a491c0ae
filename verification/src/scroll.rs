//! The scroll offset and its saturating mutators.

use vstd::prelude::*;

verus! {

/// Saturating addition on 16-bit coordinates: pins at `u16::MAX` instead of
/// wrapping.
pub open spec fn sat_add(a: u16, b: u16) -> u16 {
    if a + b > u16::MAX {
        u16::MAX
    } else {
        (a + b) as u16
    }
}

/// Saturating subtraction on 16-bit coordinates: pins at zero instead of
/// wrapping.
pub open spec fn sat_sub(a: u16, b: u16) -> u16 {
    if a >= b {
        (a - b) as u16
    } else {
        0
    }
}

/// Scroll state for a scroll area whose inner widget keeps no state of its
/// own.
pub type ScrollState = StatefulScrollState<()>;

/// The scroll offset of a scroll area, kept beside the state of the nested
/// widget so that one handle serves the whole stateful render protocol.
///
/// The offset is not clamped to any canvas size when it is mutated; clamping
/// to the visible window happens at render time, so scroll commands may be
/// issued before any render has fixed the inner size.
#[derive(Copy, Debug, PartialEq, Eq, Hash)]
pub struct StatefulScrollState<S> {
    /// The scroll offset, as an `(sx, sy)` column/row pair.
    pub pos: (u16, u16),
    /// The nested state, handed to the inner widget on render.
    pub state: S,
}

/// `s` with the offset back at the origin.
pub open spec fn reset_of<S>(s: StatefulScrollState<S>) -> StatefulScrollState<S> {
    StatefulScrollState { pos: (0u16, 0u16), ..s }
}

/// `s` scrolled `n` rows up: `sy` decreases, saturating at zero.
pub open spec fn scrolled_up<S>(s: StatefulScrollState<S>, n: u16) -> StatefulScrollState<S> {
    StatefulScrollState { pos: (s.pos.0, sat_sub(s.pos.1, n)), ..s }
}

/// `s` scrolled `n` rows down: `sy` increases, saturating at `u16::MAX`.
pub open spec fn scrolled_down<S>(s: StatefulScrollState<S>, n: u16) -> StatefulScrollState<S> {
    StatefulScrollState { pos: (s.pos.0, sat_add(s.pos.1, n)), ..s }
}

/// `s` scrolled `n` columns left: `sx` decreases, saturating at zero.
pub open spec fn scrolled_left<S>(s: StatefulScrollState<S>, n: u16) -> StatefulScrollState<S> {
    StatefulScrollState { pos: (sat_sub(s.pos.0, n), s.pos.1), ..s }
}

/// `s` scrolled `n` columns right: `sx` increases, saturating at `u16::MAX`.
pub open spec fn scrolled_right<S>(s: StatefulScrollState<S>, n: u16) -> StatefulScrollState<S> {
    StatefulScrollState { pos: (sat_add(s.pos.0, n), s.pos.1), ..s }
}

impl<S: Clone> Clone for StatefulScrollState<S> {
    /// Clones the state: the offset is copied exactly, the nested state by
    /// its own `Clone`.
    fn clone(&self) -> (r: Self)
        ensures
            r.pos == self.pos,
            cloned(self.state, r.state),
    {
        StatefulScrollState { pos: self.pos, state: self.state.clone() }
    }
}

impl<S: Default> Default for StatefulScrollState<S> {
    /// Both fields at their defaults: the offset at the origin and a nested
    /// state that satisfies the contract of `S`'s own `default`.
    fn default() -> (r: Self)
        ensures
            r.pos == (0u16, 0u16),
            call_ensures(S::default, (), r.state),
    {
        StatefulScrollState { pos: (0, 0), state: S::default() }
    }
}

impl<S> StatefulScrollState<S> {
    /// A state with the offset at the origin, wrapping the given nested state.
    pub fn new(state: S) -> (r: Self)
        ensures
            r == (StatefulScrollState { pos: (0u16, 0u16), state }),
    {
        StatefulScrollState { pos: (0, 0), state }
    }

    /// Scrolls back to the start (topmost, leftmost position).
    ///
    /// Returns a mutable reference to `self` for chaining.
    pub fn reset(&mut self) -> (r: &mut Self)
        ensures
            *r == reset_of(*old(self)),
            *final(self) == *final(r),
    {
        self.pos = (0, 0);
        self
    }

    /// Scrolls one row up.
    ///
    /// Returns a mutable reference to `self` for chaining.
    pub fn scroll_up(&mut self) -> (r: &mut Self)
        ensures
            *r == scrolled_up(*old(self), 1),
            *final(self) == *final(r),
    {
        self.scroll_up_by(1)
    }

    /// Scrolls `n` rows up, saturating at row zero.
    ///
    /// Returns a mutable reference to `self` for chaining.
    pub fn scroll_up_by(&mut self, n: u16) -> (r: &mut Self)
        ensures
            *r == scrolled_up(*old(self), n),
            *final(self) == *final(r),
    {
        self.pos.1 = self.pos.1.saturating_sub(n);
        self
    }

    /// Scrolls one column right.
    ///
    /// Returns a mutable reference to `self` for chaining.
    pub fn scroll_right(&mut self) -> (r: &mut Self)
        ensures
            *r == scrolled_right(*old(self), 1),
            *final(self) == *final(r),
    {
        self.scroll_right_by(1)
    }

    /// Scrolls `n` columns right, saturating at `u16::MAX`.
    ///
    /// Returns a mutable reference to `self` for chaining.
    pub fn scroll_right_by(&mut self, n: u16) -> (r: &mut Self)
        ensures
            *r == scrolled_right(*old(self), n),
            *final(self) == *final(r),
    {
        self.pos.0 = self.pos.0.saturating_add(n);
        self
    }

    /// Scrolls one row down.
    ///
    /// Returns a mutable reference to `self` for chaining.
    pub fn scroll_down(&mut self) -> (r: &mut Self)
        ensures
            *r == scrolled_down(*old(self), 1),
            *final(self) == *final(r),
    {
        self.scroll_down_by(1)
    }

    /// Scrolls `n` rows down, saturating at `u16::MAX`.
    ///
    /// Returns a mutable reference to `self` for chaining.
    pub fn scroll_down_by(&mut self, n: u16) -> (r: &mut Self)
        ensures
            *r == scrolled_down(*old(self), n),
            *final(self) == *final(r),
    {
        self.pos.1 = self.pos.1.saturating_add(n);
        self
    }

    /// Scrolls one column left.
    ///
    /// Returns a mutable reference to `self` for chaining.
    pub fn scroll_left(&mut self) -> (r: &mut Self)
        ensures
            *r == scrolled_left(*old(self), 1),
            *final(self) == *final(r),
    {
        self.scroll_left_by(1)
    }

    /// Scrolls `n` columns left, saturating at column zero.
    ///
    /// Returns a mutable reference to `self` for chaining.
    pub fn scroll_left_by(&mut self, n: u16) -> (r: &mut Self)
        ensures
            *r == scrolled_left(*old(self), n),
            *final(self) == *final(r),
    {
        self.pos.0 = self.pos.0.saturating_sub(n);
        self
    }

    /// Read-only access to the nested state.
    pub fn state(&self) -> (r: &S)
        ensures
            *r == self.state,
    {
        &self.state
    }

    /// Mutable access to the nested state; the offset is untouched.
    pub fn state_mut(&mut self) -> (r: &mut S)
        ensures
            *r == old(self).state,
            final(self).pos == old(self).pos,
            final(self).state == *final(r),
    {
        &mut self.state
    }

    /// Consumes the scroll state and yields the nested state.
    pub fn into_state(self) -> (r: S)
        ensures
            r == self.state,
    {
        self.state
    }
}

} // verus!
