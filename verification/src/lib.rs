//! A scrollable viewport for character-cell terminal grids.
//!
//! An inner renderable draws onto a logical canvas of size `Wi x Hi`; the
//! scroll area projects a window of that canvas, positioned by a scroll
//! offset, into an outer rectangle of a destination grid. The scroll offset
//! lives in a [`scroll::StatefulScrollState`], whose mutators use saturating
//! arithmetic throughout.

pub mod area;
pub mod blit;
pub mod grid;
pub mod laws;
pub mod rect;
pub mod scroll;
pub mod widget;

pub use area::ScrollArea;
pub use area::StatefulScrollArea;
pub use grid::Grid;
pub use rect::Rect;
pub use scroll::ScrollState;
pub use scroll::StatefulScrollState;
pub use widget::Canvas;
pub use widget::StatefulWidget;
pub use widget::Widget;
