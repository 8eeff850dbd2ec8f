//! Blinking text cursor: an opacity/phase animation driven by a periodic tick,
//! and the decisions of the controller that owns the timer.
pub mod cursor;

pub use cursor::{Alpha, AnimPhase, Cursor, CursorPaint, CursorWidth, State};
