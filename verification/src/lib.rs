//! A single-line text input widget: a pure style resolver that maps a visual
//! variant and an interaction state, together with read-only theme tokens, to
//! a resolved style snapshot, and an assembler that builds a render-tree node
//! from that snapshot.

pub mod story;
pub mod style;
pub mod theme;
pub mod widget;
