//! A generic double-buffering container.
//!
//! [`DoubleBuffer`] owns two copies of a value and a selector that marks which
//! copy is current; the opposite copy is the staging ("next") copy. Writing the
//! staging copy while reading the current one, then swapping their roles, lets
//! a value be computed from its own previous value without ever observing a
//! half-updated state.

pub mod double_buffer;
pub mod into_double_buffer;

pub use double_buffer::DoubleBuffer;
pub use into_double_buffer::IntoDoubleBuffer;
