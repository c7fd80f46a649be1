//! A shared to-do list: an ordered store of tasks, its projection into
//! position-numbered views for rendering, and the request logic that
//! performs one store operation and picks which view to render.
//!
//! A task's `id` is its current position. Removing a task moves every later
//! task down by one, so an `id` read before a removal may name another task
//! afterwards. Removing an absent position is an error, while marking an
//! absent position done is ignored, as the request handlers always did.
pub mod handlers;
pub mod laws;
pub mod store;
pub mod task;
pub mod text;
