//! Verified view models for two small example views: a click counter and a
//! todo list with a text-input buffer. Each view holds plain state, steps it
//! in response to input events, and renders it to a plain description of the
//! screen; a host event loop (outside this library) feeds it events and draws
//! what `render` returns.

pub mod color;
pub mod counter;
pub mod text;
pub mod todo;
