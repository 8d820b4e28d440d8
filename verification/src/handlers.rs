//! One handler per part of the board. Each turns an event into a short
//! conversation with the runtime: it asks for one effect at a time and is
//! resumed with what came of it, until it reaches its finished state.

pub mod comment;
pub mod image;
pub mod logging;
pub mod user;
