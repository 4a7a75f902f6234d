//! What stands between the core and the world outside: the handlers on
//! the transport's side, the repositories on the store's side.

pub mod api;
pub mod repository;
