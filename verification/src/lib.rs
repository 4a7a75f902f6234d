//! A small user service in layers: a request handler validates its input,
//! a use case hands the work to a repository, and every outcome leaves as a
//! uniform envelope with a status code.

pub mod adapters;
pub mod domain;
pub mod errors;
pub mod use_case;
