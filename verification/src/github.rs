//! The synchronisation job: what is asked of the remote API, what is taken
//! from its answers, and the rows that are written.

pub mod api;
pub mod batch;
pub mod repository;
