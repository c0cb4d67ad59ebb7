//! An in-memory todo collection behind a single lock, with the request
//! handlers of a small CRUD service built on top of it.
use vstd::prelude::*;

pub mod model;
pub mod response;
pub mod store;
pub mod handler;
mod sources;
pub mod laws;

verus! {

/// The state the service starts with, shared by every request for the
/// lifetime of the process: an empty collection behind its lock.
pub fn rocket() -> (r: handler::AppState)
    ensures
        r.todo_db.pred() == handler::StorePred,
{
    handler::AppState::new()
}

} // verus!
