//! The lifecycle ledger of a build-publishing service: builds, their refs and
//! the jobs that advance them, with every guarded transition applied as one
//! all-or-nothing step.

pub mod db;
pub mod laws;
pub mod ledger;
pub mod model;
pub mod models;
pub mod state;
