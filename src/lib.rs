//! Bulk cleanup of an object-store bucket, written as state machines that a
//! runtime drives: the pagination of the listing, the deletion of one page's
//! keys, the filling of a bucket, and the choices of the command-line menu.
pub mod store;
pub mod cleanup;
pub mod deletion;
pub mod laws;
pub mod quantity;
pub mod creation;
pub mod menu;
