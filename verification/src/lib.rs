//! Credential verification by salted digest and a relational model of the
//! story board: users, stories, and the list / create / delete operations on
//! them, each with a machine-checked contract.

pub mod digest;
pub mod auth;
pub mod story;
pub mod model;
pub mod store;
pub mod laws;
pub mod failure;
pub mod lifecycle;
pub mod sessions;
