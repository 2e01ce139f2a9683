//! hatchery — the decision and projection logic of a visual probe service for an
//! append-only content-addressed data model.

pub mod text;
pub mod cid;
pub mod vocab;
pub mod roles;
pub mod viz_model;
pub mod api;
pub mod session;
pub mod auth;
pub mod tools;
pub mod chat;
pub mod state;
pub mod scenario;
