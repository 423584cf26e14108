//! The pure half of the command surface: the payload types that carry no
//! transport concerns, and the mapping from domain errors to transport status
//! codes and structured error bodies.

pub mod api;
pub mod models;

pub use api::{ApiError, ErrorBody};
