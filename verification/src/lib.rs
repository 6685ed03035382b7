//! Domain logic of a boxing gym's membership, class and content service.

pub mod auth;
pub mod error;
pub mod ids;
pub mod models;
pub mod pages;
pub mod queries;
pub mod sql;
pub mod text;
pub mod validation;
