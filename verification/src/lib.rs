//! A service-information endpoint: the name, version and repository of the
//! running build, answered as a JSON object on `GET /api`.
//!
//! The crate holds the rules of the endpoint as plain functions from values to
//! values. A server hands each request's method and path to
//! [`api::Router::handle`] and writes the [`response::Response`] back.

pub mod api;
pub mod encode;
pub mod json;
pub mod metadata;
pub mod response;
