//! Verified core of a serverless GraphQL gateway in front of a Preservica
//! repository: it decides every step of resolving one entity (secret lookup,
//! token exchange, entity fetch, turning the record into an entity) from plain values, while
//! the hosting program performs the network calls it asks for.

pub mod error;
pub mod ident;
pub mod json;
pub mod config;
pub mod secret;
pub mod auth;
pub mod entity;
pub mod request;
pub mod resolver;
pub mod laws;
