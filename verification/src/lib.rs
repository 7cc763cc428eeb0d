//! A verified core for a URL-shortening service: id generation, URL
//! validation and short-link composition, a link store keyed by short ids,
//! and the rules that turn each outcome into an HTTP-level reply.
pub mod ids;
pub mod response;
pub mod service;
pub mod store;
pub mod urls;
