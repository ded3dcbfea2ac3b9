//! Identity and access-control core of a club membership backend.
//!
//! The crate decides, for every inbound request, who is calling and what
//! they may do, using three credential schemes: a browser session cookie,
//! a long-lived API key for bots, and a GitHub OAuth exchange for human
//! onboarding. Role-based authorization guards run before any protected
//! operation.
//!
//! The relational store, the GraphQL resolver layer, request routing and
//! the background scheduler are external collaborators: this crate owns
//! the credential and authorization logic and models the durable tables
//! it relies on.

pub mod models;
pub mod text;

pub mod auth;
