//! Data model of the membership backend: members, credentials, and the
//! plain records exchanged with the external resolver layer.

pub mod auth;
pub mod member;
pub mod status_update;
