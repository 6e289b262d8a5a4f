//! A multi-tenant short-link service, written as a verified core.
//!
//! The crate holds the decisions of the service: how a request is classified,
//! how a link is keyed in the key-value backend, and what each operation asks
//! of the backend and answers to the client. The transport and the backend
//! themselves stay outside; the caller performs each [`machine::Action`] and
//! hands the outcome back as a [`machine::Event`].

pub mod text;
pub mod link;
pub mod apex;
pub mod json;
pub mod body;
pub mod record;
pub mod route;
pub mod response;
pub mod machine;
pub mod laws;
pub mod logline;
