//! A reader proxy's verified core: configuration, page conversion, link
//! rewriting, image and raw proxying, and the decisions of its HTTP routes.
pub mod config;
pub mod drova;
pub mod error;
pub mod footnotes;
pub mod laws;
pub mod links;
pub mod proxy;
pub mod reply;
pub mod routes;
pub mod state;
pub mod text;
pub mod urls;
