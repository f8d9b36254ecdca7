//! Verified core of the newsletter service: subscriber validation, the
//! decisions of the subscribe, confirm and publish flows, what they leave in
//! the store, and the rendering of error chains.
pub mod error_chain;
pub mod domain;
pub mod email;
pub mod routes;
pub mod text;
pub mod store_model;
