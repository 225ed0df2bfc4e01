//! Record-access rules of a multi-tenant wish service: bearer credential
//! extraction, the scoped session protocol that binds one identity to the
//! shared backend connection per operation, the forward-only wish lifecycle,
//! and the ownership-gated record table.
pub mod auth;
pub mod model;
pub mod lifecycle;
pub mod store;
pub mod guard;
pub mod service;
pub mod identity;
