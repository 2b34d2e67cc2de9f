//! Identity providers.
pub mod auth0_laws;
pub mod auth0_service;
pub mod auth_provider_trait;
pub mod clerk_error;
pub mod clerk_laws;
pub mod clerk_service;
pub mod clerk_users;
