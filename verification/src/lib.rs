//! Verified core of a content service: identity providers, storage adapters, and the
//! rules that tie them together.
pub mod auth_provider;
pub mod auth_provider_factory;
pub mod encoding;
pub mod error;
pub mod geo_ffi_laws;
pub mod geo_ffi_macro;
pub mod http;
pub mod json;
pub mod order;
pub mod policy_macro;
pub mod reading;
pub mod storage_service;
pub mod storage_service_factory;
pub mod text;
pub mod text_laws;
pub mod types;
