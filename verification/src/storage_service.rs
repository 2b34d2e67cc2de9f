//! Storage adapters.
pub mod aws_efs_service;
pub mod aws_s3_service;
pub mod bunnynet;
pub mod bunnynet_laws;
pub mod cdn_laws;
pub mod cdn_service;
pub mod channel_laws;
pub mod channel_manager_service;
pub mod efs_laws;
pub mod head;
pub mod pull_zone;
pub mod pull_zone_laws;
pub mod s3_clients;
pub mod s3_laws;
pub mod s3_transfer;
pub mod s3_uri;
pub mod storage_service_trait;
