//! Client library for the Schlep-engine data and ML platform.
//!
//! The library builds every request that the platform's HTTP API takes
//! (verb, address, headers, body) and classifies every response into a
//! typed value or a typed error. Sending the request is left to the caller.
use vstd::prelude::*;

pub mod api;
pub mod client;
pub mod error;
pub mod query;
pub mod request;
pub mod response;
pub mod types;

pub use api::{
    AdminClient, AnalyticsClient, DataClient, DocumentClient, MLClient, MonitoringClient,
    QualityClient, StorageClient, UsersClient,
};
pub use client::SchlepClient;
pub use error::{Error, Result};
pub use types::{
    AlertResponse, ApiKeyInfo, DatasetResponse, DeployResponse, DeploymentResponse, FileMetadata,
    FileUploadResponse, HealthResponse, ImageExtractionResponse, ListParams, PaginatedResponse,
    TrainResponse, TransformationResponse, UploadResponse, UserProfile, UserSummary,
    ValidationResponse, ValidationResult, ValidationResultResponse,
};

verus! {

/// The platform's default base address.
pub const DEFAULT_BASE_URL: &'static str = "https://api.schlep-engine.com/v1";

} // verus!
