//! Plain data carried by the platform's API: list parameters and the
//! response records of the endpoints.
use vstd::prelude::*;

use std::collections::HashMap;

verus! {

/// Parameters of a list request; each one that is set becomes one pair of
/// the query string.
#[derive(Debug, Clone, Default)]
pub struct ListParams {
    /// Page number (counted from 1).
    pub page: Option<u32>,
    /// Number of items per page.
    pub page_size: Option<u32>,
    /// Status to filter by.
    pub status: Option<String>,
}

/// One page of a list.
#[derive(Debug, Clone)]
pub struct PaginatedResponse<T> {
    pub items: Vec<T>,
    pub total: u64,
    pub page: u32,
    pub page_size: u32,
    pub total_pages: u32,
}

/// Answer to an upload.
#[derive(Debug, Clone)]
pub struct UploadResponse {
    pub job_id: String,
    pub status: String,
    pub message: Option<String>,
}

/// Answer to a training request.
#[derive(Debug, Clone)]
pub struct TrainResponse {
    pub job_id: String,
    pub model_id: Option<String>,
    pub status: String,
    pub message: Option<String>,
}

/// Answer to a deployment request.
#[derive(Debug, Clone)]
pub struct DeployResponse {
    pub deployment_id: String,
    pub endpoint_url: String,
    pub status: String,
    pub message: Option<String>,
}

/// Answer to a data transformation.
#[derive(Debug, Clone)]
pub struct TransformationResponse {
    pub job_id: String,
    pub status: String,
    pub transformations_applied: Option<Vec<String>>,
}

/// Answer to a schema validation.
#[derive(Debug, Clone)]
pub struct ValidationResponse {
    pub valid: bool,
    pub errors: Option<Vec<String>>,
    pub warnings: Option<Vec<String>>,
}

/// A deployed model.
#[derive(Debug, Clone)]
pub struct DeploymentResponse {
    pub deployment_id: String,
    pub model_id: String,
    pub endpoint_url: String,
    pub status: String,
}

/// A dataset.
#[derive(Debug, Clone)]
pub struct DatasetResponse {
    pub dataset_id: String,
    pub name: String,
    pub row_count: Option<u64>,
    pub column_count: Option<u32>,
}

/// Images found in a document.
#[derive(Debug, Clone)]
pub struct ImageExtractionResponse {
    pub images: Vec<String>,
    pub image_count: usize,
}

/// Outcome of validating data against quality rules.
#[derive(Debug, Clone)]
pub struct ValidationResultResponse {
    pub passed: bool,
    pub results: Vec<ValidationResult>,
}

/// Outcome of one quality rule.
#[derive(Debug, Clone)]
pub struct ValidationResult {
    pub rule_id: String,
    pub passed: bool,
    pub error: Option<String>,
}

/// A stored file, as uploaded.
#[derive(Debug, Clone)]
pub struct FileUploadResponse {
    pub file_id: String,
    pub url: String,
    pub size: u64,
}

/// Metadata of a stored file.
#[derive(Debug, Clone)]
pub struct FileMetadata {
    pub file_id: String,
    pub filename: String,
    pub size: u64,
    pub content_type: Option<String>,
    pub uploaded_at: Option<String>,
}

/// Health of the service.
#[derive(Debug, Clone)]
pub struct HealthResponse {
    pub status: String,
    pub version: Option<String>,
    pub components: Option<HashMap<String, String>>,
}

/// An active alert.
#[derive(Debug, Clone)]
pub struct AlertResponse {
    pub alert_id: String,
    pub alert_type: String,
    pub severity: String,
    pub message: String,
    pub timestamp: String,
}

/// The profile of the calling user.
#[derive(Debug, Clone)]
pub struct UserProfile {
    pub user_id: String,
    pub email: String,
    pub name: Option<String>,
    pub created_at: Option<String>,
}

/// An API key of the calling user (never the key itself).
#[derive(Debug, Clone)]
pub struct ApiKeyInfo {
    pub key_id: String,
    pub name: String,
    pub key_prefix: String,
    pub created_at: Option<String>,
    pub last_used_at: Option<String>,
}

/// A user, as administrators see it.
#[derive(Debug, Clone)]
pub struct UserSummary {
    pub user_id: String,
    pub email: String,
    pub status: String,
    pub registered_at: Option<String>,
}

} // verus!
