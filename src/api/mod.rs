//! The platform's resource groups. Each facade borrows the client and builds
//! the requests of one group of endpoints, with fixed paths and verbs.
pub mod admin;
pub mod analytics;
pub mod data;
pub mod document;
pub mod ml;
pub mod monitoring;
pub mod quality;
pub mod storage;
pub mod users;

pub use admin::AdminClient;
pub use analytics::AnalyticsClient;
pub use data::DataClient;
pub use document::DocumentClient;
pub use ml::MLClient;
pub use monitoring::MonitoringClient;
pub use quality::QualityClient;
pub use storage::StorageClient;
pub use users::UsersClient;
