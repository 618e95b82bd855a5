//! Analytics: queries, reports, datasets.
use vstd::prelude::*;

use crate::client::{join, SchlepClient};
use crate::error::Error;
use crate::request::{Body, BodyView, Request, Verb};

verus! {

/// Requests of the analytics endpoints.
pub struct AnalyticsClient<'a> {
    client: &'a SchlepClient,
}

impl<'a> AnalyticsClient<'a> {
    /// The client these requests are built with.
    pub closed spec fn client(&self) -> &'a SchlepClient {
        self.client
    }

    /// A facade over `client`.
    pub fn new(client: &'a SchlepClient) -> (r: Self)
        ensures
            r.client() == client,
    {
        AnalyticsClient { client }
    }

    /// Runs a query: POST `/analytics/query` with the query as the body.
    pub fn execute_query(&self, query: serde_json::Value) -> (r: Result<Request, Error>)
        ensures
            self.client().builds(r, Verb::Post, "/analytics/query"@, BodyView::Json(query)),
    {
        self.client.post("/analytics/query", Body::Json(query))
    }

    /// Creates a report: POST `/analytics/reports` with the configuration as the body.
    pub fn create_report(&self, config: serde_json::Value) -> (r: Result<Request, Error>)
        ensures
            self.client().builds(r, Verb::Post, "/analytics/reports"@, BodyView::Json(config)),
    {
        self.client.post("/analytics/reports", Body::Json(config))
    }

    /// A report: GET `/analytics/reports/{report_id}`.
    pub fn get_report(&self, report_id: &str) -> (r: Result<Request, Error>)
        ensures
            self.client().builds(r, Verb::Get, "/analytics/reports/"@ + report_id@, BodyView::Empty),
    {
        self.client.get(join("/analytics/reports/", report_id).as_str())
    }

    /// Creates a dataset: POST `/analytics/datasets` with the configuration as the body.
    pub fn create_dataset(&self, config: serde_json::Value) -> (r: Result<Request, Error>)
        ensures
            self.client().builds(r, Verb::Post, "/analytics/datasets"@, BodyView::Json(config)),
    {
        self.client.post("/analytics/datasets", Body::Json(config))
    }

    /// A dataset: GET `/analytics/datasets/{dataset_id}`.
    pub fn get_dataset(&self, dataset_id: &str) -> (r: Result<Request, Error>)
        ensures
            self.client().builds(r, Verb::Get, "/analytics/datasets/"@ + dataset_id@, BodyView::Empty),
    {
        self.client.get(join("/analytics/datasets/", dataset_id).as_str())
    }
}

} // verus!
