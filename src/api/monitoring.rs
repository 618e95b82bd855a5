//! Monitoring: metrics, health, alerts.
use vstd::prelude::*;

use crate::client::SchlepClient;
use crate::error::Error;
use crate::request::{Body, BodyView, Request, Verb};

verus! {

/// Requests of the monitoring endpoints.
pub struct MonitoringClient<'a> {
    client: &'a SchlepClient,
}

impl<'a> MonitoringClient<'a> {
    /// The client these requests are built with.
    pub closed spec fn client(&self) -> &'a SchlepClient {
        self.client
    }

    /// A facade over `client`.
    pub fn new(client: &'a SchlepClient) -> (r: Self)
        ensures
            r.client() == client,
    {
        MonitoringClient { client }
    }

    /// System metrics: POST `/monitoring/metrics` with the query parameters as the body.
    pub fn get_metrics(&self, params: serde_json::Value) -> (r: Result<Request, Error>)
        ensures
            self.client().builds(r, Verb::Post, "/monitoring/metrics"@, BodyView::Json(params)),
    {
        self.client.post("/monitoring/metrics", Body::Json(params))
    }

    /// Health of the service: GET `/monitoring/health`.
    pub fn get_health(&self) -> (r: Result<Request, Error>)
        ensures
            self.client().builds(r, Verb::Get, "/monitoring/health"@, BodyView::Empty),
    {
        self.client.get("/monitoring/health")
    }

    /// Active alerts: GET `/monitoring/alerts`.
    pub fn list_alerts(&self) -> (r: Result<Request, Error>)
        ensures
            self.client().builds(r, Verb::Get, "/monitoring/alerts"@, BodyView::Empty),
    {
        self.client.get("/monitoring/alerts")
    }
}

} // verus!
