//! Data quality: assessments, rules, validation.
use vstd::prelude::*;

use crate::client::{join, SchlepClient};
use crate::error::Error;
use crate::request::{object2, Body, BodyView, FieldValue, FieldValueView, Request, Verb};

verus! {

/// Requests of the data quality endpoints.
pub struct QualityClient<'a> {
    client: &'a SchlepClient,
}

impl<'a> QualityClient<'a> {
    /// The client these requests are built with.
    pub closed spec fn client(&self) -> &'a SchlepClient {
        self.client
    }

    /// A facade over `client`.
    pub fn new(client: &'a SchlepClient) -> (r: Self)
        ensures
            r.client() == client,
    {
        QualityClient { client }
    }

    /// Assesses the quality of a job's data: GET `/quality/assess/{job_id}`.
    pub fn assess_quality(&self, job_id: &str) -> (r: Result<Request, Error>)
        ensures
            self.client().builds(r, Verb::Get, "/quality/assess/"@ + job_id@, BodyView::Empty),
    {
        self.client.get(join("/quality/assess/", job_id).as_str())
    }

    /// Creates a quality rule: POST `/quality/rules` with the rule as the body.
    pub fn create_rule(&self, rule: serde_json::Value) -> (r: Result<Request, Error>)
        ensures
            self.client().builds(r, Verb::Post, "/quality/rules"@, BodyView::Json(rule)),
    {
        self.client.post("/quality/rules", Body::Json(rule))
    }

    /// Validates a job's data against rules: POST `/quality/validate` with
    /// `{"job_id": job_id, "rules": rules}`.
    pub fn validate_data(&self, job_id: &str, rules: Vec<String>) -> (r: Result<Request, Error>)
        ensures
            self.client().builds(r, Verb::Post, "/quality/validate"@, BodyView::Object(seq![
                ("job_id"@, FieldValueView::Str(job_id@)),
                ("rules"@, FieldValueView::StrList(rules@.map_values(|s: String| s@))),
            ])),
    {
        let body = object2("job_id", job_id, "rules", FieldValue::StrList(rules));
        self.client.post("/quality/validate", body)
    }
}

} // verus!
