//! Machine learning pipelines: creation, training, deployment, prediction.
use vstd::prelude::*;

use crate::client::{join, SchlepClient};
use crate::error::Error;
use crate::query::{list_path, list_path_of};
use crate::request::{object2, Body, BodyView, FieldValue, FieldValueView, Request, Verb};
use crate::types::ListParams;

verus! {

/// The deployment configuration sent: the one given, else `{}`.
pub open spec fn config_or_empty(config: Option<serde_json::Value>) -> FieldValueView {
    match config {
        Some(c) => FieldValueView::Json(c),
        None => FieldValueView::EmptyObject,
    }
}

/// Requests of the ML pipeline endpoints.
pub struct MLClient<'a> {
    client: &'a SchlepClient,
}

impl<'a> MLClient<'a> {
    /// The client these requests are built with.
    pub closed spec fn client(&self) -> &'a SchlepClient {
        self.client
    }

    /// A facade over `client`.
    pub fn new(client: &'a SchlepClient) -> (r: Self)
        ensures
            r.client() == client,
    {
        MLClient { client }
    }

    /// Creates a pipeline: POST `/ml/pipelines` with the configuration as the body.
    pub fn create_pipeline(&self, config: serde_json::Value) -> (r: Result<Request, Error>)
        ensures
            self.client().builds(r, Verb::Post, "/ml/pipelines"@, BodyView::Json(config)),
    {
        self.client.post("/ml/pipelines", Body::Json(config))
    }

    /// A pipeline: GET `/ml/pipelines/{pipeline_id}`.
    pub fn get_pipeline(&self, pipeline_id: &str) -> (r: Result<Request, Error>)
        ensures
            self.client().builds(r, Verb::Get, "/ml/pipelines/"@ + pipeline_id@, BodyView::Empty),
    {
        self.client.get(join("/ml/pipelines/", pipeline_id).as_str())
    }

    /// The pipelines: GET `/ml/pipelines` with the list parameters.
    pub fn list_pipelines(&self, params: Option<ListParams>) -> (r: Result<Request, Error>)
        ensures
            self.client().builds(r, Verb::Get, list_path_of("/ml/pipelines"@, params), BodyView::Empty),
    {
        self.client.get(list_path("/ml/pipelines", params).as_str())
    }

    /// Trains a pipeline: POST `/ml/train` with
    /// `{"pipeline_id": pipeline_id, "config": config}`.
    pub fn train_pipeline(&self, pipeline_id: &str, config: serde_json::Value) -> (r: Result<Request, Error>)
        ensures
            self.client().builds(r, Verb::Post, "/ml/train"@, BodyView::Object(seq![
                ("pipeline_id"@, FieldValueView::Str(pipeline_id@)),
                ("config"@, FieldValueView::Json(config)),
            ])),
    {
        let body = object2("pipeline_id", pipeline_id, "config", FieldValue::Json(config));
        self.client.post("/ml/train", body)
    }

    /// A training job: GET `/ml/training/{job_id}`.
    pub fn get_training_job(&self, job_id: &str) -> (r: Result<Request, Error>)
        ensures
            self.client().builds(r, Verb::Get, "/ml/training/"@ + job_id@, BodyView::Empty),
    {
        self.client.get(join("/ml/training/", job_id).as_str())
    }

    /// Deploys a model: POST `/ml/deploy` with
    /// `{"model_id": model_id, "config": config}`, the configuration being
    /// `{}` when none is given.
    pub fn deploy_model(&self, model_id: &str, config: Option<serde_json::Value>) -> (r: Result<Request, Error>)
        ensures
            self.client().builds(r, Verb::Post, "/ml/deploy"@, BodyView::Object(seq![
                ("model_id"@, FieldValueView::Str(model_id@)),
                ("config"@, config_or_empty(config)),
            ])),
    {
        let value = match config {
            Some(c) => FieldValue::Json(c),
            None => FieldValue::EmptyObject,
        };
        let body = object2("model_id", model_id, "config", value);
        self.client.post("/ml/deploy", body)
    }

    /// Predicts with a deployed model: POST `/ml/predict` with
    /// `{"endpoint": endpoint, "data": data}`.
    pub fn predict(&self, endpoint: &str, data: serde_json::Value) -> (r: Result<Request, Error>)
        ensures
            self.client().builds(r, Verb::Post, "/ml/predict"@, BodyView::Object(seq![
                ("endpoint"@, FieldValueView::Str(endpoint@)),
                ("data"@, FieldValueView::Json(data)),
            ])),
    {
        let body = object2("endpoint", endpoint, "data", FieldValue::Json(data));
        self.client.post("/ml/predict", body)
    }
}

} // verus!
