//! Data processing: file processing, transformations, schema validation, jobs.
use vstd::prelude::*;

use crate::client::{join, SchlepClient};
use crate::error::Error;
use crate::query::{list_path, list_path_of};
use crate::request::{
    file_form, object2, one_text, upload_form, BodyView, FieldValue, FieldValueView, Request,
    Verb,
};
use crate::types::ListParams;

verus! {

/// Requests of the data processing endpoints.
pub struct DataClient<'a> {
    client: &'a SchlepClient,
}

impl<'a> DataClient<'a> {
    /// The client these requests are built with.
    pub closed spec fn client(&self) -> &'a SchlepClient {
        self.client
    }

    /// A facade over `client`.
    pub fn new(client: &'a SchlepClient) -> (r: Self)
        ensures
            r.client() == client,
    {
        DataClient { client }
    }

    /// Processes a data file of the given format (`csv`, `json`, ...): a
    /// multipart POST to `/data/process` with the file as `upload` and a
    /// `format` field.
    pub fn process_file(&self, file: &[u8], format: &str) -> (r: Result<Request, Error>)
        ensures
            self.client().builds(r, Verb::Post, "/data/process"@, BodyView::Multipart(
                upload_form(file@, "upload"@, seq![("format"@, format@)]),
            )),
    {
        let form = file_form(file, "upload", one_text("format", format));
        self.client.post_multipart("/data/process", form)
    }

    /// Applies transformations to processed data: POST `/data/transform`
    /// with `{"job_id": job_id, "transformations": transformations}`.
    pub fn transform_data(&self, job_id: &str, transformations: serde_json::Value) -> (r: Result<Request, Error>)
        ensures
            self.client().builds(r, Verb::Post, "/data/transform"@, BodyView::Object(seq![
                ("job_id"@, FieldValueView::Str(job_id@)),
                ("transformations"@, FieldValueView::Json(transformations)),
            ])),
    {
        let body = object2("job_id", job_id, "transformations", FieldValue::Json(transformations));
        self.client.post("/data/transform", body)
    }

    /// Validates data against a schema: POST `/data/validate` with
    /// `{"job_id": job_id, "schema": schema}`.
    pub fn validate_schema(&self, job_id: &str, schema: serde_json::Value) -> (r: Result<Request, Error>)
        ensures
            self.client().builds(r, Verb::Post, "/data/validate"@, BodyView::Object(seq![
                ("job_id"@, FieldValueView::Str(job_id@)),
                ("schema"@, FieldValueView::Json(schema)),
            ])),
    {
        let body = object2("job_id", job_id, "schema", FieldValue::Json(schema));
        self.client.post("/data/validate", body)
    }

    /// A processing job: GET `/data/jobs/{job_id}`.
    pub fn get_job(&self, job_id: &str) -> (r: Result<Request, Error>)
        ensures
            self.client().builds(r, Verb::Get, "/data/jobs/"@ + job_id@, BodyView::Empty),
    {
        self.client.get(join("/data/jobs/", job_id).as_str())
    }

    /// The processing jobs: GET `/data/jobs` with the list parameters.
    pub fn list_jobs(&self, params: Option<ListParams>) -> (r: Result<Request, Error>)
        ensures
            self.client().builds(r, Verb::Get, list_path_of("/data/jobs"@, params), BodyView::Empty),
    {
        self.client.get(list_path("/data/jobs", params).as_str())
    }
}

} // verus!
