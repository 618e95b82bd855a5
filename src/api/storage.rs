//! Storage: upload, download, listing and deletion of files.
use vstd::prelude::*;

use crate::client::{join, SchlepClient};
use crate::error::Error;
use crate::query::{list_path, list_path_of};
use crate::request::{file_form, no_texts, upload_form, BodyView, Request, Verb};
use crate::types::ListParams;

verus! {

/// Requests of the storage endpoints.
pub struct StorageClient<'a> {
    client: &'a SchlepClient,
}

impl<'a> StorageClient<'a> {
    /// The client these requests are built with.
    pub closed spec fn client(&self) -> &'a SchlepClient {
        self.client
    }

    /// A facade over `client`.
    pub fn new(client: &'a SchlepClient) -> (r: Self)
        ensures
            r.client() == client,
    {
        StorageClient { client }
    }

    /// Stores a file: a multipart POST to `/storage/upload` with the file
    /// under the given name.
    pub fn upload_file(&self, file: &[u8], filename: &str) -> (r: Result<Request, Error>)
        ensures
            self.client().builds(r, Verb::Post, "/storage/upload"@, BodyView::Multipart(
                upload_form(file@, filename@, Seq::empty()),
            )),
    {
        let form = file_form(file, filename, no_texts());
        self.client.post_multipart("/storage/upload", form)
    }

    /// Downloads a file as raw bytes: GET `/storage/files/{file_id}/download`.
    pub fn download_file(&self, file_id: &str) -> (r: Result<Request, Error>)
        ensures
            self.client().builds(r, Verb::Get, "/storage/files/"@ + file_id@ + "/download"@, BodyView::Empty),
    {
        let path = join(join("/storage/files/", file_id).as_str(), "/download");
        self.client.download(path.as_str())
    }

    /// The stored files: GET `/storage/files` with the list parameters.
    pub fn list_files(&self, params: Option<ListParams>) -> (r: Result<Request, Error>)
        ensures
            self.client().builds(r, Verb::Get, list_path_of("/storage/files"@, params), BodyView::Empty),
    {
        self.client.get(list_path("/storage/files", params).as_str())
    }

    /// Deletes a file: DELETE `/storage/files/{file_id}`. Whatever JSON the
    /// server answers with is discarded.
    pub fn delete_file(&self, file_id: &str) -> (r: Result<Request, Error>)
        ensures
            self.client().builds(r, Verb::Delete, "/storage/files/"@ + file_id@, BodyView::Empty),
    {
        self.client.delete(join("/storage/files/", file_id).as_str())
    }
}

} // verus!
