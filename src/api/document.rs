//! Document extraction: text, tables, images, OCR.
use vstd::prelude::*;

use crate::client::SchlepClient;
use crate::error::Error;
use crate::request::{file_form, no_texts, one_text, upload_form, BodyView, Request, Verb};

verus! {

/// Requests of the document extraction endpoints.
pub struct DocumentClient<'a> {
    client: &'a SchlepClient,
}

impl<'a> DocumentClient<'a> {
    /// The client these requests are built with.
    pub closed spec fn client(&self) -> &'a SchlepClient {
        self.client
    }

    /// A facade over `client`.
    pub fn new(client: &'a SchlepClient) -> (r: Self)
        ensures
            r.client() == client,
    {
        DocumentClient { client }
    }

    /// Extracts the text of a document of the given format: a multipart POST
    /// to `/document/extract/text` with the file as `document` and a
    /// `format` field.
    pub fn extract_text(&self, file: &[u8], format: &str) -> (r: Result<Request, Error>)
        ensures
            self.client().builds(r, Verb::Post, "/document/extract/text"@, BodyView::Multipart(
                upload_form(file@, "document"@, seq![("format"@, format@)]),
            )),
    {
        let form = file_form(file, "document", one_text("format", format));
        self.client.post_multipart("/document/extract/text", form)
    }

    /// Extracts the tables of a document: a multipart POST to
    /// `/document/extract/tables` with the file as `document`.
    pub fn extract_tables(&self, file: &[u8]) -> (r: Result<Request, Error>)
        ensures
            self.client().builds(r, Verb::Post, "/document/extract/tables"@, BodyView::Multipart(
                upload_form(file@, "document"@, Seq::empty()),
            )),
    {
        let form = file_form(file, "document", no_texts());
        self.client.post_multipart("/document/extract/tables", form)
    }

    /// Extracts the images of a document: a multipart POST to
    /// `/document/extract/images` with the file as `document`.
    pub fn extract_images(&self, file: &[u8]) -> (r: Result<Request, Error>)
        ensures
            self.client().builds(r, Verb::Post, "/document/extract/images"@, BodyView::Multipart(
                upload_form(file@, "document"@, Seq::empty()),
            )),
    {
        let form = file_form(file, "document", no_texts());
        self.client.post_multipart("/document/extract/images", form)
    }

    /// Recognises the text of a document or image: a multipart POST to
    /// `/document/ocr` with the file as `image` and, when given, a
    /// `language` field.
    pub fn ocr(&self, file: &[u8], language: Option<&str>) -> (r: Result<Request, Error>)
        ensures
            self.client().builds(r, Verb::Post, "/document/ocr"@, BodyView::Multipart(
                upload_form(file@, "image"@, match language {
                    Some(l) => seq![("language"@, l@)],
                    None => Seq::empty(),
                }),
            )),
    {
        let texts = match language {
            Some(l) => one_text("language", l),
            None => no_texts(),
        };
        let form = file_form(file, "image", texts);
        self.client.post_multipart("/document/ocr", form)
    }
}

} // verus!
