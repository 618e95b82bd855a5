//! Users: the caller's profile and API keys.
use vstd::prelude::*;

use crate::client::{join, SchlepClient};
use crate::error::Error;
use crate::request::{object1, Body, BodyView, FieldValueView, Request, Verb};

verus! {

/// Requests of the user endpoints.
pub struct UsersClient<'a> {
    client: &'a SchlepClient,
}

impl<'a> UsersClient<'a> {
    /// The client these requests are built with.
    pub closed spec fn client(&self) -> &'a SchlepClient {
        self.client
    }

    /// A facade over `client`.
    pub fn new(client: &'a SchlepClient) -> (r: Self)
        ensures
            r.client() == client,
    {
        UsersClient { client }
    }

    /// The caller's profile: GET `/users/profile`.
    pub fn get_profile(&self) -> (r: Result<Request, Error>)
        ensures
            self.client().builds(r, Verb::Get, "/users/profile"@, BodyView::Empty),
    {
        self.client.get("/users/profile")
    }

    /// Updates the caller's profile: PUT `/users/profile` with the updates as the body.
    pub fn update_profile(&self, updates: serde_json::Value) -> (r: Result<Request, Error>)
        ensures
            self.client().builds(r, Verb::Put, "/users/profile"@, BodyView::Json(updates)),
    {
        self.client.put("/users/profile", Body::Json(updates))
    }

    /// The caller's API keys: GET `/users/api-keys`.
    pub fn list_api_keys(&self) -> (r: Result<Request, Error>)
        ensures
            self.client().builds(r, Verb::Get, "/users/api-keys"@, BodyView::Empty),
    {
        self.client.get("/users/api-keys")
    }

    /// Creates an API key: POST `/users/api-keys` with `{"name": name}`.
    pub fn create_api_key(&self, name: &str) -> (r: Result<Request, Error>)
        ensures
            self.client().builds(r, Verb::Post, "/users/api-keys"@, BodyView::Object(seq![
                ("name"@, FieldValueView::Str(name@)),
            ])),
    {
        self.client.post("/users/api-keys", object1("name", name))
    }

    /// Revokes an API key: DELETE `/users/api-keys/{key_id}`. Whatever JSON
    /// the server answers with is discarded.
    pub fn revoke_api_key(&self, key_id: &str) -> (r: Result<Request, Error>)
        ensures
            self.client().builds(r, Verb::Delete, "/users/api-keys/"@ + key_id@, BodyView::Empty),
    {
        self.client.delete(join("/users/api-keys/", key_id).as_str())
    }
}

} // verus!
