//! Administration: users and system statistics.
use vstd::prelude::*;

use crate::client::SchlepClient;
use crate::error::Error;
use crate::query::{list_path, list_path_of};
use crate::request::{BodyView, Request, Verb};
use crate::types::ListParams;

verus! {

/// Requests of the administration endpoints.
pub struct AdminClient<'a> {
    client: &'a SchlepClient,
}

impl<'a> AdminClient<'a> {
    /// The client these requests are built with.
    pub closed spec fn client(&self) -> &'a SchlepClient {
        self.client
    }

    /// A facade over `client`.
    pub fn new(client: &'a SchlepClient) -> (r: Self)
        ensures
            r.client() == client,
    {
        AdminClient { client }
    }

    /// All users: GET `/admin/users` with the list parameters.
    pub fn list_users(&self, params: Option<ListParams>) -> (r: Result<Request, Error>)
        ensures
            self.client().builds(r, Verb::Get, list_path_of("/admin/users"@, params), BodyView::Empty),
    {
        self.client.get(list_path("/admin/users", params).as_str())
    }

    /// System statistics: GET `/admin/stats`.
    pub fn get_system_stats(&self) -> (r: Result<Request, Error>)
        ensures
            self.client().builds(r, Verb::Get, "/admin/stats"@, BodyView::Empty),
    {
        self.client.get("/admin/stats")
    }
}

} // verus!
