//! The client handle: base address, API key, and the requests built from them.
use vstd::prelude::*;

use crate::api::{
    AdminClient, AnalyticsClient, DataClient, DocumentClient, MLClient, MonitoringClient,
    QualityClient, StorageClient, UsersClient,
};
use crate::error::{Error, ErrorView};
use crate::request::{Body, BodyView, Form, Request, RequestView, Verb, FieldValueView, object1, pairs_view};
use crate::DEFAULT_BASE_URL;

verus! {

#[verifier::external_type_specification]
#[verifier::external_body]
pub struct ExUrl(url::Url);

/// Name of the authentication header.
pub const AUTHORIZATION: &'static str = "authorization";

/// Name of the content-type header.
pub const CONTENT_TYPE: &'static str = "content-type";

/// Media type of every JSON body.
pub const JSON_MEDIA: &'static str = "application/json";

/// What precedes the API key in the authentication header.
pub const BEARER_PREFIX: &'static str = "Bearer ";

/// Message of the error for an empty API key.
pub const EMPTY_KEY: &'static str = "API key cannot be empty";

/// Message of the error for a missing key variable.
pub const MISSING_KEY_VARIABLE: &'static str = "SCHLEP_API_KEY environment variable not set";

/// What precedes the header check's message when the key cannot stand in a header.
pub const INVALID_KEY_PREFIX: &'static str = "Invalid API key format: ";

/// The message of a rejected header value.
pub const HEADER_VALUE_ERROR: &'static str = "failed to parse header value";

/// Whether a character may stand in a header value: its UTF-8 bytes must each
/// be a tab, or at least 32 and not 127 (DEL). Bytes of characters beyond
/// ASCII are all at least 128.
pub open spec fn header_char_ok(c: char) -> bool {
    c == '\t' || (c as u32 >= 32 && c as u32 != 127)
}

/// Whether a text may stand as a header value.
pub open spec fn header_text_ok(s: Seq<char>) -> bool {
    forall|i: int| 0 <= i < s.len() ==> #[trigger] header_char_ok(s[i])
}

/// Relies on reqwest::header::HeaderValue::from_str: it accepts exactly the
/// text whose bytes are all tabs or at least 32 and not 127, and its error
/// displays as "failed to parse header value".
#[verifier::external_body]
fn check_header_value(s: &str) -> (r: Result<(), String>)
    ensures
        r is Ok == header_text_ok(s@),
        r matches Err(m) ==> m@ == HEADER_VALUE_ERROR@,
{
    match reqwest::header::HeaderValue::from_str(s) {
        Ok(_) => Ok(()),
        Err(e) => Err(e.to_string()),
    }
}

/// `s` with every non-overlapping occurrence of `from`, found from left to
/// right, replaced by `to`.
pub open spec fn replace_all(s: Seq<char>, from: Seq<char>, to: Seq<char>) -> Seq<char>
    decreases s.len(),
{
    if s.len() == 0 || from.len() == 0 {
        s
    } else if from.len() <= s.len() && s.subrange(0, from.len() as int) == from {
        to + replace_all(s.subrange(from.len() as int, s.len() as int), from, to)
    } else {
        seq![s[0]] + replace_all(s.subrange(1, s.len() as int), from, to)
    }
}

/// Relies on str::replace: each non-overlapping occurrence of a non-empty
/// pattern, found from left to right, is replaced.
#[verifier::external_body]
fn replace_text(s: &str, from: &str, to: &str) -> (r: String)
    requires
        from@.len() > 0,
    ensures
        r@ == replace_all(s@, from@, to@),
{
    s.replace(from, to)
}

/// Whether `url::Url::parse` accepts the text.
pub uninterp spec fn url_parses(text: Seq<char>) -> bool;

/// Relies on url::Url::parse: whether it succeeds depends on the text alone.
#[verifier::external_body]
fn parse_url(text: &str) -> (r: Result<url::Url, url::ParseError>)
    ensures
        r is Ok == url_parses(text@),
{
    url::Url::parse(text)
}

/// The concatenation of two texts.
pub fn join(a: &str, b: &str) -> (r: String)
    ensures
        r@ == a@ + b@,
{
    let mut r = a.to_string();
    r.append(b);
    r
}

/// The value of the authentication header for `key`.
pub open spec fn bearer(key: Seq<char>) -> Seq<char> {
    BEARER_PREFIX@ + key
}

/// The address of the streaming endpoint for base address `base`: the
/// scheme turned from HTTP(S) into WS(S), then `/stream`.
pub open spec fn stream_address_of(base: Seq<char>) -> Seq<char> {
    replace_all(replace_all(base, "https://"@, "wss://"@), "http://"@, "ws://"@) + "/stream"@
}

/// The error for a key that cannot stand in a header.
pub open spec fn is_key_error(e: Error) -> bool {
    e matches Error::Config(m) && m@ == INVALID_KEY_PREFIX@ + HEADER_VALUE_ERROR@
}

/// The action word of the subscription message.
pub const SUBSCRIBE: &'static str = "subscribe";

/// The first message sent on the streaming channel: subscribe to the events
/// that `events` names (the event types and the filters), authenticated by
/// the client's key.
#[derive(Debug)]
pub struct Subscription {
    pub action: String,
    pub events: serde_json::Value,
    pub api_key: String,
}

/// The abstract value of the outcome of building a request.
pub open spec fn request_outcome(r: Result<Request, Error>) -> Result<RequestView, ErrorView> {
    match r {
        Ok(req) => Ok(req@),
        Err(e) => Err(e@),
    }
}

/// Building the same call twice gives the same request, or the same error:
/// the client keeps no state from one call to the next.
pub proof fn lemma_same_call_same_request(
    c: SchlepClient,
    verb: Verb,
    path: Seq<char>,
    body: BodyView,
    r1: Result<Request, Error>,
    r2: Result<Request, Error>,
)
    requires
        c.builds(r1, verb, path, body),
        c.builds(r2, verb, path, body),
    ensures
        request_outcome(r1) == request_outcome(r2),
{
}

/// The abstract state of a client: its base address and its API key.
pub struct ClientView {
    pub base_url: Seq<char>,
    pub api_key: Seq<char>,
}

/// The handle through which every call to the platform is made. It holds the
/// base address and the API key, never changes after construction, and its
/// key is never empty.
#[derive(Debug, Clone)]
pub struct SchlepClient {
    base_url: String,
    api_key: String,
}

impl View for SchlepClient {
    type V = ClientView;

    closed spec fn view(&self) -> ClientView {
        ClientView { base_url: self.base_url@, api_key: self.api_key@ }
    }
}

impl SchlepClient {
    /// The key is not empty.
    pub open spec fn wf(&self) -> bool {
        self@.api_key.len() > 0
    }

    /// Whether the key can stand in the authentication header.
    pub open spec fn key_usable(&self) -> bool {
        header_text_ok(bearer(self@.api_key))
    }

    /// The headers of a request with a JSON body (or none).
    pub open spec fn json_headers(&self) -> Seq<(Seq<char>, Seq<char>)> {
        seq![(AUTHORIZATION@, bearer(self@.api_key)), (CONTENT_TYPE@, JSON_MEDIA@)]
    }

    /// The headers of a multipart request: the content type is the transport's.
    pub open spec fn auth_headers(&self) -> Seq<(Seq<char>, Seq<char>)> {
        seq![(AUTHORIZATION@, bearer(self@.api_key))]
    }

    /// `r` is the outcome of building a request with this verb, path and
    /// body: the request itself when the key can stand in a header, else the
    /// configuration error for the key.
    pub open spec fn builds(
        &self,
        r: Result<Request, Error>,
        verb: Verb,
        path: Seq<char>,
        body: BodyView,
    ) -> bool {
        if self.key_usable() {
            r matches Ok(req) && req@ == (RequestView {
                verb,
                url: self@.base_url + path,
                headers: if body is Multipart {
                    self.auth_headers()
                } else {
                    self.json_headers()
                },
                body,
            })
        } else {
            r matches Err(e) && is_key_error(e)
        }
    }

    /// A client for the default base address. An empty key is refused with a
    /// configuration error.
    pub fn new(api_key: &str) -> (r: Result<SchlepClient, Error>)
        ensures
            api_key@.len() == 0 ==> (r matches Err(Error::Config(m)) && m@ == EMPTY_KEY@),
            api_key@.len() > 0 ==> (r matches Ok(c) && c.wf() && c@ == (ClientView {
                base_url: DEFAULT_BASE_URL@,
                api_key: api_key@,
            })),
    {
        if api_key.is_empty() {
            return Err(Error::config_error(EMPTY_KEY.to_string()));
        }
        Ok(SchlepClient { base_url: DEFAULT_BASE_URL.to_string(), api_key: api_key.to_string() })
    }

    /// A client from the value of the `SCHLEP_API_KEY` variable, as the
    /// caller read it (`None` when it is not set).
    pub fn from_env(value: Option<&str>) -> (r: Result<SchlepClient, Error>)
        ensures
            match value {
                None => r matches Err(Error::Config(m)) && m@ == MISSING_KEY_VARIABLE@,
                Some(k) => if k@.len() == 0 {
                    r matches Err(Error::Config(m)) && m@ == EMPTY_KEY@
                } else {
                    r matches Ok(c) && c.wf() && c@ == (ClientView {
                        base_url: DEFAULT_BASE_URL@,
                        api_key: k@,
                    })
                },
            },
    {
        match value {
            Some(k) => SchlepClient::new(k),
            None => Err(Error::config_error(MISSING_KEY_VARIABLE.to_string())),
        }
    }

    /// A client for a custom base address. An empty key is refused with a
    /// configuration error.
    pub fn with_base_url(api_key: &str, base_url: &str) -> (r: Result<SchlepClient, Error>)
        ensures
            api_key@.len() == 0 ==> (r matches Err(Error::Config(m)) && m@ == EMPTY_KEY@),
            api_key@.len() > 0 ==> (r matches Ok(c) && c.wf() && c@ == (ClientView {
                base_url: base_url@,
                api_key: api_key@,
            })),
    {
        let mut client = SchlepClient::new(api_key)?;
        client.base_url = base_url.to_string();
        Ok(client)
    }

    /// The authentication header, or the configuration error when the key
    /// cannot stand in a header.
    fn auth_header(&self) -> (r: Result<(String, String), Error>)
        ensures
            self.key_usable() ==> (r matches Ok(h) && h.0@ == AUTHORIZATION@ && h.1@ == bearer(
                self@.api_key,
            )),
            !self.key_usable() ==> (r matches Err(e) && is_key_error(e)),
    {
        let value = join(BEARER_PREFIX, self.api_key.as_str());
        match check_header_value(value.as_str()) {
            Ok(()) => Ok((AUTHORIZATION.to_string(), value)),
            Err(m) => Err(Error::config_error(join(INVALID_KEY_PREFIX, m.as_str()))),
        }
    }

    /// The headers of every request with a JSON body or none: the
    /// authentication header and the JSON content type.
    pub fn default_headers(&self) -> (r: Result<Vec<(String, String)>, Error>)
        ensures
            self.key_usable() ==> (r matches Ok(h) && pairs_view(h@) == self.json_headers()),
            !self.key_usable() ==> (r matches Err(e) && is_key_error(e)),
    {
        let auth = self.auth_header()?;
        let mut headers: Vec<(String, String)> = Vec::new();
        headers.push(auth);
        headers.push((CONTENT_TYPE.to_string(), JSON_MEDIA.to_string()));
        assert(pairs_view(headers@) =~= self.json_headers());
        Ok(headers)
    }

    /// A request with a JSON body (or none) to `path`.
    fn json_request(&self, verb: Verb, path: &str, body: Body) -> (r: Result<Request, Error>)
        requires
            !(body is Multipart),
        ensures
            self.builds(r, verb, path@, body@),
    {
        let headers = self.default_headers()?;
        Ok(Request { verb, url: join(self.base_url.as_str(), path), headers, body })
    }

    /// A GET request to `path`.
    pub fn get(&self, path: &str) -> (r: Result<Request, Error>)
        ensures
            self.builds(r, Verb::Get, path@, BodyView::Empty),
    {
        self.json_request(Verb::Get, path, Body::Empty)
    }

    /// A POST request to `path` with a JSON body.
    pub fn post(&self, path: &str, body: Body) -> (r: Result<Request, Error>)
        requires
            !(body is Multipart),
        ensures
            self.builds(r, Verb::Post, path@, body@),
    {
        self.json_request(Verb::Post, path, body)
    }

    /// A PUT request to `path` with a JSON body.
    pub fn put(&self, path: &str, body: Body) -> (r: Result<Request, Error>)
        requires
            !(body is Multipart),
        ensures
            self.builds(r, Verb::Put, path@, body@),
    {
        self.json_request(Verb::Put, path, body)
    }

    /// A DELETE request to `path`.
    pub fn delete(&self, path: &str) -> (r: Result<Request, Error>)
        ensures
            self.builds(r, Verb::Delete, path@, BodyView::Empty),
    {
        self.json_request(Verb::Delete, path, Body::Empty)
    }

    /// A POST request to `path` with a multipart form. Only the
    /// authentication header is set: the transport writes the content type,
    /// with its boundary.
    pub fn post_multipart(&self, path: &str, form: Form) -> (r: Result<Request, Error>)
        ensures
            self.builds(r, Verb::Post, path@, BodyView::Multipart(form@)),
    {
        let auth = self.auth_header()?;
        let mut headers: Vec<(String, String)> = Vec::new();
        headers.push(auth);
        assert(pairs_view(headers@) =~= self.auth_headers());
        Ok(Request { verb: Verb::Post, url: join(self.base_url.as_str(), path), headers, body: Body::Multipart(form) })
    }

    /// A GET request to `path` whose answer is read as raw bytes (see
    /// `handle_download`).
    pub fn download(&self, path: &str) -> (r: Result<Request, Error>)
        ensures
            self.builds(r, Verb::Get, path@, BodyView::Empty),
    {
        self.json_request(Verb::Get, path, Body::Empty)
    }

    /// Uploads `data` for processing: POST `/upload` with `{"data": data}`.
    pub fn upload(&self, data: &str) -> (r: Result<Request, Error>)
        ensures
            self.builds(r, Verb::Post, "/upload"@, BodyView::Object(seq![("data"@, FieldValueView::Str(data@))])),
    {
        self.post("/upload", object1("data", data))
    }

    /// Trains a model: POST `/train` with the configuration as the body.
    pub fn train(&self, config: serde_json::Value) -> (r: Result<Request, Error>)
        ensures
            self.builds(r, Verb::Post, "/train"@, BodyView::Json(config)),
    {
        self.post("/train", Body::Json(config))
    }

    /// Deploys a trained model: POST `/deploy` with `{"model_id": model_id}`.
    pub fn deploy(&self, model_id: &str) -> (r: Result<Request, Error>)
        ensures
            self.builds(r, Verb::Post, "/deploy"@, BodyView::Object(seq![("model_id"@, FieldValueView::Str(model_id@))])),
    {
        self.post("/deploy", object1("model_id", model_id))
    }

    /// The status of a job: GET `/status/{job_id}`.
    pub fn status(&self, job_id: &str) -> (r: Result<Request, Error>)
        ensures
            self.builds(r, Verb::Get, "/status/"@ + job_id@, BodyView::Empty),
    {
        self.get(join("/status/", job_id).as_str())
    }

    /// The address of the streaming endpoint.
    pub fn stream_address(&self) -> (r: String)
        ensures
            r@ == stream_address_of(self@.base_url),
    {
        proof {
            reveal_strlit("https://");
            reveal_strlit("http://");
        }
        let wss = replace_text(self.base_url.as_str(), "https://", "wss://");
        let ws = replace_text(wss.as_str(), "http://", "ws://");
        join(ws.as_str(), "/stream")
    }

    /// The subscription message for the events that `events` names.
    pub fn subscription(&self, events: serde_json::Value) -> (r: Subscription)
        ensures
            r.action@ == SUBSCRIBE@,
            r.events == events,
            r.api_key@ == self@.api_key,
    {
        Subscription { action: SUBSCRIBE.to_string(), events, api_key: self.api_key.clone() }
    }

    /// The parsed address of the streaming endpoint, or the parse error.
    pub fn stream_url(&self) -> (r: Result<url::Url, Error>)
        ensures
            r is Ok == url_parses(stream_address_of(self@.base_url)),
            r matches Err(e) ==> e is UrlParse,
    {
        let address = self.stream_address();
        match parse_url(address.as_str()) {
            Ok(u) => Ok(u),
            Err(e) => Err(Error::UrlParse(e)),
        }
    }

    /// The facade of the data processing endpoints.
    pub fn data(&self) -> (r: DataClient<'_>)
        ensures
            r.client() == self,
    {
        DataClient::new(self)
    }

    /// The facade of the ML pipeline endpoints.
    pub fn ml(&self) -> (r: MLClient<'_>)
        ensures
            r.client() == self,
    {
        MLClient::new(self)
    }

    /// The facade of the analytics endpoints.
    pub fn analytics(&self) -> (r: AnalyticsClient<'_>)
        ensures
            r.client() == self,
    {
        AnalyticsClient::new(self)
    }

    /// The facade of the document extraction endpoints.
    pub fn document(&self) -> (r: DocumentClient<'_>)
        ensures
            r.client() == self,
    {
        DocumentClient::new(self)
    }

    /// The facade of the data quality endpoints.
    pub fn quality(&self) -> (r: QualityClient<'_>)
        ensures
            r.client() == self,
    {
        QualityClient::new(self)
    }

    /// The facade of the storage endpoints.
    pub fn storage(&self) -> (r: StorageClient<'_>)
        ensures
            r.client() == self,
    {
        StorageClient::new(self)
    }

    /// The facade of the monitoring endpoints.
    pub fn monitoring(&self) -> (r: MonitoringClient<'_>)
        ensures
            r.client() == self,
    {
        MonitoringClient::new(self)
    }

    /// The facade of the user endpoints.
    pub fn users(&self) -> (r: UsersClient<'_>)
        ensures
            r.client() == self,
    {
        UsersClient::new(self)
    }

    /// The facade of the administration endpoints.
    pub fn admin(&self) -> (r: AdminClient<'_>)
        ensures
            r.client() == self,
    {
        AdminClient::new(self)
    }
}

} // verus!
