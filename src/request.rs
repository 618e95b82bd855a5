//! Descriptions of the requests that the client sends.
//!
//! A request is described, not sent: verb, full address, headers and body.
//! Whoever performs the exchange turns the description into bytes on the wire.
use vstd::prelude::*;

verus! {

#[verifier::external_type_specification]
#[verifier::external_body]
pub struct ExJsonValue(serde_json::Value);

/// The HTTP verbs the platform's API uses.
#[derive(Debug, Clone, Copy, PartialEq, Eq, Structural)]
pub enum Verb {
    Get,
    Post,
    Put,
    Delete,
}

/// The value of one member of a JSON object body.
#[derive(Debug)]
pub enum FieldValue {
    /// A JSON string.
    Str(String),
    /// A JSON array of strings.
    StrList(Vec<String>),
    /// A JSON value supplied by the caller, sent as it is.
    Json(serde_json::Value),
    /// The empty JSON object `{}`.
    EmptyObject,
}

/// The file part of a multipart form.
#[derive(Debug)]
pub struct FilePart {
    /// Form field name of the part.
    pub name: String,
    /// Contents of the file.
    pub bytes: Vec<u8>,
    /// File name announced for the part.
    pub file_name: String,
    /// Media type announced for the part.
    pub mime: String,
}

/// A multipart form: one file part and text fields, in order.
#[derive(Debug)]
pub struct Form {
    pub file: FilePart,
    pub texts: Vec<(String, String)>,
}

/// The body of a request.
#[derive(Debug)]
pub enum Body {
    /// No body.
    Empty,
    /// A JSON value supplied by the caller, sent as it is.
    Json(serde_json::Value),
    /// A JSON object with these members, in order.
    Object(Vec<(String, FieldValue)>),
    /// A multipart form; its content type (with the boundary) is left to the transport.
    Multipart(Form),
}

/// One request to the platform.
#[derive(Debug)]
pub struct Request {
    pub verb: Verb,
    /// Full address: the client's base address followed by the path.
    pub url: String,
    /// Header names (lower case) and values, in order.
    pub headers: Vec<(String, String)>,
    pub body: Body,
}

pub enum FieldValueView {
    Str(Seq<char>),
    StrList(Seq<Seq<char>>),
    Json(serde_json::Value),
    EmptyObject,
}

pub struct FormView {
    pub name: Seq<char>,
    pub bytes: Seq<u8>,
    pub file_name: Seq<char>,
    pub mime: Seq<char>,
    pub texts: Seq<(Seq<char>, Seq<char>)>,
}

pub enum BodyView {
    Empty,
    Json(serde_json::Value),
    Object(Seq<(Seq<char>, FieldValueView)>),
    Multipart(FormView),
}

pub struct RequestView {
    pub verb: Verb,
    pub url: Seq<char>,
    pub headers: Seq<(Seq<char>, Seq<char>)>,
    pub body: BodyView,
}

/// The view of a list of string pairs.
pub open spec fn pairs_view(v: Seq<(String, String)>) -> Seq<(Seq<char>, Seq<char>)> {
    v.map_values(|p: (String, String)| (p.0@, p.1@))
}

impl View for FieldValue {
    type V = FieldValueView;

    open spec fn view(&self) -> FieldValueView {
        match self {
            FieldValue::Str(s) => FieldValueView::Str(s@),
            FieldValue::StrList(l) => FieldValueView::StrList(l@.map_values(|s: String| s@)),
            FieldValue::Json(v) => FieldValueView::Json(*v),
            FieldValue::EmptyObject => FieldValueView::EmptyObject,
        }
    }
}

impl View for Form {
    type V = FormView;

    open spec fn view(&self) -> FormView {
        FormView {
            name: self.file.name@,
            bytes: self.file.bytes@,
            file_name: self.file.file_name@,
            mime: self.file.mime@,
            texts: pairs_view(self.texts@),
        }
    }
}

impl View for Body {
    type V = BodyView;

    open spec fn view(&self) -> BodyView {
        match self {
            Body::Empty => BodyView::Empty,
            Body::Json(v) => BodyView::Json(*v),
            Body::Object(fields) => BodyView::Object(
                fields@.map_values(|f: (String, FieldValue)| (f.0@, f.1@)),
            ),
            Body::Multipart(form) => BodyView::Multipart(form@),
        }
    }
}

impl View for Request {
    type V = RequestView;

    open spec fn view(&self) -> RequestView {
        RequestView {
            verb: self.verb,
            url: self.url@,
            headers: pairs_view(self.headers@),
            body: self.body@,
        }
    }
}

/// A pair of strings, both copied.
pub fn pair(a: &str, b: &str) -> (r: (String, String))
    ensures
        r.0@ == a@,
        r.1@ == b@,
{
    (a.to_string(), b.to_string())
}

/// A JSON object body with one string member.
pub fn object1(key: &str, value: &str) -> (r: Body)
    ensures
        r@ == BodyView::Object(seq![(key@, FieldValueView::Str(value@))]),
{
    let mut fields: Vec<(String, FieldValue)> = Vec::new();
    fields.push((key.to_string(), FieldValue::Str(value.to_string())));
    let r = Body::Object(fields);
    assert(r@ == BodyView::Object(seq![(key@, FieldValueView::Str(value@))])) by {
        assert(fields@.map_values(|f: (String, FieldValue)| (f.0@, f.1@)) =~= seq![(key@, FieldValueView::Str(value@))]);
    }
    r
}

/// A JSON object body with a string member followed by a member of any kind.
pub fn object2(key1: &str, value1: &str, key2: &str, value2: FieldValue) -> (r: Body)
    ensures
        r@ == BodyView::Object(seq![(key1@, FieldValueView::Str(value1@)), (key2@, value2@)]),
{
    let mut fields: Vec<(String, FieldValue)> = Vec::new();
    fields.push((key1.to_string(), FieldValue::Str(value1.to_string())));
    let ghost v2 = value2@;
    fields.push((key2.to_string(), value2));
    let r = Body::Object(fields);
    assert(fields@.map_values(|f: (String, FieldValue)| (f.0@, f.1@)) =~= seq![(key1@, FieldValueView::Str(value1@)), (key2@, v2)]);
    r
}

/// A multipart form of one file part under the field name `file`, sent as
/// `application/octet-stream`, and the given text fields.
pub fn file_form(bytes: &[u8], file_name: &str, texts: Vec<(String, String)>) -> (r: Form)
    ensures
        r@ == upload_form(bytes@, file_name@, pairs_view(texts@)),
{
    Form {
        file: FilePart {
            name: FILE_FIELD.to_string(),
            bytes: vstd::slice::slice_to_vec(bytes),
            file_name: file_name.to_string(),
            mime: OCTET_STREAM.to_string(),
        },
        texts,
    }
}

/// The view of an upload form of one file under the field name `file`, sent
/// as `application/octet-stream`.
pub open spec fn upload_form(
    bytes: Seq<u8>,
    file_name: Seq<char>,
    texts: Seq<(Seq<char>, Seq<char>)>,
) -> FormView {
    FormView { name: FILE_FIELD@, bytes, file_name, mime: OCTET_STREAM@, texts }
}

/// A list of text fields holding the one pair `(key, value)`.
pub fn one_text(key: &str, value: &str) -> (r: Vec<(String, String)>)
    ensures
        pairs_view(r@) == seq![(key@, value@)],
{
    let mut r: Vec<(String, String)> = Vec::new();
    r.push(pair(key, value));
    assert(pairs_view(r@) =~= seq![(key@, value@)]);
    r
}

/// An empty list of text fields.
pub fn no_texts() -> (r: Vec<(String, String)>)
    ensures
        pairs_view(r@) == Seq::<(Seq<char>, Seq<char>)>::empty(),
{
    let r: Vec<(String, String)> = Vec::new();
    assert(pairs_view(r@) =~= Seq::<(Seq<char>, Seq<char>)>::empty());
    r
}

/// Form field name of the file part of every upload.
pub const FILE_FIELD: &'static str = "file";

/// Media type announced for every uploaded file.
pub const OCTET_STREAM: &'static str = "application/octet-stream";

} // verus!
