//! A verified client-side protocol layer for the Telegram Bot API: typed
//! request descriptions are rendered to structured values, framed as JSON
//! or multipart bodies, and the uniform response envelope is collapsed to
//! one typed outcome per call. The contracts pin the encoding decision,
//! the body bytes, and the envelope handling; network transport lives
//! outside the library.

use vstd::prelude::*;
use vstd::string::{StrSliceExecFns, StringExecFns};

pub mod error;
pub mod files;
pub mod json;
pub mod requests;
pub mod types;

use crate::files::{FilePart, FilePartModel};
use crate::json::{json_bytes, to_json_bytes, JsonModel, JsonValue};

verus! {

/// The default base endpoint of the Telegram Bot API, used when no
/// override is supplied at construction time.
pub const API_ENDPOINT: &'static str = "https://api.telegram.org/";

/// The contract every request type satisfies to be dispatchable: it names
/// its endpoint, renders itself as a structured value (optional fields
/// absent rather than null), and lists the binary parts that its by-bytes
/// file references require.
///
/// When `files` returns `None` the dispatcher sends the structured value
/// as a JSON body; when it returns a list of parts the dispatcher builds a
/// flat multipart form instead, with one text field per structured-body
/// entry and one binary part per listed file.
pub trait TelegramRequest {
    /// The endpoint name, as the target URL carries it.
    spec fn spec_endpoint(&self) -> Seq<char>;

    /// The structured body: what the rendered request looks like.
    spec fn spec_values(&self) -> JsonModel;

    /// The named binary parts this request must upload, or `None` when no
    /// field carries raw bytes.
    spec fn spec_files(&self) -> Option<Seq<(Seq<char>, FilePartModel)>>;

    /// The endpoint to send this request to.
    fn endpoint(&self) -> (e: &str)
        ensures
            e@ == self.spec_endpoint(),
    ;

    /// The structured rendering of this request's fields.
    fn values(&self) -> (v: JsonValue)
        ensures
            v.deep_view() == self.spec_values(),
    ;

    /// The named binary parts to upload with this request.
    fn files(&self) -> (f: Option<Vec<(String, FilePart)>>)
        ensures
            f.deep_view() == self.spec_files(),
    ;
}

/// An encoded request body, ready for the wire: either a JSON document or
/// a flat multipart form.
#[derive(Debug, PartialEq)]
pub enum Payload {
    /// The structured body rendered as compact JSON, the whole POST body.
    Json(Vec<u8>),
    /// A multipart form: one text field per structured-body entry, then
    /// one named binary part per by-bytes file reference.
    Multipart { fields: Vec<(String, Vec<u8>)>, parts: Vec<(String, FilePart)> },
}

/// The text form a structured-body entry takes inside a multipart form:
/// a string value passes through as its own characters; every other value
/// is rendered as compact JSON.
pub open spec fn field_text(m: JsonModel) -> Seq<u8> {
    match m {
        JsonModel::Text(s) => vstd::utf8::encode_utf8(s),
        _ => json_bytes(m),
    }
}

/// The flat text fields of a multipart form for the structured body `v`:
/// one per entry when `v` is an object, none otherwise.
pub open spec fn form_fields(v: JsonModel) -> Seq<(Seq<char>, Seq<u8>)> {
    match v {
        JsonModel::Object(entries) => Seq::new(
            entries.len(),
            |i: int|
                if 0 <= i < entries.len() {
                    (entries[i].0, field_text(entries[i].1))
                } else {
                    (Seq::empty(), Seq::empty())
                },
        ),
        _ => Seq::empty(),
    }
}

/// Chooses the encoding for a request and builds its body: a JSON body
/// exactly when the request has no by-bytes fields, and otherwise a
/// multipart form holding one text field per structured-body entry and
/// the request's binary parts, in their given order.
#[verifier::loop_isolation(false)]
pub fn encode_request<T: TelegramRequest>(request: &T) -> (p: Payload)
    ensures
        request.spec_files() is None ==> (p matches Payload::Json(body) && body@ == json_bytes(
            request.spec_values(),
        )),
        request.spec_files() matches Some(fparts) ==> (p matches Payload::Multipart {
            fields,
            parts,
        } && parts.deep_view() == fparts && fields.deep_view() == form_fields(
            request.spec_values(),
        )),
{
    let values = request.values();
    match request.files() {
        None => Payload::Json(to_json_bytes(&values)),
        Some(parts) => {
            let ghost vm = values.deep_view();
            let mut fields: Vec<(String, Vec<u8>)> = Vec::new();
            match &values {
                JsonValue::Object(entries) => {
                    let mut i: usize = 0;
                    assert(fields.deep_view() =~~= form_fields(vm).subrange(0, 0));
                    while i < entries.len()
                        invariant
                            0 <= i <= entries.len(),
                            fields.deep_view() == form_fields(vm).subrange(0, i as int),
                        decreases entries.len() - i,
                    {
                        let ghost prev = fields.deep_view();
                        let e = &entries[i];
                        let value_bytes = match &e.1 {
                            JsonValue::Text(s) => s.as_str().as_bytes_vec(),
                            other => to_json_bytes(other),
                        };
                        assert(value_bytes@ == field_text(
                            crate::json::entries_model(entries@)[i as int].1,
                        ));
                        fields.push((e.0.clone(), value_bytes));
                        assert(fields.deep_view() =~~= form_fields(vm).subrange(0, i as int + 1));
                        i = i + 1;
                    }
                    assert(vm matches JsonModel::Object(em) && em == crate::json::entries_model(
                        entries@,
                    ));
                    assert(form_fields(vm).len() == entries@.len());
                    assert(form_fields(vm).subrange(0, i as int) =~~= form_fields(vm));
                },
                _ => {
                    assert(fields.deep_view() =~~= form_fields(vm));
                },
            }
            Payload::Multipart { fields, parts }
        },
    }
}

/// Resolves the target URL of a request and builds its encoded body:
/// everything about a call that precedes the network send. What remains
/// afterwards is decoding the reply as an envelope.
pub fn prepare_request<T: TelegramRequest>(api_endpoint: &str, api_key: &str, request: &T) -> (r: (
    String,
    Payload,
))
    ensures
        r.0@ == api_endpoint@ + "bot"@ + api_key@ + "/"@ + request.spec_endpoint(),
        request.spec_files() is None ==> (r.1 matches Payload::Json(body) && body@ == json_bytes(
            request.spec_values(),
        )),
        request.spec_files() matches Some(fparts) ==> (r.1 matches Payload::Multipart {
            fields,
            parts,
        } && parts.deep_view() == fparts && fields.deep_view() == form_fields(
            request.spec_values(),
        )),
{
    let url = request_url(api_endpoint, api_key, request.endpoint());
    let payload = encode_request(request);
    (url, payload)
}

/// The target URL of a request: the base endpoint, `bot` and the secret
/// token, a slash, and the endpoint name.
pub fn request_url(api_endpoint: &str, api_key: &str, endpoint: &str) -> (url: String)
    ensures
        url@ == api_endpoint@ + "bot"@ + api_key@ + "/"@ + endpoint@,
{
    let mut url = api_endpoint.to_owned();
    url.append("bot");
    url.append(api_key);
    url.append("/");
    url.append(endpoint);
    assert(url@ =~= api_endpoint@ + "bot"@ + api_key@ + "/"@ + endpoint@);
    url
}

/// The URL a file is downloaded from: the base endpoint, `file/bot` and
/// the secret token, a slash, and the file's path. The response to a GET
/// on this URL is the file's raw bytes, with no envelope around them.
pub fn download_url(api_endpoint: &str, api_key: &str, file_path: &str) -> (url: String)
    ensures
        url@ == api_endpoint@ + "file/bot"@ + api_key@ + "/"@ + file_path@,
{
    let mut url = api_endpoint.to_owned();
    url.append("file/bot");
    url.append(api_key);
    url.append("/");
    url.append(file_path);
    assert(url@ =~= api_endpoint@ + "file/bot"@ + api_key@ + "/"@ + file_path@);
    url
}

} // verus!
