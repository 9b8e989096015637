//! The rules of the outbound HTTP relay: which methods it sends, which
//! headers it forwards, how a JSON multipart description becomes form
//! parts, and how the response is reported.

use vstd::prelude::*;
use std::collections::HashMap;
use base64::Engine as _;
use crate::report::text_of;

verus! {

/// A request to relay.
#[derive(Clone, Debug)]
pub struct HttpRequest {
    pub url: String,
    pub method: String,
    pub headers: HashMap<String, String>,
    pub body: Option<String>,
}

/// What the relay reports back: the response, or the transport failure.
#[derive(Clone, Debug)]
pub struct HttpResponse {
    pub status: u16,
    pub headers: HashMap<String, String>,
    pub body: String,
    pub error: Option<String>,
}

/// One entry of a multipart body description: a text field, or a file
/// whose content is given in base64.
#[derive(Clone, Debug, PartialEq, Eq)]
pub struct MultipartEntry {
    pub key: String,
    pub value: String,
    pub entry_type: String,
    pub filename: Option<String>,
}

/// A request body that describes a multipart form.
#[derive(Clone, Debug, PartialEq, Eq)]
pub struct MultipartBody {
    pub body_type: String,
    pub entries: Vec<MultipartEntry>,
}

/// The methods the relay sends.
#[derive(PartialEq, Eq, Structural, Clone, Copy, Debug)]
pub enum HttpMethod {
    Get,
    Post,
    Put,
    Delete,
    Patch,
    Head,
    Options,
}

/// One part of a multipart form.
#[derive(Clone, Debug, PartialEq, Eq)]
pub enum FormPart {
    Text { key: String, value: String },
    File { key: String, bytes: Vec<u8>, filename: Option<String> },
}

/// What is sent as the request body.
#[derive(Clone, Debug, PartialEq, Eq)]
pub enum RequestBody {
    Empty,
    Raw(String),
    Form(Vec<FormPart>),
}

/// A form part as the contracts see it.
pub enum PartView {
    Text { key: Seq<char>, value: Seq<char> },
    File { key: Seq<char>, bytes: Seq<u8>, filename: Option<Seq<char>> },
}

impl View for FormPart {
    type V = PartView;

    open spec fn view(&self) -> PartView {
        match self {
            FormPart::Text { key, value } => PartView::Text { key: key@, value: value@ },
            FormPart::File { key, bytes, filename } => PartView::File {
                key: key@,
                bytes: bytes@,
                filename: text_of(*filename),
            },
        }
    }
}

/// What `str::to_lowercase` makes of a character sequence.
pub uninterp spec fn lower_of(s: Seq<char>) -> Seq<char>;

/// Relies on `str::to_lowercase`: the Unicode lowercase mapping, which
/// depends on the characters alone.
#[verifier::external_body]
fn lowercase(s: &str) -> (r: String)
    ensures
        r@ == lower_of(s@),
{
    s.to_lowercase()
}

/// What base64's standard engine decodes a text to; absent when the text
/// is not valid padded standard base64.
pub uninterp spec fn base64_decoded(s: Seq<char>) -> Option<Seq<u8>>;

/// Relies on `base64::engine::general_purpose::STANDARD.decode`: the bytes,
/// or the failure, depend on the text alone.
#[verifier::external_body]
fn decode_base64(s: &str) -> (r: Option<Vec<u8>>)
    ensures
        match r {
            Some(v) => base64_decoded(s@) == Some(v@),
            None => base64_decoded(s@) is None,
        },
{
    base64::engine::general_purpose::STANDARD.decode(s).ok()
}

/// The method a request names, if the relay sends it.
pub open spec fn method_named(m: Seq<char>) -> Option<HttpMethod> {
    if m == "GET"@ {
        Some(HttpMethod::Get)
    } else if m == "POST"@ {
        Some(HttpMethod::Post)
    } else if m == "PUT"@ {
        Some(HttpMethod::Put)
    } else if m == "DELETE"@ {
        Some(HttpMethod::Delete)
    } else if m == "PATCH"@ {
        Some(HttpMethod::Patch)
    } else if m == "HEAD"@ {
        Some(HttpMethod::Head)
    } else if m == "OPTIONS"@ {
        Some(HttpMethod::Options)
    } else {
        None
    }
}

/// The method a request names; any other name is refused.
pub fn parse_http_method(method: &str) -> (r: Result<HttpMethod, String>)
    ensures
        match method_named(method@) {
            Some(m) => r == Ok::<HttpMethod, String>(m),
            None => r is Err && r->Err_0@ == "Unsupported HTTP method: "@ + method@,
        },
{
    if crate::names::same_text(method, "GET") {
        Ok(HttpMethod::Get)
    } else if crate::names::same_text(method, "POST") {
        Ok(HttpMethod::Post)
    } else if crate::names::same_text(method, "PUT") {
        Ok(HttpMethod::Put)
    } else if crate::names::same_text(method, "DELETE") {
        Ok(HttpMethod::Delete)
    } else if crate::names::same_text(method, "PATCH") {
        Ok(HttpMethod::Patch)
    } else if crate::names::same_text(method, "HEAD") {
        Ok(HttpMethod::Head)
    } else if crate::names::same_text(method, "OPTIONS") {
        Ok(HttpMethod::Options)
    } else {
        let mut e = String::from_str("Unsupported HTTP method: ");
        e.append(method);
        Err(e)
    }
}

/// The body describes a multipart form.
pub open spec fn describes_form(parsed: Option<MultipartBody>) -> bool {
    parsed is Some && parsed->0.body_type@ == "multipart"@
}

/// Whether `parsed`, the body read as a multipart description, describes a form.
pub fn is_multipart(parsed: &Option<MultipartBody>) -> (r: bool)
    ensures
        r == describes_form(*parsed),
{
    match parsed {
        Some(b) => crate::names::same_text(b.body_type.as_str(), "multipart"),
        None => false,
    }
}

/// Whether a header is forwarded: every header is, except `Content-Type`
/// (in any case) when the body is a multipart form, whose content type the
/// form sets itself.
pub fn forwards_header(key: &str, multipart: bool) -> (r: bool)
    ensures
        r == (lower_of(key@) != "content-type"@ || !multipart),
{
    let lower = lowercase(key);
    !crate::names::same_text(lower.as_str(), "content-type") || !multipart
}

/// The form part of one entry: a file entry whose content is not valid
/// base64 gives none.
pub open spec fn entry_part(e: MultipartEntry) -> Option<PartView> {
    if e.entry_type@ == "file"@ {
        match base64_decoded(e.value@) {
            Some(bytes) => Some(
                PartView::File { key: e.key@, bytes, filename: text_of(e.filename) },
            ),
            None => None,
        }
    } else {
        Some(PartView::Text { key: e.key@, value: e.value@ })
    }
}

/// The form parts of a list of entries, in order.
pub open spec fn form_parts(es: Seq<MultipartEntry>) -> Seq<PartView>
    decreases es.len(),
{
    if es.len() == 0 {
        Seq::empty()
    } else {
        let prev = form_parts(es.drop_last());
        match entry_part(es.last()) {
            Some(p) => prev.push(p),
            None => prev,
        }
    }
}

/// The views of a list of form parts.
pub open spec fn part_views(s: Seq<FormPart>) -> Seq<PartView> {
    s.map_values(|p: FormPart| p@)
}

/// The form parts of a multipart description.
pub fn build_form_parts(entries: &Vec<MultipartEntry>) -> (r: Vec<FormPart>)
    ensures
        part_views(r@) == form_parts(entries@),
{
    let mut r: Vec<FormPart> = Vec::new();
    let mut i: usize = 0;
    while i < entries.len()
        invariant
            i <= entries@.len(),
            part_views(r@) == form_parts(entries@.subrange(0, i as int)),
        decreases entries@.len() - i,
    {
        let e = &entries[i];
        let ghost es = entries@.subrange(0, i + 1);
        assert(es.drop_last() =~= entries@.subrange(0, i as int));
        assert(es.last() == *e);
        let ghost before = r@;
        if crate::names::same_text(e.entry_type.as_str(), "file") {
            match decode_base64(e.value.as_str()) {
                Some(bytes) => {
                    let filename = match &e.filename {
                        Some(f) => Some(f.clone()),
                        None => None,
                    };
                    r.push(FormPart::File { key: e.key.clone(), bytes, filename });
                    assert(part_views(r@) =~= part_views(before).push(r@.last()@));
                },
                None => {},
            }
        } else {
            r.push(FormPart::Text { key: e.key.clone(), value: e.value.clone() });
            assert(part_views(r@) =~= part_views(before).push(r@.last()@));
        }
        i += 1;
    }
    assert(entries@.subrange(0, entries@.len() as int) =~= entries@);
    r
}

/// What the request sends as its body: nothing without a body, the form
/// when the body describes a multipart form (`parsed` is the body read as
/// such a description), and the body text as it is otherwise.
pub fn plan_request_body(body: Option<String>, parsed: Option<MultipartBody>) -> (r: RequestBody)
    ensures
        body is None ==> r == RequestBody::Empty,
        body is Some && describes_form(parsed) ==> (r matches RequestBody::Form(parts)
            && part_views(parts@) == form_parts(parsed->0.entries@)),
        body is Some && !describes_form(parsed) ==> r == RequestBody::Raw(body->0),
{
    match body {
        None => RequestBody::Empty,
        Some(b) => {
            if is_multipart(&parsed) {
                match parsed {
                    Some(p) => RequestBody::Form(build_form_parts(&p.entries)),
                    None => RequestBody::Raw(b),
                }
            } else {
                RequestBody::Raw(b)
            }
        },
    }
}

/// The report of a request that got no response.
pub fn transport_error_response(error: String) -> (r: HttpResponse)
    ensures
        r.status == 0,
        r.headers@ == Map::<String, String>::empty(),
        r.body@ == Seq::<char>::empty(),
        r.error == Some(error),
{
    HttpResponse { status: 0, headers: HashMap::new(), body: String::new(), error: Some(error) }
}

/// The report of a response: its status and headers, and its body, or the
/// failure to read it in the body's place.
pub fn http_response(status: u16, headers: HashMap<String, String>, body: Result<String, String>) -> (r:
    HttpResponse)
    ensures
        r.status == status,
        r.headers == headers,
        r.error is None,
        body is Ok ==> r.body == body->Ok_0,
        body is Err ==> r.body@ == "Error reading response body: "@ + body->Err_0@,
{
    let text = match body {
        Ok(t) => t,
        Err(e) => {
            let mut m = String::from_str("Error reading response body: ");
            m.append(e.as_str());
            m
        },
    };
    HttpResponse { status, headers, body: text, error: None }
}

} // verus!
