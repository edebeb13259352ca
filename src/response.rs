//! What the dashboard answers: plain-text replies, the HTML pages, and the
//! embedded assets.

use vstd::prelude::*;
use vstd::string::StringExecFns;

use crate::row::RowPart;

verus! {

/// One of the assets served under `/static/`.
#[derive(Clone, Copy, Debug, PartialEq, Eq, Structural)]
pub enum StaticAsset {
    ScriptJs,
    ScriptTs,
    ScriptJsMap,
}

/// An HTML page of the dashboard; the markup itself is laid out elsewhere.
#[derive(Debug)]
pub enum Page {
    Index,
    Table { rows: Vec<RowPart> },
    UpstreamError { status_code: u16, error_text: String },
}

/// A complete answer to one request.
#[derive(Debug)]
pub enum Reply {
    /// A `text/plain; charset=utf-8` body with the given status.
    Text { status: u16, body: String },
    /// An HTML page, always served with status 200.
    Html { page: Page },
    /// An embedded asset, served with status 200.
    Asset { asset: StaticAsset },
}

pub open spec fn reply_status(r: Reply) -> u16 {
    match r {
        Reply::Text { status, .. } => status,
        _ => 200,
    }
}

/// `r` is a plain-text reply with this status and body.
pub open spec fn is_text_reply(r: Reply, status: u16, body: Seq<char>) -> bool {
    r matches Reply::Text { status: s, body: b } && s == status && b@ == body
}

pub open spec fn asset_name(a: StaticAsset) -> Seq<char> {
    match a {
        StaticAsset::ScriptJs => "script.js"@,
        StaticAsset::ScriptTs => "script.ts"@,
        StaticAsset::ScriptJsMap => "script.js.map"@,
    }
}

pub open spec fn asset_content_type(a: StaticAsset) -> Seq<char> {
    match a {
        StaticAsset::ScriptJs => "text/javascript"@,
        StaticAsset::ScriptTs => "application/typescript"@,
        StaticAsset::ScriptJsMap => "application/json"@,
    }
}

pub open spec fn content_type_of(r: Reply) -> Seq<char> {
    match r {
        Reply::Text { .. } => "text/plain; charset=utf-8"@,
        Reply::Html { .. } => "text/html; charset=utf-8"@,
        Reply::Asset { asset } => asset_content_type(asset),
    }
}

impl StaticAsset {
    /// The asset registered under `name`, if any.
    pub fn lookup(name: &str) -> (r: Option<StaticAsset>)
        ensures
            r matches Some(a) ==> asset_name(a) == name@,
            r is None ==> forall|a: StaticAsset| asset_name(a) != name@,
    {
        proof {
            reveal_strlit("script.js");
            reveal_strlit("script.ts");
            reveal_strlit("script.js.map");
        }
        if crate::order::text_eq(name, "script.js") {
            Some(StaticAsset::ScriptJs)
        } else if crate::order::text_eq(name, "script.ts") {
            Some(StaticAsset::ScriptTs)
        } else if crate::order::text_eq(name, "script.js.map") {
            Some(StaticAsset::ScriptJsMap)
        } else {
            assert forall|a: StaticAsset| asset_name(a) != name@ by {
                match a {
                    StaticAsset::ScriptJs => {},
                    StaticAsset::ScriptTs => {},
                    StaticAsset::ScriptJsMap => {},
                }
            }
            None
        }
    }

    /// The name under which the asset is served.
    pub fn name(&self) -> (r: &'static str)
        ensures
            r@ == asset_name(*self),
    {
        match self {
            StaticAsset::ScriptJs => "script.js",
            StaticAsset::ScriptTs => "script.ts",
            StaticAsset::ScriptJsMap => "script.js.map",
        }
    }

    /// The content type with which the asset is served.
    pub fn content_type(&self) -> (r: &'static str)
        ensures
            r@ == asset_content_type(*self),
    {
        match self {
            StaticAsset::ScriptJs => "text/javascript",
            StaticAsset::ScriptTs => "application/typescript",
            StaticAsset::ScriptJsMap => "application/json",
        }
    }
}

impl Reply {
    /// The HTTP status of the reply.
    pub fn status(&self) -> (r: u16)
        ensures
            r == reply_status(*self),
    {
        match self {
            Reply::Text { status, .. } => *status,
            _ => 200,
        }
    }

    /// The `Content-Type` header of the reply.
    pub fn content_type(&self) -> (r: &'static str)
        ensures
            r@ == content_type_of(*self),
    {
        match self {
            Reply::Text { .. } => "text/plain; charset=utf-8",
            Reply::Html { .. } => "text/html; charset=utf-8",
            Reply::Asset { asset } => asset.content_type(),
        }
    }
}

/// The reply to every failure on the server's side.
pub fn return_500() -> (r: Reply)
    ensures
        is_text_reply(r, 500, "500 Internal Server Error"@),
{
    Reply::Text { status: 500, body: String::from_str("500 Internal Server Error") }
}

/// A plain-text reply. HTTP has no status outside 100..=999, so such a
/// status gives the 500 reply instead.
pub fn handle_plaintext_response(status_code: u16, text_body: String) -> (r: Reply)
    ensures
        100 <= status_code <= 999 ==> is_text_reply(r, status_code, text_body@),
        !(100 <= status_code <= 999) ==> is_text_reply(r, 500, "500 Internal Server Error"@),
{
    if 100 <= status_code && status_code <= 999 {
        Reply::Text { status: status_code, body: text_body }
    } else {
        return_500()
    }
}

/// The reply for a path that names nothing.
pub fn handle_404() -> (r: Reply)
    ensures
        is_text_reply(r, 404, "404 Not Found"@),
{
    handle_plaintext_response(404, String::from_str("404 Not Found"))
}

/// The reply for the index page.
pub fn handle_index() -> (r: Reply)
    ensures
        r matches Reply::Html { page: Page::Index },
{
    Reply::Html { page: Page::Index }
}

/// The reply for `/static/<file_name>`: the asset registered under that
/// name, or the not-found reply.
pub fn handle_static(file_name: &str) -> (r: Reply)
    ensures
        (exists|a: StaticAsset| asset_name(a) == file_name@) ==> (r matches Reply::Asset { asset }
            && asset_name(asset) == file_name@),
        (forall|a: StaticAsset| asset_name(a) != file_name@) ==> is_text_reply(
            r,
            404,
            "404 Not Found"@,
        ),
{
    match StaticAsset::lookup(file_name) {
        Some(asset) => Reply::Asset { asset },
        None => handle_404(),
    }
}

/// The rendering of a name or a value inside a message: a Rust string
/// literal, as `{:?}` writes it.
pub uninterp spec fn debug_quoted(s: Seq<char>) -> Seq<char>;

/// Relies on `<str as Debug>::fmt`: quotes and escapes the text, and the
/// result depends on the text alone.
#[verifier::external_body]
fn debug_quote(s: &str) -> (r: String)
    ensures
        r@ == debug_quoted(s@),
{
    format!("{:?}", s)
}

pub open spec fn missing_parameter_message(name: Seq<char>) -> Seq<char> {
    "missing required parameter "@ + debug_quoted(name)
}

pub open spec fn wrong_parameter_message(name: Seq<char>, value: Seq<char>) -> Seq<char> {
    "required parameter "@ + debug_quoted(name) + " has invalid value "@ + debug_quoted(value)
}

/// The reply for a required query parameter that is absent.
pub fn handle_400_missing_parameter(param_name: &str) -> (r: Reply)
    ensures
        is_text_reply(r, 400, missing_parameter_message(param_name@)),
{
    let quoted = debug_quote(param_name);
    let body = String::from_str("missing required parameter ").concat(quoted.as_str());
    handle_plaintext_response(400, body)
}

/// The reply for a required query parameter with a value outside its range.
pub fn handle_400_wrong_parameter(param_name: &str, value: &str) -> (r: Reply)
    ensures
        is_text_reply(r, 400, wrong_parameter_message(param_name@, value@)),
{
    let name = debug_quote(param_name);
    let val = debug_quote(value);
    let body = String::from_str("required parameter ").concat(name.as_str()).concat(
        " has invalid value ",
    ).concat(val.as_str());
    handle_plaintext_response(400, body)
}

} // verus!
