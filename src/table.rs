//! The table query: the upstream request it makes, and the reply built
//! from what the upstream answered.

use vstd::prelude::*;
use vstd::string::StringExecFns;
use vstd::utf8::{decode_utf8, valid_utf8};

use crate::json::{
    get_member,
    get_str,
    get_u64,
    json_parsed,
    member,
    parse_json,
    str_of,
    u64_of,
    JsonValue,
};
use crate::query::{
    form_pairs,
    objtype_name,
    parse_query,
    pairs_view,
    query_outcome,
    validate_table_query,
    ObjectType,
};
use crate::response::{is_text_reply, return_500, Page, Reply};
use crate::row::{row_views, rows_sorted, sort_rows, RowPart, RowView};

verus! {

/// The string member `key` of the object's `attrs`, or empty.
pub open spec fn attr_text(item: JsonValue, key: Seq<char>) -> Seq<char> {
    match str_of(member(member(Some(item), "attrs"@), key)) {
        Some(s) => s,
        None => Seq::empty(),
    }
}

/// The output of the object's last check, or empty.
pub open spec fn output_text(item: JsonValue) -> Seq<char> {
    match str_of(
        member(member(member(Some(item), "attrs"@), "last_check_result"@), "output"@),
    ) {
        Some(s) => s,
        None => Seq::empty(),
    }
}

/// The reported state: 5 (unknown) where it is absent or not a
/// non-negative integer, and at most 6: a larger value becomes 6.
pub open spec fn state_code(v: Option<u64>) -> u8 {
    match v {
        None => 5,
        Some(n) => if n <= 6 {
            n as u8
        } else {
            6
        },
    }
}

/// The row that an upstream object of type `t` gives.
pub open spec fn row_of(t: ObjectType, item: JsonValue) -> RowView {
    RowView {
        host: if t == ObjectType::Services {
            attr_text(item, "host_name"@)
        } else {
            attr_text(item, "name"@)
        },
        service: if t == ObjectType::Services {
            attr_text(item, "name"@)
        } else {
            Seq::empty()
        },
        output: output_text(item),
        state: state_code(u64_of(member(member(Some(item), "attrs"@), "state"@))),
    }
}

/// The `results` array of an upstream document, where it is an array.
pub open spec fn results_of(doc: JsonValue) -> Option<Seq<JsonValue>> {
    match member(Some(doc), "results"@) {
        Some(JsonValue::Array(items)) => Some(items@),
        _ => None,
    }
}

/// The text of an upstream error body: its UTF-8 decoding where it is valid
/// UTF-8, else each byte taken as the character with that code.
pub open spec fn error_text(body: Seq<u8>) -> Seq<char> {
    if valid_utf8(body) {
        decode_utf8(body)
    } else {
        body.map_values(|b: u8| b as char)
    }
}

fn text_or_empty(s: Option<&String>) -> (r: String)
    ensures
        s matches Some(x) ==> r@ == x@,
        s is None ==> r@ == Seq::<char>::empty(),
{
    match s {
        Some(x) => x.clone(),
        None => String::new(),
    }
}

/// Builds the row for one upstream object of type `objtype`.
pub fn extract_row(objtype: ObjectType, item: &JsonValue) -> (r: RowPart)
    ensures
        r@ == row_of(objtype, *item),
{
    let attrs = get_member(Some(item), "attrs");
    let name = text_or_empty(get_str(get_member(attrs, "name")));
    let (host, service) = if objtype == ObjectType::Services {
        (text_or_empty(get_str(get_member(attrs, "host_name"))), name)
    } else {
        (name, String::new())
    };
    let output = text_or_empty(
        get_str(get_member(get_member(attrs, "last_check_result"), "output")),
    );
    let state: u8 = match get_u64(get_member(attrs, "state")) {
        None => 5,
        Some(n) => if n <= 6 {
            n as u8
        } else {
            6
        },
    };
    RowPart { host, service, output, state }
}

/// Builds one row per upstream object, in the objects' order.
pub fn extract_rows(objtype: ObjectType, items: &Vec<JsonValue>) -> (r: Vec<RowPart>)
    ensures
        row_views(r@) == items@.map_values(|j: JsonValue| row_of(objtype, j)),
{
    let mut rows: Vec<RowPart> = Vec::new();
    let mut i: usize = 0;
    while i < items.len()
        invariant
            i <= items@.len(),
            row_views(rows@) =~= items@.take(i as int).map_values(
                |j: JsonValue| row_of(objtype, j),
            ),
        decreases items@.len() - i,
    {
        let row = extract_row(objtype, &items[i]);
        let ghost prev = rows@;
        rows.push(row);
        assert(row_views(rows@) =~= row_views(prev).push(row@));
        assert(items@.take(i as int + 1) =~= items@.take(i as int).push(items@[i as int]));
        i = i + 1;
    }
    assert(items@.take(i as int) =~= items@);
    rows
}

/// Relies on `String::from_utf8`: it succeeds exactly on valid UTF-8, and
/// then holds the decoded characters.
#[verifier::external_body]
fn utf8_string(bytes: &[u8]) -> (r: Option<String>)
    ensures
        r is Some <==> valid_utf8(bytes@),
        r matches Some(s) ==> s@ == decode_utf8(bytes@),
{
    String::from_utf8(bytes.to_vec()).ok()
}

/// Relies on `String::push`: appends one character.
#[verifier::external_body]
fn push_char(s: &mut String, c: char)
    ensures
        final(s)@ == old(s)@.push(c),
{
    s.push(c)
}

/// Decodes an upstream error body for display; never fails.
pub fn decode_error_body(body: &[u8]) -> (r: String)
    ensures
        r@ == error_text(body@),
{
    match utf8_string(body) {
        Some(s) => s,
        None => {
            let mut text = String::new();
            let mut i: usize = 0;
            while i < body.len()
                invariant
                    i <= body@.len(),
                    text@ =~= body@.take(i as int).map_values(|b: u8| b as char),
                decreases body@.len() - i,
            {
                push_char(&mut text, body[i] as char);
                assert(body@.take(i as int + 1) =~= body@.take(i as int).push(body@[i as int]));
                i = i + 1;
            }
            assert(body@.take(i as int) =~= body@);
            text
        },
    }
}

/// The lower-case hexadecimal digit for `n`, below 16.
pub open spec fn hex_digit(n: u32) -> char {
    seq!['0', '1', '2', '3', '4', '5', '6', '7', '8', '9', 'a', 'b', 'c', 'd', 'e', 'f'][n as int]
}

/// How `serde_json` writes one character inside a string literal: `"` and
/// `\` behind a backslash, the control characters below 0x20 as short
/// escapes where JSON has one and as `\u00XX` otherwise, and any other
/// character as it is.
pub open spec fn json_char_escape(c: char) -> Seq<char> {
    let n = c as u32;
    if c == '"' {
        seq!['\\', '"']
    } else if c == '\\' {
        seq!['\\', '\\']
    } else if n == 8 {
        seq!['\\', 'b']
    } else if n == 9 {
        seq!['\\', 't']
    } else if n == 10 {
        seq!['\\', 'n']
    } else if n == 12 {
        seq!['\\', 'f']
    } else if n == 13 {
        seq!['\\', 'r']
    } else if n < 32 {
        seq!['\\', 'u', '0', '0', hex_digit(n / 16), hex_digit(n % 16)]
    } else {
        seq![c]
    }
}

/// The characters of `s`, each escaped for a JSON string literal.
pub open spec fn json_escaped(s: Seq<char>) -> Seq<char>
    decreases s.len(),
{
    if s.len() == 0 {
        Seq::empty()
    } else {
        json_char_escape(s[0]) + json_escaped(s.drop_first())
    }
}

/// The JSON string literal for `s`.
pub open spec fn json_quoted(s: Seq<char>) -> Seq<char> {
    seq!['"'] + json_escaped(s) + seq!['"']
}

/// Relies on `serde_json::to_string` on a `str`: the string literal, with
/// the escapes of its `ESCAPE` table and `write_char_escape`. It writes into
/// a `Vec`, which cannot fail, and a `str` serializes without error.
#[verifier::external_body]
fn json_quote(s: &str) -> (r: String)
    ensures
        r@ == json_quoted(s@),
{
    serde_json::to_string(s).unwrap_or_default()
}

/// The text of the URL that resolving `path` against the URL written
/// `base` gives, or `None` where either cannot be parsed.
pub uninterp spec fn url_joined(base: Seq<char>, path: Seq<char>) -> Option<Seq<char>>;

/// Relies on `url::Url::parse` of the base and `url::Url::join` of the
/// path: the result depends on the two texts alone.
#[verifier::external_body]
fn join_url(base: &str, path: &str) -> (r: Option<String>)
    ensures
        match url_joined(base@, path@) {
            Some(u) => r matches Some(t) && t@ == u,
            None => r is None,
        },
{
    url::Url::parse(base).and_then(|b| b.join(path)).ok().map(String::from)
}

/// The request to send upstream for a validated table query.
#[derive(Debug)]
pub struct UpstreamRequest {
    pub objtype: ObjectType,
    /// The path, relative to the API's base URL, of the objects listed.
    pub path: String,
    /// The JSON body, `{"filter":<filter>}`.
    pub body: String,
}

/// The parameters that a request's query gives; no query gives none.
pub open spec fn query_params(query: Option<&str>) -> Seq<(Seq<char>, Seq<char>)> {
    match query {
        Some(q) => form_pairs(q@),
        None => Seq::empty(),
    }
}

pub open spec fn request_body(quoted_filter: Seq<char>) -> Seq<char> {
    "{\"filter\":"@ + quoted_filter + "}"@
}

/// The upstream request body around a filter already quoted as JSON text.
pub fn filter_request_body(quoted_filter: &str) -> (r: String)
    ensures
        r@ == request_body(quoted_filter@),
{
    String::from_str("{\"filter\":").concat(quoted_filter).concat("}")
}

/// The first step of a table query: validate the parameters and build the
/// upstream request, or give the reply that ends the query. A parameter
/// error is a 400 reply and no request is built.
pub fn plan_table(query: Option<&str>) -> (r: Result<UpstreamRequest, Reply>)
    ensures
        query_outcome(query_params(query)) matches Err(msg) ==> (r matches Err(e)
            && is_text_reply(e, 400, msg)),
        query_outcome(query_params(query)) matches Ok((t, f)) ==> (r matches Ok(req)
            && req.objtype == t && req.path@ == "objects/"@ + objtype_name(t) && req.body@
            == request_body(json_quoted(f))),
{
    let pairs = parse_query(query);
    assert(pairs_view(pairs@) =~= query_params(query));
    let q = match validate_table_query(&pairs) {
        Ok(q) => q,
        Err(e) => return Err(e),
    };
    let quoted = json_quote(q.filter.as_str());
    let body = filter_request_body(quoted.as_str());
    let path = String::from_str("objects/").concat(q.objtype.name());
    Ok(UpstreamRequest { objtype: q.objtype, path, body })
}

/// The URL to which the request goes: `path` resolved against the base
/// URL, or the 500 reply where that fails.
pub fn upstream_url(base_url: &str, request: &UpstreamRequest) -> (r: Result<String, Reply>)
    ensures
        url_joined(base_url@, request.path@) matches Some(u) ==> (r matches Ok(t) && t@ == u),
        url_joined(base_url@, request.path@) is None ==> (r matches Err(e) && is_text_reply(
            e,
            500,
            "500 Internal Server Error"@,
        )),
{
    match join_url(base_url, request.path.as_str()) {
        Some(u) => Ok(u),
        None => Err(return_500()),
    }
}

/// `r` is the table page for the objects `items` of type `t`: each object's
/// row, sorted.
pub open spec fn is_table_of(r: Reply, t: ObjectType, items: Seq<JsonValue>) -> bool {
    r matches Reply::Html { page: Page::Table { rows } } && rows_sorted(rows@) && row_views(
        rows@,
    ).to_multiset() == items.map_values(|j: JsonValue| row_of(t, j)).to_multiset()
}

/// `r` answers a 200 response whose document is `doc`.
pub open spec fn answers_document(r: Reply, t: ObjectType, doc: JsonValue) -> bool {
    match results_of(doc) {
        Some(items) => is_table_of(r, t, items),
        None => is_text_reply(r, 500, "500 Internal Server Error"@),
    }
}

/// The reply for a 200 answer whose document is `doc`: the sorted table,
/// or the 500 reply where `results` is not an array.
pub fn table_from_document(objtype: ObjectType, doc: &JsonValue) -> (r: Reply)
    ensures
        answers_document(r, objtype, *doc),
{
    match get_member(Some(doc), "results") {
        Some(JsonValue::Array(items)) => {
            let rows = sort_rows(extract_rows(objtype, items));
            Reply::Html { page: Page::Table { rows } }
        },
        _ => return_500(),
    }
}

/// The last step of a table query, from the upstream's status and body. A
/// 200 answer gives the sorted table, or the 500 reply where the body is
/// not JSON or its `results` is not an array. Any other status gives the
/// error page, served with status 200, that shows the upstream's status and
/// its body as text.
pub fn finish_table(objtype: ObjectType, status: u16, body: &[u8]) -> (r: Reply)
    ensures
        status != 200 ==> (r matches Reply::Html {
            page: Page::UpstreamError { status_code, error_text: text },
        } && status_code == status && text@ == error_text(body@)),
        status == 200 ==> match json_parsed(body@) {
            Some(doc) => answers_document(r, objtype, doc),
            None => is_text_reply(r, 500, "500 Internal Server Error"@),
        },
{
    if status == 200 {
        match parse_json(body) {
            Some(doc) => table_from_document(objtype, &doc),
            None => return_500(),
        }
    } else {
        Reply::Html {
            page: Page::UpstreamError { status_code: status, error_text: decode_error_body(body) },
        }
    }
}

/// A 200 answer whose `results` is an object, whatever else it holds, gets
/// the 500 reply.
pub proof fn law_results_object_is_server_error(r: Reply, t: ObjectType, doc: JsonValue)
    requires
        member(Some(doc), "results"@) matches Some(JsonValue::Object(_)),
        answers_document(r, t, doc),
    ensures
        is_text_reply(r, 500, "500 Internal Server Error"@),
{
}

} // verus!
