use vstd::prelude::*;

use crate::config::Endpoint;
use crate::params::{
    CaptureParams, DailyAppendParams, DailyOpenParams, InboxParams, ItemUpdateParams,
    PromoteParams, SearchParams, ValidateParams,
};

verus! {

/// The header that carries the configured token.
pub const TOKEN_HEADER: &'static str = "X-Substrate-Token";

/// The HTTP method of a request.
#[derive(Clone, Copy, Debug, PartialEq, Eq, Structural)]
pub enum Method {
    Get,
    Post,
}

/// A value in a JSON request body.
#[derive(Debug)]
pub enum FieldValue {
    Text(String),
    Texts(Vec<String>),
    Flag(bool),
    Structured(serde_json::Value),
}

/// One key of a JSON request body; the body is an object holding its fields
/// in order.
#[derive(Debug)]
pub struct BodyField {
    pub key: &'static str,
    pub value: FieldValue,
}

/// Everything needed to send one command to the service.
#[derive(Debug)]
pub struct Request {
    pub method: Method,
    pub url: String,
    pub query: Vec<(&'static str, String)>,
    pub headers: Vec<(&'static str, String)>,
    pub body: Option<Vec<BodyField>>,
}

/// One invocation from the UI, with its parameters.
#[derive(Debug)]
pub enum Command {
    ListInbox(InboxParams),
    GetItem(String),
    Search(SearchParams),
    CaptureNote(CaptureParams),
    PromoteNote(PromoteParams),
    ValidateNote(ValidateParams),
    UpdateItem(ItemUpdateParams),
    OpenDailyNote(DailyOpenParams),
    AppendDailyNote(DailyAppendParams),
}

/// The character of a decimal digit.
pub open spec fn digit_char(d: nat) -> char {
    if d == 0 {
        '0'
    } else if d == 1 {
        '1'
    } else if d == 2 {
        '2'
    } else if d == 3 {
        '3'
    } else if d == 4 {
        '4'
    } else if d == 5 {
        '5'
    } else if d == 6 {
        '6'
    } else if d == 7 {
        '7'
    } else if d == 8 {
        '8'
    } else {
        '9'
    }
}

/// `n` written in decimal, without sign or leading zeros.
pub open spec fn decimal(n: nat) -> Seq<char>
    decreases n,
{
    if n < 10 {
        seq![digit_char(n)]
    } else {
        decimal(n / 10).push(digit_char(n % 10))
    }
}

/// Relies on `ToString` through `u32`'s `Display`: the plain decimal digits.
#[verifier::external_body]
fn decimal_text(n: u32) -> (r: String)
    ensures
        r@ == decimal(n as nat),
{
    n.to_string()
}

/// Key/value pairs as character sequences.
pub open spec fn pairs_view(s: Seq<(&'static str, String)>) -> Seq<(Seq<char>, Seq<char>)> {
    s.map_values(|p: (&'static str, String)| (p.0@, p.1@))
}

/// Body fields with their keys as character sequences.
pub open spec fn fields_view(s: Seq<BodyField>) -> Seq<(Seq<char>, FieldValue)> {
    s.map_values(|f: BodyField| (f.key@, f.value))
}

/// A body as its fields' keys and values.
pub open spec fn body_view(b: Option<Vec<BodyField>>) -> Option<Seq<(Seq<char>, FieldValue)>> {
    match b {
        Some(v) => Some(fields_view(v@)),
        None => None,
    }
}

/// A query pair for an optional value: present exactly when the value is.
pub open spec fn opt_pair(key: Seq<char>, v: Option<String>) -> Seq<(Seq<char>, Seq<char>)> {
    match v {
        Some(s) => seq![(key, s@)],
        None => Seq::empty(),
    }
}

/// A body field for an optional value: present exactly when the value is.
pub open spec fn opt_field(key: Seq<char>, v: Option<FieldValue>) -> Seq<(Seq<char>, FieldValue)> {
    match v {
        Some(x) => seq![(key, x)],
        None => Seq::empty(),
    }
}

/// An optional text as an optional body value.
pub open spec fn opt_text(v: Option<String>) -> Option<FieldValue> {
    match v {
        Some(s) => Some(FieldValue::Text(s)),
        None => None,
    }
}

/// An optional list of texts as an optional body value.
pub open spec fn opt_texts(v: Option<Vec<String>>) -> Option<FieldValue> {
    match v {
        Some(s) => Some(FieldValue::Texts(s)),
        None => None,
    }
}

/// An optional flag as an optional body value.
pub open spec fn opt_flag(v: Option<bool>) -> Option<FieldValue> {
    match v {
        Some(b) => Some(FieldValue::Flag(b)),
        None => None,
    }
}

/// The decimal text of a number, or of `default` when it is absent.
pub open spec fn number_or(v: Option<u32>, default: nat) -> Seq<char> {
    match v {
        Some(n) => decimal(n as nat),
        None => decimal(default),
    }
}

/// Reads are sent with GET, writes with POST.
pub open spec fn method_of(c: Command) -> Method {
    match c {
        Command::ListInbox(_) | Command::GetItem(_) | Command::Search(_)
        | Command::OpenDailyNote(_) => Method::Get,
        _ => Method::Post,
    }
}

/// The fixed path of each command under the base address.
pub open spec fn path_of(c: Command) -> Seq<char> {
    match c {
        Command::ListInbox(_) => "/api/inbox"@,
        Command::GetItem(_) => "/api/item"@,
        Command::Search(_) => "/api/search"@,
        Command::CaptureNote(_) => "/api/capture"@,
        Command::PromoteNote(_) => "/api/promote"@,
        Command::ValidateNote(_) => "/api/validate"@,
        Command::UpdateItem(_) => "/api/item/update"@,
        Command::OpenDailyNote(_) => "/api/daily/open"@,
        Command::AppendDailyNote(_) => "/api/daily/append"@,
    }
}

/// The full URL: base, path, and for the daily note a literal `?date=` suffix
/// when a non-empty date is given.
pub open spec fn url_of(base: Seq<char>, c: Command) -> Seq<char> {
    match c {
        Command::OpenDailyNote(p) => match p.date {
            Some(d) if d@.len() > 0 => base + path_of(c) + "?date="@ + d@,
            _ => base + path_of(c),
        },
        _ => base + path_of(c),
    }
}

/// The query pairs of each command, defaults applied.
pub open spec fn query_of(c: Command) -> Seq<(Seq<char>, Seq<char>)> {
    match c {
        Command::ListInbox(p) => seq![
            ("limit"@, number_or(p.limit, 20)),
            ("offset"@, number_or(p.offset, 0)),
            ("sort"@, match p.sort {
                Some(s) => s@,
                None => "updated_desc"@,
            }),
        ] + opt_pair("status"@, p.status) + opt_pair("privacy"@, p.privacy),
        Command::GetItem(path) => seq![("path"@, path@)],
        Command::Search(p) => seq![
            ("q"@, p.query@),
            ("limit"@, number_or(p.limit, 20)),
            ("offset"@, number_or(p.offset, 0)),
        ] + opt_pair("status"@, p.status) + opt_pair("privacy"@, p.privacy),
        _ => Seq::empty(),
    }
}

/// The JSON body of each command: none for reads, and for writes an object
/// holding the given fields only, absent optional fields left out.
pub open spec fn body_of(c: Command) -> Option<Seq<(Seq<char>, FieldValue)>> {
    match c {
        Command::CaptureNote(p) => Some(
            seq![("title"@, FieldValue::Text(p.title))] + opt_field("body"@, opt_text(p.body))
                + opt_field("tags"@, opt_texts(p.tags)) + opt_field(
                "privacy"@,
                opt_text(p.privacy),
            ),
        ),
        Command::PromoteNote(p) => Some(
            seq![("path"@, FieldValue::Text(p.path))] + opt_field("status"@, opt_text(p.status)),
        ),
        Command::ValidateNote(p) => Some(
            seq![("frontmatter"@, FieldValue::Structured(p.frontmatter))] + opt_field(
                "body"@,
                opt_text(p.body),
            ) + opt_field("path"@, opt_text(p.path)),
        ),
        Command::UpdateItem(p) => Some(
            seq![
                ("path"@, FieldValue::Text(p.path)),
                ("frontmatter"@, FieldValue::Structured(p.frontmatter)),
            ] + opt_field("body"@, opt_text(p.body)) + opt_field(
                "validate_only"@,
                opt_flag(p.validate_only),
            ),
        ),
        Command::AppendDailyNote(p) => Some(
            seq![("text"@, FieldValue::Text(p.text))] + opt_field("date"@, opt_text(p.date)),
        ),
        _ => None,
    }
}

/// The headers: the token header exactly when a token is configured.
pub open spec fn headers_of(token: Option<String>) -> Seq<(Seq<char>, Seq<char>)> {
    opt_pair(TOKEN_HEADER@, token)
}

fn push_pair(q: &mut Vec<(&'static str, String)>, key: &'static str, v: Option<String>)
    ensures
        pairs_view(final(q)@) == pairs_view(old(q)@) + opt_pair(key@, v),
{
    match v {
        Some(s) => {
            q.push((key, s));
            assert(pairs_view(q@) =~= pairs_view(old(q)@) + opt_pair(key@, v));
        },
        None => {
            assert(pairs_view(q@) =~= pairs_view(old(q)@) + opt_pair(key@, v));
        },
    }
}

fn push_field(b: &mut Vec<BodyField>, key: &'static str, v: Option<FieldValue>)
    ensures
        fields_view(final(b)@) == fields_view(old(b)@) + opt_field(key@, v),
{
    match v {
        Some(x) => {
            b.push(BodyField { key, value: x });
            assert(fields_view(b@) =~= fields_view(old(b)@) + opt_field(key@, v));
        },
        None => {
            assert(fields_view(b@) =~= fields_view(old(b)@) + opt_field(key@, v));
        },
    }
}

fn text_value(v: Option<String>) -> (r: Option<FieldValue>)
    ensures
        r == opt_text(v),
{
    match v {
        Some(s) => Some(FieldValue::Text(s)),
        None => None,
    }
}

fn number_text(v: Option<u32>, default: u32) -> (r: String)
    ensures
        r@ == number_or(v, default as nat),
{
    match v {
        Some(n) => decimal_text(n),
        None => decimal_text(default),
    }
}

/// The URL of `command` under `base`.
pub fn url_for(base: &str, command: &Command) -> (r: String)
    ensures
        r@ == url_of(base@, *command),
{
    let path: &'static str = match command {
        Command::ListInbox(_) => "/api/inbox",
        Command::GetItem(_) => "/api/item",
        Command::Search(_) => "/api/search",
        Command::CaptureNote(_) => "/api/capture",
        Command::PromoteNote(_) => "/api/promote",
        Command::ValidateNote(_) => "/api/validate",
        Command::UpdateItem(_) => "/api/item/update",
        Command::OpenDailyNote(_) => "/api/daily/open",
        Command::AppendDailyNote(_) => "/api/daily/append",
    };
    let mut url = base.to_string();
    url.append(path);
    if let Command::OpenDailyNote(p) = command {
        if let Some(d) = &p.date {
            if !d.as_str().is_empty() {
                url.append("?date=");
                url.append(d.as_str());
            }
        }
    }
    url
}

/// The query pairs of `command`, defaults applied and absent optional values
/// left out.
pub fn query_for(command: Command) -> (r: Vec<(&'static str, String)>)
    ensures
        pairs_view(r@) == query_of(command),
{
    let mut q: Vec<(&'static str, String)> = Vec::new();
    match command {
        Command::ListInbox(p) => {
            q.push(("limit", number_text(p.limit, 20)));
            q.push(("offset", number_text(p.offset, 0)));
            let sort = match p.sort {
                Some(s) => s,
                None => "updated_desc".to_string(),
            };
            q.push(("sort", sort));
            push_pair(&mut q, "status", p.status);
            push_pair(&mut q, "privacy", p.privacy);
        },
        Command::GetItem(path) => {
            q.push(("path", path));
        },
        Command::Search(p) => {
            q.push(("q", p.query));
            q.push(("limit", number_text(p.limit, 20)));
            q.push(("offset", number_text(p.offset, 0)));
            push_pair(&mut q, "status", p.status);
            push_pair(&mut q, "privacy", p.privacy);
        },
        _ => {},
    }
    assert(pairs_view(q@) =~= query_of(command));
    q
}

/// The JSON body of `command`: only the given fields, in declaration order.
pub fn body_for(command: Command) -> (r: Option<Vec<BodyField>>)
    ensures
        body_view(r) == body_of(command),
{
    let mut b: Vec<BodyField> = Vec::new();
    match command {
        Command::CaptureNote(p) => {
            b.push(BodyField { key: "title", value: FieldValue::Text(p.title) });
            push_field(&mut b, "body", text_value(p.body));
            let tags = match p.tags {
                Some(t) => Some(FieldValue::Texts(t)),
                None => None,
            };
            push_field(&mut b, "tags", tags);
            push_field(&mut b, "privacy", text_value(p.privacy));
        },
        Command::PromoteNote(p) => {
            b.push(BodyField { key: "path", value: FieldValue::Text(p.path) });
            push_field(&mut b, "status", text_value(p.status));
        },
        Command::ValidateNote(p) => {
            b.push(BodyField { key: "frontmatter", value: FieldValue::Structured(p.frontmatter) });
            push_field(&mut b, "body", text_value(p.body));
            push_field(&mut b, "path", text_value(p.path));
        },
        Command::UpdateItem(p) => {
            b.push(BodyField { key: "path", value: FieldValue::Text(p.path) });
            b.push(BodyField { key: "frontmatter", value: FieldValue::Structured(p.frontmatter) });
            push_field(&mut b, "body", text_value(p.body));
            let flag = match p.validate_only {
                Some(v) => Some(FieldValue::Flag(v)),
                None => None,
            };
            push_field(&mut b, "validate_only", flag);
        },
        Command::AppendDailyNote(p) => {
            b.push(BodyField { key: "text", value: FieldValue::Text(p.text) });
            push_field(&mut b, "date", text_value(p.date));
        },
        _ => {
            return None;
        },
    }
    assert(fields_view(b@) =~= body_of(command).unwrap());
    Some(b)
}

/// The headers of every request: the token header with the token exactly as
/// configured, or none at all.
pub fn headers_for(token: &Option<String>) -> (r: Vec<(&'static str, String)>)
    ensures
        pairs_view(r@) == headers_of(*token),
{
    let mut h: Vec<(&'static str, String)> = Vec::new();
    let value = match token {
        Some(t) => Some(t.clone()),
        None => None,
    };
    push_pair(&mut h, TOKEN_HEADER, value);
    assert(pairs_view(h@) =~= headers_of(*token));
    h
}

/// The one request that carries `command` to the service at `endpoint`.
pub fn build_request(endpoint: &Endpoint, command: Command) -> (r: Request)
    ensures
        r.method == method_of(command),
        r.url@ == url_of(endpoint.api_base@, command),
        pairs_view(r.query@) == query_of(command),
        pairs_view(r.headers@) == headers_of(endpoint.auth_token),
        body_view(r.body) == body_of(command),
{
    let method = match &command {
        Command::ListInbox(_) | Command::GetItem(_) | Command::Search(_)
        | Command::OpenDailyNote(_) => Method::Get,
        _ => Method::Post,
    };
    let url = url_for(endpoint.api_base.as_str(), &command);
    let headers = headers_for(&endpoint.auth_token);
    let (query, body) = if method == Method::Get {
        (query_for(command), None)
    } else {
        (Vec::new(), body_for(command))
    };
    proof {
        assert(pairs_view(query@) =~= query_of(command));
    }
    Request { method, url, query, headers, body }
}

} // verus!
