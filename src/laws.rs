use vstd::prelude::*;

use crate::params::{CaptureParams, DailyOpenParams, InboxParams, SearchParams};
use crate::reply::{exchange_outcome, is_json, is_success, Exchange};
use crate::request::{
    body_of, decimal, headers_of, method_of, query_of, url_of, Command, FieldValue, TOKEN_HEADER,
};

verus! {

/// A success status with a JSON body hands the body back verbatim, whatever
/// the command.
pub proof fn lemma_success_passes_body_through(status: u16, body: String)
    requires
        is_success(status),
        is_json(body@),
    ensures
        exchange_outcome(Exchange::Replied { status, body }) == Ok::<Seq<char>, Seq<char>>(body@),
{
}

/// Any other status gives the error `api error: ` followed by the raw body.
pub proof fn lemma_failure_status_reports_body(status: u16, body: String)
    requires
        !is_success(status),
    ensures
        exchange_outcome(Exchange::Replied { status, body }) == Err::<Seq<char>, Seq<char>>(
            "api error: "@ + body@,
        ),
{
}

/// A request that got no response gives the error `api unreachable`.
pub proof fn lemma_no_response_is_unreachable()
    ensures
        exchange_outcome(Exchange::Unreachable) == Err::<Seq<char>, Seq<char>>("api unreachable"@),
{
}

/// A success status with a body that is not JSON gives the error
/// `invalid api response`.
pub proof fn lemma_unparsable_success_is_invalid(status: u16, body: String)
    requires
        is_success(status),
        !is_json(body@),
    ensures
        exchange_outcome(Exchange::Replied { status, body }) == Err::<Seq<char>, Seq<char>>(
            "invalid api response"@,
        ),
{
}

/// Listing the inbox with no parameters asks for `limit=20`, `offset=0` and
/// `sort=updated_desc`, with no status or privacy key.
pub proof fn lemma_inbox_defaults(p: InboxParams)
    requires
        p.limit is None,
        p.offset is None,
        p.sort is None,
        p.status is None,
        p.privacy is None,
    ensures
        query_of(Command::ListInbox(p)) == seq![
            ("limit"@, "20"@),
            ("offset"@, "0"@),
            ("sort"@, "updated_desc"@),
        ],
{
    reveal_strlit("20");
    reveal_strlit("0");
    assert(decimal(2) =~= seq!['2']);
    assert(decimal(20) =~= "20"@);
    assert(decimal(0) =~= "0"@);
    assert(query_of(Command::ListInbox(p)) =~= seq![
        ("limit"@, "20"@),
        ("offset"@, "0"@),
        ("sort"@, "updated_desc"@),
    ]);
}

/// A search with only a query asks for `q`, then `limit=20` and `offset=0`.
pub proof fn lemma_search_defaults(p: SearchParams)
    requires
        p.limit is None,
        p.offset is None,
        p.status is None,
        p.privacy is None,
    ensures
        query_of(Command::Search(p)) == seq![
            ("q"@, p.query@),
            ("limit"@, "20"@),
            ("offset"@, "0"@),
        ],
{
    reveal_strlit("20");
    reveal_strlit("0");
    assert(decimal(2) =~= seq!['2']);
    assert(decimal(20) =~= "20"@);
    assert(decimal(0) =~= "0"@);
    assert(query_of(Command::Search(p)) =~= seq![
        ("q"@, p.query@),
        ("limit"@, "20"@),
        ("offset"@, "0"@),
    ]);
}

/// Opening the daily note with an empty date makes the same request as with
/// no date: the bare path, no query.
pub proof fn lemma_empty_date_is_no_date(base: Seq<char>, date: String)
    requires
        date@.len() == 0,
    ensures
        url_of(base, Command::OpenDailyNote(DailyOpenParams { date: Some(date) })) == url_of(
            base,
            Command::OpenDailyNote(DailyOpenParams { date: None }),
        ),
        url_of(base, Command::OpenDailyNote(DailyOpenParams { date: None })) == base
            + "/api/daily/open"@,
        query_of(Command::OpenDailyNote(DailyOpenParams { date: Some(date) })).len() == 0,
        method_of(Command::OpenDailyNote(DailyOpenParams { date: Some(date) })) == method_of(
            Command::OpenDailyNote(DailyOpenParams { date: None }),
        ),
        body_of(Command::OpenDailyNote(DailyOpenParams { date: Some(date) })) is None,
{
}

/// With a token configured every request carries exactly the token header
/// with that value; without one it carries no header.
pub proof fn lemma_token_header(token: Option<String>)
    ensures
        headers_of(token) == match token {
            Some(t) => seq![(TOKEN_HEADER@, t@)],
            None => Seq::<(Seq<char>, Seq<char>)>::empty(),
        },
{
}

/// Capturing a note with only a title sends a body holding the title alone.
pub proof fn lemma_capture_title_only(p: CaptureParams)
    requires
        p.body is None,
        p.tags is None,
        p.privacy is None,
    ensures
        body_of(Command::CaptureNote(p)) == Some(seq![("title"@, FieldValue::Text(p.title))]),
{
    assert(body_of(Command::CaptureNote(p))->Some_0 =~= seq![
        ("title"@, FieldValue::Text(p.title)),
    ]);
}

} // verus!
