use vstd::prelude::*;

use crate::error::CommandError;

verus! {

/// What came of sending one request.
#[derive(Debug)]
pub enum Exchange {
    /// The request could not be sent, or no response arrived.
    Unreachable,
    /// The service answered with this status and body text.
    Replied { status: u16, body: String },
}

/// A successful reply: the body text exactly as the service sent it, and the
/// JSON document it holds.
#[derive(Debug)]
pub struct Payload {
    pub text: String,
    pub value: serde_json::Value,
}

/// Whether `s` is one well-formed JSON document, as `serde_json` reads it.
pub uninterp spec fn is_json(s: Seq<char>) -> bool;

/// Relies on `serde_json::from_str` into a `serde_json::Value`: it succeeds
/// or fails depending on the text alone.
#[verifier::external_body]
fn parse_json(s: &str) -> (r: Option<serde_json::Value>)
    ensures
        r.is_some() == is_json(s@),
{
    serde_json::from_str::<serde_json::Value>(s).ok()
}

/// A 2xx status.
pub open spec fn is_success(status: u16) -> bool {
    200 <= status <= 299
}

/// The outcome of a command as text: the body handed back, or the error
/// message.
pub open spec fn outcome_view(r: Result<Payload, CommandError>) -> Result<Seq<char>, Seq<char>> {
    match r {
        Ok(p) => Ok(p.text@),
        Err(e) => Err(e.message@),
    }
}

/// What a reply with `status` and `body` becomes, given whether the body
/// parsed.
pub open spec fn reply_outcome(status: u16, body: Seq<char>, parses: bool) -> Result<
    Seq<char>,
    Seq<char>,
> {
    if !is_success(status) {
        Err("api error: "@ + body)
    } else if parses {
        Ok(body)
    } else {
        Err("invalid api response"@)
    }
}

/// What each exchange becomes.
pub open spec fn exchange_outcome(x: Exchange) -> Result<Seq<char>, Seq<char>> {
    match x {
        Exchange::Unreachable => Err("api unreachable"@),
        Exchange::Replied { status, body } => reply_outcome(status, body@, is_json(body@)),
    }
}

/// The result of a reply with `status` and `body`, where `parsed` is the
/// document read from `body`, if it is one. A success status hands the body
/// back with its document; any other status gives `api error: ` followed by
/// the body.
pub fn interpret_reply(status: u16, body: String, parsed: Option<serde_json::Value>) -> (r: Result<
    Payload,
    CommandError,
>)
    ensures
        outcome_view(r) == reply_outcome(status, body@, parsed.is_some()),
        r matches Ok(p) ==> Some(p.value) == parsed,
{
    if status < 200 || status > 299 {
        let mut message = "api error: ".to_string();
        message.append(body.as_str());
        return Err(CommandError { message });
    }
    match parsed {
        Some(value) => Ok(Payload { text: body, value }),
        None => Err(CommandError::new("invalid api response")),
    }
}

/// The result of a command given what came of its request: `api unreachable`
/// when nothing came back, otherwise as `interpret_reply` says, the body
/// being read as JSON only on a success status.
pub fn finish(exchange: Exchange) -> (r: Result<Payload, CommandError>)
    ensures
        outcome_view(r) == exchange_outcome(exchange),
{
    match exchange {
        Exchange::Unreachable => Err(CommandError::new("api unreachable")),
        Exchange::Replied { status, body } => {
            let parsed = if 200 <= status && status <= 299 {
                parse_json(body.as_str())
            } else {
                None
            };
            interpret_reply(status, body, parsed)
        },
    }
}

} // verus!
