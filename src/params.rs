use vstd::prelude::*;

verus! {

/// Parameters of the inbox listing; `limit`, `offset` and `sort` fall back to
/// 20, 0 and `updated_desc` when omitted.
#[derive(Debug)]
pub struct InboxParams {
    pub limit: Option<u32>,
    pub offset: Option<u32>,
    pub sort: Option<String>,
    pub status: Option<String>,
    pub privacy: Option<String>,
}

/// Parameters of a search; `limit` and `offset` fall back to 20 and 0.
#[derive(Debug)]
pub struct SearchParams {
    pub query: String,
    pub limit: Option<u32>,
    pub offset: Option<u32>,
    pub status: Option<String>,
    pub privacy: Option<String>,
}

/// A new note to capture.
#[derive(Debug)]
pub struct CaptureParams {
    pub title: String,
    pub body: Option<String>,
    pub tags: Option<Vec<String>>,
    pub privacy: Option<String>,
}

/// A note to promote, optionally to a given status.
#[derive(Debug)]
pub struct PromoteParams {
    pub path: String,
    pub status: Option<String>,
}

/// A note to check against the service's rules without saving it.
#[derive(Debug)]
pub struct ValidateParams {
    pub frontmatter: serde_json::Value,
    pub body: Option<String>,
    pub path: Option<String>,
}

/// A change to an existing item.
#[derive(Debug)]
pub struct ItemUpdateParams {
    pub path: String,
    pub frontmatter: serde_json::Value,
    pub body: Option<String>,
    pub validate_only: Option<bool>,
}

/// The daily note to open; an absent or empty date means today.
#[derive(Debug)]
pub struct DailyOpenParams {
    pub date: Option<String>,
}

/// Text to append to a daily note.
#[derive(Debug)]
pub struct DailyAppendParams {
    pub text: String,
    pub date: Option<String>,
}

} // verus!
