//! A command bridge between a desktop UI and a note-management HTTP service.
//!
//! Each command is turned into one HTTP request description (method, URL,
//! query pairs, headers and an optional JSON body), and each reply of the
//! service is turned into either the body handed back verbatim or one of
//! three normalized errors. Sending the request is left to the caller.

mod json;

pub mod config;
pub mod error;
pub mod laws;
pub mod params;
pub mod reply;
pub mod request;

pub use config::{Endpoint, DEFAULT_API_BASE};
pub use error::CommandError;
pub use reply::{finish, interpret_reply, Exchange, Payload};
pub use request::{build_request, BodyField, Command, FieldValue, Method, Request, TOKEN_HEADER};
pub use params::{
    CaptureParams, DailyAppendParams, DailyOpenParams, InboxParams, ItemUpdateParams,
    PromoteParams, SearchParams, ValidateParams,
};
