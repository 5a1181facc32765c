//! The application's error type and how it is answered over HTTP.

use vstd::prelude::*;

use crate::reply::{plain_reply, reply_content_is_in_its_fields, Reply, ReplyView};
use crate::text::{joined, optional_text, texts_are_those_of_the_strings};

verus! {

/// An error of the `redis` crate, carried as it came.
#[verifier::external_type_specification]
#[verifier::external_body]
pub struct ExRedisError(redis::RedisError);

/// An error of the `serde_json` crate, carried as it came.
#[verifier::external_type_specification]
#[verifier::external_body]
pub struct ExJsonError(serde_json::Error);

/// Unified error type for the application.
#[derive(Debug)]
pub enum AppError {
    Redis(redis::RedisError),
    Imap(String),
    ImapAuth,
    Serialization(serde_json::Error),
    Internal(String),
}

/// The reply that an error gets. Only the kind of the error shows, never its
/// detail.
pub open spec fn error_reply(error: AppError) -> ReplyView {
    match error {
        AppError::Imap(_) => plain_reply(502, "IMAP error"@),
        AppError::ImapAuth => plain_reply(401, "IMAP authentication failed"@),
        AppError::Redis(_) | AppError::Serialization(_) | AppError::Internal(_) => plain_reply(
            500,
            "Internal error"@,
        ),
    }
}

/// True when `text` is a prefix followed by a rendering of `source` with
/// `Display`.
pub open spec fn displays_after<T: core::fmt::Display>(
    prefix: Seq<char>,
    source: T,
    text: Seq<char>,
) -> bool {
    exists|shown: String|
        #[trigger] vstd::string::to_string_from_display_ensures::<T>(&source, shown) && text
            == prefix + shown@
}

impl AppError {
    /// True when `text` is how this error is shown.
    pub open spec fn shown_as(self, text: Seq<char>) -> bool {
        match self {
            AppError::Redis(source) => displays_after("Redis error: "@, source, text),
            AppError::Imap(message) => text == "IMAP error: "@ + message@,
            AppError::ImapAuth => text == "IMAP authentication failed"@,
            AppError::Serialization(source) => displays_after(
                "Serialization error: "@,
                source,
                text,
            ),
            AppError::Internal(message) => text == "Internal error: "@ + message@,
        }
    }

    /// The error as text, for logs.
    pub fn to_string(&self) -> (text: String)
        ensures
            self.shown_as(text@),
    {
        match self {
            AppError::Redis(source) => {
                let shown = source.to_string();
                joined("Redis error: ", shown.as_str())
            },
            AppError::Imap(message) => joined("IMAP error: ", message.as_str()),
            AppError::ImapAuth => "IMAP authentication failed".to_owned(),
            AppError::Serialization(source) => {
                let shown = source.to_string();
                joined("Serialization error: ", shown.as_str())
            },
            AppError::Internal(message) => joined("Internal error: ", message.as_str()),
        }
    }

    /// True when `line` is what is logged once a request has ended in this
    /// error. Failed authentication is not logged.
    pub open spec fn logged_as(self, line: Option<Seq<char>>) -> bool {
        match self {
            AppError::Imap(_) => self.logged_after("IMAP error: "@, line),
            AppError::ImapAuth => line is None,
            AppError::Redis(_) => self.logged_after("Redis error: "@, line),
            AppError::Serialization(_) => self.logged_after("Serialization error: "@, line),
            AppError::Internal(message) => line == Some("Internal error: "@ + message@),
        }
    }

    /// True when `line` is a prefix followed by the error as it is shown.
    pub open spec fn logged_after(self, prefix: Seq<char>, line: Option<Seq<char>>) -> bool {
        exists|shown: Seq<char>| #[trigger] self.shown_as(shown) && line == Some(prefix + shown)
    }

    /// What is logged once a request has ended in this error.
    pub fn log_line(&self) -> (line: Option<String>)
        ensures
            self.logged_as(optional_text(line)),
    {
        match self {
            AppError::Imap(_) => {
                let shown = self.to_string();
                Some(joined("IMAP error: ", shown.as_str()))
            },
            AppError::ImapAuth => None,
            AppError::Redis(_) => {
                let shown = self.to_string();
                Some(joined("Redis error: ", shown.as_str()))
            },
            AppError::Serialization(_) => {
                let shown = self.to_string();
                Some(joined("Serialization error: ", shown.as_str()))
            },
            AppError::Internal(message) => Some(joined("Internal error: ", message.as_str())),
        }
    }

    /// The HTTP reply to a request that ended in this error.
    pub fn into_response(self) -> (reply: Reply)
        ensures
            reply@ == error_reply(self),
    {
        match self {
            AppError::Imap(_) => Reply::plain(502, "IMAP error"),
            AppError::ImapAuth => {
                let text = self.to_string();
                Reply::plain(401, text.as_str())
            },
            AppError::Redis(_) | AppError::Serialization(_) | AppError::Internal(_) => {
                Reply::plain(500, "Internal error")
            },
        }
    }
}

impl From<redis::RedisError> for AppError {
    fn from(source: redis::RedisError) -> (error: AppError) {
        AppError::Redis(source)
    }
}

impl vstd::std_specs::convert::FromSpecImpl<redis::RedisError> for AppError {
    open spec fn obeys_from_spec() -> bool {
        true
    }

    open spec fn from_spec(source: redis::RedisError) -> AppError {
        AppError::Redis(source)
    }
}

impl From<serde_json::Error> for AppError {
    fn from(source: serde_json::Error) -> (error: AppError) {
        AppError::Serialization(source)
    }
}

impl vstd::std_specs::convert::FromSpecImpl<serde_json::Error> for AppError {
    open spec fn obeys_from_spec() -> bool {
        true
    }

    open spec fn from_spec(source: serde_json::Error) -> AppError {
        AppError::Serialization(source)
    }
}

/// What an error holds never reaches the client: two errors of one kind get the
/// same reply.
pub proof fn reply_hides_error_detail(a: AppError, b: AppError)
    requires
        a is Redis <==> b is Redis,
        a is Imap <==> b is Imap,
        a is ImapAuth <==> b is ImapAuth,
        a is Serialization <==> b is Serialization,
    ensures
        error_reply(a) == error_reply(b),
{
}

/// How each error is answered: its status, and a text that tells the kind.
pub proof fn errors_are_answered_by_kind(error: AppError, reply: Reply)
    requires
        call_ensures(AppError::into_response, (error,), reply),
    ensures
        reply.headers@.len() == 0,
        reply.body is Text,
        match error {
            AppError::Imap(_) => reply.status == 502 && reply.body->Text_0@ == "IMAP error"@,
            AppError::ImapAuth => reply.status == 401 && reply.body->Text_0@
                == "IMAP authentication failed"@,
            _ => reply.status == 500 && reply.body->Text_0@ == "Internal error"@,
        },
{
    reply_content_is_in_its_fields(reply);
}

/// How each error is shown: the kind, and behind it all of the message or of what
/// the cause says.
pub proof fn errors_show_their_message(error: &AppError, text: String)
    requires
        call_ensures(AppError::to_string, (error,), text),
    ensures
        match *error {
            AppError::Imap(message) => text@ == "IMAP error: "@ + message@,
            AppError::ImapAuth => text@ == "IMAP authentication failed"@,
            AppError::Internal(message) => text@ == "Internal error: "@ + message@,
            AppError::Redis(source) => exists|shown: String|
                #[trigger] vstd::string::to_string_from_display_ensures::<redis::RedisError>(
                    &source,
                    shown,
                ) && text@ == "Redis error: "@ + shown@,
            AppError::Serialization(source) => exists|shown: String|
                #[trigger] vstd::string::to_string_from_display_ensures::<serde_json::Error>(
                    &source,
                    shown,
                ) && text@ == "Serialization error: "@ + shown@,
        },
{
}

/// Every error is logged with its message, but for failed authentication.
pub proof fn errors_are_logged_with_their_message(error: &AppError, line: Option<String>)
    requires
        call_ensures(AppError::log_line, (error,), line),
    ensures
        line is None <==> error is ImapAuth,
        match *error {
            AppError::Imap(message) => line->0@ == "IMAP error: "@ + ("IMAP error: "@ + message@),
            AppError::ImapAuth => line is None,
            AppError::Internal(message) => line->0@ == "Internal error: "@ + message@,
            AppError::Redis(source) => exists|shown: String|
                #[trigger] vstd::string::to_string_from_display_ensures::<redis::RedisError>(
                    &source,
                    shown,
                ) && line->0@ == "Redis error: "@ + ("Redis error: "@ + shown@),
            AppError::Serialization(source) => exists|shown: String|
                #[trigger] vstd::string::to_string_from_display_ensures::<serde_json::Error>(
                    &source,
                    shown,
                ) && line->0@ == "Serialization error: "@ + ("Serialization error: "@ + shown@),
        },
{
    texts_are_those_of_the_strings(Seq::empty(), line);
}

} // verus!
