//! The failures of the backend and the HTTP status each one answers with.

use vstd::prelude::*;
use vstd::string::StringExecFns;

verus! {

/// `openssl::error::ErrorStack`; carried, never inspected.
#[verifier::external_type_specification]
#[verifier::external_body]
pub struct ExErrorStack(openssl::error::ErrorStack);

/// `jsonwebkey::Error`; carried, never inspected.
#[verifier::external_type_specification]
#[verifier::external_body]
pub struct ExJwkError(jsonwebkey::Error);

/// `jsonwebtoken::errors::Error`; carried, never inspected.
#[verifier::external_type_specification]
#[verifier::external_body]
pub struct ExJwtError(jsonwebtoken::errors::Error);

/// Everything that can go wrong while serving a request.
///
/// A failure that comes from a library the core itself calls keeps that
/// library's error; one that comes from the network, the environment or the
/// file system is handed in as text by whoever met it.
#[derive(Debug)]
pub enum ShowMeErrors {
    /// A configuration value is missing or unreadable.
    Config(String),
    /// The upstream platform could not be reached or answered badly.
    PingApiError(String),
    /// The path of a user interface asset could not be read.
    ParsingUiPath,
    /// An upstream answer did not have the expected shape.
    Parsing(String),
    /// A guarded field could not be locked; holds the field's name.
    SharedLocking(String),
    /// No logs exist for the given id.
    NoLogsFound(String),
    /// The credential could not be set up; holds what was missing.
    TokenDefault(String),
    /// No random bytes could be had for the nonce.
    TokenOpenSsl(openssl::error::ErrorStack),
    /// The signing key file could not be read.
    TokenReadKey(String),
    /// The signing key file does not hold a usable key.
    TokenCreateToken(jsonwebkey::Error),
    /// The assertion could not be signed.
    TokenCreateKey(jsonwebtoken::errors::Error),
    /// The web socket layer failed.
    ActixWs(String),
    /// The web socket was already closed.
    ActixWsClosed,
}

/// The HTTP status that answers a failure.
pub open spec fn status_of(e: ShowMeErrors) -> int {
    match e {
        ShowMeErrors::PingApiError(_) => 502,
        ShowMeErrors::ParsingUiPath => 400,
        ShowMeErrors::NoLogsFound(_) => 404,
        _ => 500,
    }
}

/// `head`, the detail in square brackets, and a full stop.
pub open spec fn bracketed(head: Seq<char>, detail: Seq<char>) -> Seq<char> {
    head + seq!['['] + detail + seq![']', '.']
}

/// The text that describes a failure.
pub open spec fn message_of(e: ShowMeErrors) -> Seq<char> {
    match e {
        ShowMeErrors::Config(_) => "invalid configuration"@,
        ShowMeErrors::PingApiError(_) => "ping api error"@,
        ShowMeErrors::ParsingUiPath => "parsing error, check the struct"@,
        ShowMeErrors::Parsing(_) => "parsing error, check the struct"@,
        ShowMeErrors::SharedLocking(what) => bracketed("failed to lock shared state "@, what@),
        ShowMeErrors::NoLogsFound(id) => bracketed("There are no logs for id: "@, id@),
        ShowMeErrors::TokenDefault(what) => bracketed(
            "Creation of the api token failed: "@,
            what@,
        ),
        ShowMeErrors::TokenOpenSsl(_) => "Failed to create openssl rand but"@,
        ShowMeErrors::TokenReadKey(_) => "Failed to create openssl rand but"@,
        ShowMeErrors::TokenCreateToken(_) => "Failed to create and encode the token"@,
        ShowMeErrors::TokenCreateKey(_) => "Failed to create and encode the token"@,
        ShowMeErrors::ActixWs(_) => "Actix Web Error"@,
        ShowMeErrors::ActixWsClosed => "Actix Web Connection Closed"@,
    }
}

fn bracket(head: &str, detail: &String) -> (text: String)
    ensures
        text@ == bracketed(head@, detail@),
{
    let mut text = String::from_str(head);
    text.append("[");
    text.append(detail.as_str());
    text.append("].");
    proof {
        reveal_strlit("[");
        reveal_strlit("].");
        assert("["@ =~= seq!['[']);
        assert("]."@ =~= seq![']', '.']);
    }
    text
}

impl ShowMeErrors {
    /// The HTTP status that answers this failure.
    pub fn status_code(&self) -> (code: u16)
        ensures
            code == status_of(*self),
    {
        match self {
            ShowMeErrors::Config(_) => 500,
            ShowMeErrors::PingApiError(_) => 502,
            ShowMeErrors::ParsingUiPath => 400,
            ShowMeErrors::Parsing(_) => 500,
            ShowMeErrors::SharedLocking(_) => 500,
            ShowMeErrors::NoLogsFound(_) => 404,
            ShowMeErrors::TokenDefault(_) => 500,
            _ => 500,
        }
    }

    /// The text that describes this failure.
    pub fn message(&self) -> (text: String)
        ensures
            text@ == message_of(*self),
    {
        match self {
            ShowMeErrors::Config(_) => String::from_str("invalid configuration"),
            ShowMeErrors::PingApiError(_) => String::from_str("ping api error"),
            ShowMeErrors::ParsingUiPath => String::from_str("parsing error, check the struct"),
            ShowMeErrors::Parsing(_) => String::from_str("parsing error, check the struct"),
            ShowMeErrors::SharedLocking(what) => bracket("failed to lock shared state ", what),
            ShowMeErrors::NoLogsFound(id) => bracket("There are no logs for id: ", id),
            ShowMeErrors::TokenDefault(what) => bracket(
                "Creation of the api token failed: ",
                what,
            ),
            ShowMeErrors::TokenOpenSsl(_) => String::from_str("Failed to create openssl rand but"),
            ShowMeErrors::TokenReadKey(_) => String::from_str("Failed to create openssl rand but"),
            ShowMeErrors::TokenCreateToken(_) => String::from_str(
                "Failed to create and encode the token",
            ),
            ShowMeErrors::TokenCreateKey(_) => String::from_str(
                "Failed to create and encode the token",
            ),
            ShowMeErrors::ActixWs(_) => String::from_str("Actix Web Error"),
            ShowMeErrors::ActixWsClosed => String::from_str("Actix Web Connection Closed"),
        }
    }
}

} // verus!
