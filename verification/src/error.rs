//! The ways in which the device flow and the token page can fail.

use vstd::prelude::*;
use vstd::string::StringExecFns;
use crate::text::{decimal, push_decimal};

verus! {

/// A failure of the device flow or of the token page. None of them is fatal
/// to the host: each is handed to the caller, who decides what to do next.
#[derive(Debug, PartialEq, Eq)]
pub enum AuthError {
    /// The request could not be sent, or no response came back.
    Network { detail: String },
    /// The server answered with a status outside 200 to 299.
    Protocol { status: u16 },
    /// The response body did not have the expected shape.
    Decode { detail: String },
    /// The server reported an OAuth error that has no variant of its own.
    Auth { code: String },
    /// The device code is no longer valid; the flow has to start over.
    Expired,
    /// The user refused the authorization.
    Denied,
    /// The response held neither a token nor an error.
    UnexpectedResponse,
    /// The local address of the token page could not be bound.
    Bind { port: u16, detail: String },
}

/// The mathematical content of an [`AuthError`].
pub enum AuthErrorView {
    Network { detail: Seq<char> },
    Protocol { status: u16 },
    Decode { detail: Seq<char> },
    Auth { code: Seq<char> },
    Expired,
    Denied,
    UnexpectedResponse,
    Bind { port: u16, detail: Seq<char> },
}

impl View for AuthError {
    type V = AuthErrorView;

    open spec fn view(&self) -> AuthErrorView {
        match *self {
            AuthError::Network { detail } => AuthErrorView::Network { detail: detail@ },
            AuthError::Protocol { status } => AuthErrorView::Protocol { status },
            AuthError::Decode { detail } => AuthErrorView::Decode { detail: detail@ },
            AuthError::Auth { code } => AuthErrorView::Auth { code: code@ },
            AuthError::Expired => AuthErrorView::Expired,
            AuthError::Denied => AuthErrorView::Denied,
            AuthError::UnexpectedResponse => AuthErrorView::UnexpectedResponse,
            AuthError::Bind { port, detail } => AuthErrorView::Bind { port, detail: detail@ },
        }
    }
}

/// The message shown to the user for each failure.
pub open spec fn message_text(e: AuthErrorView) -> Seq<char> {
    match e {
        AuthErrorView::Network { detail } => "Request failed: "@ + detail,
        AuthErrorView::Protocol { status } => "Request failed with status "@ + decimal(
            status as nat,
        ),
        AuthErrorView::Decode { detail } => "Failed to parse response: "@ + detail,
        AuthErrorView::Auth { code } => "Authentication error: "@ + code,
        AuthErrorView::Expired => "The device code has expired. Please start over."@,
        AuthErrorView::Denied => "Access was denied by the user."@,
        AuthErrorView::UnexpectedResponse => "Unexpected response from the authorization server."@,
        AuthErrorView::Bind { port, detail } => "Failed to bind to port "@ + decimal(port as nat)
            + ": "@ + detail,
    }
}

impl Clone for AuthError {
    fn clone(&self) -> (copy: AuthError)
        ensures
            copy@ == self@,
    {
        match self {
            AuthError::Network { detail } => AuthError::Network { detail: detail.clone() },
            AuthError::Protocol { status } => AuthError::Protocol { status: *status },
            AuthError::Decode { detail } => AuthError::Decode { detail: detail.clone() },
            AuthError::Auth { code } => AuthError::Auth { code: code.clone() },
            AuthError::Expired => AuthError::Expired,
            AuthError::Denied => AuthError::Denied,
            AuthError::UnexpectedResponse => AuthError::UnexpectedResponse,
            AuthError::Bind { port, detail } => AuthError::Bind {
                port: *port,
                detail: detail.clone(),
            },
        }
    }
}

impl AuthError {
    /// The message to show for this failure. What the server or the system
    /// said is passed on word for word.
    pub fn message(&self) -> (text: String)
        ensures
            text@ == message_text(self@),
    {
        match self {
            AuthError::Network { detail } => {
                let mut text = "Request failed: ".to_owned();
                text.append(detail.as_str());
                text
            },
            AuthError::Protocol { status } => {
                let mut text = "Request failed with status ".to_owned();
                push_decimal(&mut text, *status as u64);
                text
            },
            AuthError::Decode { detail } => {
                let mut text = "Failed to parse response: ".to_owned();
                text.append(detail.as_str());
                text
            },
            AuthError::Auth { code } => {
                let mut text = "Authentication error: ".to_owned();
                text.append(code.as_str());
                text
            },
            AuthError::Expired => "The device code has expired. Please start over.".to_owned(),
            AuthError::Denied => "Access was denied by the user.".to_owned(),
            AuthError::UnexpectedResponse => {
                "Unexpected response from the authorization server.".to_owned()
            },
            AuthError::Bind { port, detail } => {
                let mut text = "Failed to bind to port ".to_owned();
                push_decimal(&mut text, *port as u64);
                text.append(": ");
                text.append(detail.as_str());
                text
            },
        }
    }
}

/// The content of an optional text.
pub open spec fn text_of(o: Option<String>) -> Option<Seq<char>> {
    match o {
        Some(s) => Some(s@),
        None => None,
    }
}

/// The content of the result of a token exchange.
pub open spec fn outcome_of(r: Result<String, AuthError>) -> Result<Seq<char>, AuthErrorView> {
    match r {
        Ok(token) => Ok(token@),
        Err(e) => Err(e@),
    }
}

} // verus!
