//! The two steps of the device authorization grant: asking for a device code,
//! and exchanging it for a token once the user has approved.
//!
//! The caller sends the requests described here and reports what came back;
//! the functions of this module decide what that means.

use vstd::prelude::*;
use crate::error::{outcome_of, AuthError, AuthErrorView};
use crate::model::{AccessTokenResponse, AccessTokenView, DeviceCodeResponse, DeviceCodeView};
use crate::text::text_eq;

verus! {

/// Where GitHub hands out device codes.
pub const DEVICE_CODE_URL: &'static str = "https://github.com/login/device/code";

/// Where GitHub exchanges a device code for a token.
pub const ACCESS_TOKEN_URL: &'static str = "https://github.com/login/oauth/access_token";

/// The public client id of GitHub Copilot. The device flow is made for clients
/// that cannot keep a secret, so there is none to go with it.
pub const CLIENT_ID: &'static str = "Iv1.b507a08c87ecfe98";

/// The scope that is asked for.
pub const SCOPES: &'static str = "read:user";

/// The media type in which the server is asked to answer.
pub const ACCEPT_JSON: &'static str = "application/json";

/// The grant type of a device code exchange.
pub const DEVICE_GRANT_TYPE: &'static str = "urn:ietf:params:oauth:grant-type:device_code";

/// The error code of a server that waits for the user to approve.
pub const AUTHORIZATION_PENDING: &'static str = "authorization_pending";

/// The error code of a server that is polled too often.
pub const SLOW_DOWN: &'static str = "slow_down";

/// The error code of a server whose device code has run out.
pub const EXPIRED_TOKEN: &'static str = "expired_token";

/// The error code of a server whose user has refused.
pub const ACCESS_DENIED: &'static str = "access_denied";

/// The authorization server to talk to and the client to talk as.
#[derive(Debug, PartialEq, Eq)]
pub struct FlowConfig {
    pub device_code_url: String,
    pub token_url: String,
    pub client_id: String,
    pub scope: String,
}

/// The mathematical content of a [`FlowConfig`].
pub struct FlowConfigView {
    pub device_code_url: Seq<char>,
    pub token_url: Seq<char>,
    pub client_id: Seq<char>,
    pub scope: Seq<char>,
}

impl View for FlowConfig {
    type V = FlowConfigView;

    open spec fn view(&self) -> FlowConfigView {
        FlowConfigView {
            device_code_url: self.device_code_url@,
            token_url: self.token_url@,
            client_id: self.client_id@,
            scope: self.scope@,
        }
    }
}

/// The configuration for GitHub Copilot.
pub open spec fn github_config() -> FlowConfigView {
    FlowConfigView {
        device_code_url: DEVICE_CODE_URL@,
        token_url: ACCESS_TOKEN_URL@,
        client_id: CLIENT_ID@,
        scope: SCOPES@,
    }
}

impl Default for FlowConfig {
    /// The configuration for GitHub Copilot.
    fn default() -> (config: FlowConfig)
        ensures
            config@ == github_config(),
    {
        FlowConfig {
            device_code_url: DEVICE_CODE_URL.to_owned(),
            token_url: ACCESS_TOKEN_URL.to_owned(),
            client_id: CLIENT_ID.to_owned(),
            scope: SCOPES.to_owned(),
        }
    }
}

impl Clone for FlowConfig {
    fn clone(&self) -> (copy: FlowConfig)
        ensures
            copy@ == self@,
    {
        FlowConfig {
            device_code_url: self.device_code_url.clone(),
            token_url: self.token_url.clone(),
            client_id: self.client_id.clone(),
            scope: self.scope.clone(),
        }
    }
}

/// A POST request with a form-encoded body, to be sent as it stands.
#[derive(Debug, PartialEq, Eq)]
pub struct FormRequest {
    /// The address to post to.
    pub url: String,
    /// The value of the `Accept` header.
    pub accept: String,
    /// The fields of the form, in the order in which they are sent.
    pub fields: Vec<(String, String)>,
}

/// The mathematical content of a [`FormRequest`].
pub struct FormRequestView {
    pub url: Seq<char>,
    pub accept: Seq<char>,
    pub fields: Seq<(Seq<char>, Seq<char>)>,
}

impl View for FormRequest {
    type V = FormRequestView;

    open spec fn view(&self) -> FormRequestView {
        FormRequestView {
            url: self.url@,
            accept: self.accept@,
            fields: self.fields@.map_values(|field: (String, String)| (field.0@, field.1@)),
        }
    }
}

/// The request that asks for a device code.
pub open spec fn device_code_form(config: FlowConfigView) -> FormRequestView {
    FormRequestView {
        url: config.device_code_url,
        accept: ACCEPT_JSON@,
        fields: seq![("client_id"@, config.client_id), ("scope"@, config.scope)],
    }
}

/// The request that exchanges a device code for a token.
pub open spec fn token_form(config: FlowConfigView, device_code: Seq<char>) -> FormRequestView {
    FormRequestView {
        url: config.token_url,
        accept: ACCEPT_JSON@,
        fields: seq![
            ("client_id"@, config.client_id),
            ("device_code"@, device_code),
            ("grant_type"@, DEVICE_GRANT_TYPE@),
        ],
    }
}

/// Builds the request that asks the authorization server for a device code.
pub fn device_code_request(config: &FlowConfig) -> (request: FormRequest)
    ensures
        request@ == device_code_form(config@),
{
    let mut fields: Vec<(String, String)> = Vec::new();
    fields.push(("client_id".to_owned(), config.client_id.clone()));
    fields.push(("scope".to_owned(), config.scope.clone()));
    let request = FormRequest {
        url: config.device_code_url.clone(),
        accept: ACCEPT_JSON.to_owned(),
        fields,
    };
    assert(request@.fields =~= device_code_form(config@).fields);
    request
}

/// Builds the request that exchanges `device_code` for a token.
pub fn token_request(config: &FlowConfig, device_code: &str) -> (request: FormRequest)
    ensures
        request@ == token_form(config@, device_code@),
{
    let mut fields: Vec<(String, String)> = Vec::new();
    fields.push(("client_id".to_owned(), config.client_id.clone()));
    fields.push(("device_code".to_owned(), device_code.to_owned()));
    fields.push(("grant_type".to_owned(), DEVICE_GRANT_TYPE.to_owned()));
    let request = FormRequest {
        url: config.token_url.clone(),
        accept: ACCEPT_JSON.to_owned(),
        fields,
    };
    assert(request@.fields =~= token_form(config@, device_code@).fields);
    request
}

/// Whether an HTTP status reports success: 200 to 299.
pub open spec fn status_is_success(status: u16) -> bool {
    200 <= status <= 299
}

/// Whether an HTTP status reports success.
pub fn is_success(status: u16) -> (success: bool)
    ensures
        success == status_is_success(status),
{
    200 <= status && status <= 299
}

/// What the caller has seen of the answer to a device code request.
#[derive(Debug, PartialEq, Eq)]
pub enum DeviceCodeEvent {
    /// The request could not be sent, or no response came back.
    Unreachable { detail: String },
    /// The status of the response is known; its body has not been touched.
    Head { status: u16 },
    /// The body of a response with this status has been read: either it had
    /// the expected shape, or the decoder said why not.
    Body { status: u16, decoded: Result<DeviceCodeResponse, String> },
}

/// The mathematical content of a [`DeviceCodeEvent`].
pub enum DeviceCodeEventView {
    Unreachable { detail: Seq<char> },
    Head { status: u16 },
    Body { status: u16, decoded: Result<DeviceCodeView, Seq<char>> },
}

impl View for DeviceCodeEvent {
    type V = DeviceCodeEventView;

    open spec fn view(&self) -> DeviceCodeEventView {
        match *self {
            DeviceCodeEvent::Unreachable { detail } => DeviceCodeEventView::Unreachable {
                detail: detail@,
            },
            DeviceCodeEvent::Head { status } => DeviceCodeEventView::Head { status },
            DeviceCodeEvent::Body { status, decoded } => DeviceCodeEventView::Body {
                status,
                decoded: match decoded {
                    Ok(response) => Ok(response@),
                    Err(detail) => Err(detail@),
                },
            },
        }
    }
}

/// What the caller does next with a device code request.
#[derive(Debug, PartialEq, Eq)]
pub enum DeviceCodeStep {
    /// Read and decode the body, then report it.
    ReadBody,
    /// The request is over, with this result.
    Done(Result<DeviceCodeResponse, AuthError>),
}

/// The mathematical content of a [`DeviceCodeStep`].
pub enum DeviceCodeStepView {
    ReadBody,
    Done(Result<DeviceCodeView, AuthErrorView>),
}

impl View for DeviceCodeStep {
    type V = DeviceCodeStepView;

    open spec fn view(&self) -> DeviceCodeStepView {
        match *self {
            DeviceCodeStep::ReadBody => DeviceCodeStepView::ReadBody,
            DeviceCodeStep::Done(result) => DeviceCodeStepView::Done(
                match result {
                    Ok(response) => Ok(response@),
                    Err(e) => Err(e@),
                },
            ),
        }
    }
}

/// How a device code request goes on after `event`.
///
/// A request that got no response fails as a network error. The status is
/// looked at before anything else of a response: outside 200 to 299 it ends
/// the request as a protocol error, whatever the body holds, and only a
/// status of success asks for the body. A body that did not decode is a
/// decode error; one that did is the result, field for field.
pub open spec fn device_code_step(event: DeviceCodeEventView) -> DeviceCodeStepView {
    match event {
        DeviceCodeEventView::Unreachable { detail } => DeviceCodeStepView::Done(
            Err(AuthErrorView::Network { detail }),
        ),
        DeviceCodeEventView::Head { status } => if status_is_success(status) {
            DeviceCodeStepView::ReadBody
        } else {
            DeviceCodeStepView::Done(Err(AuthErrorView::Protocol { status }))
        },
        DeviceCodeEventView::Body { status, decoded } => if !status_is_success(status) {
            DeviceCodeStepView::Done(Err(AuthErrorView::Protocol { status }))
        } else {
            match decoded {
                Ok(response) => DeviceCodeStepView::Done(Ok(response)),
                Err(detail) => DeviceCodeStepView::Done(Err(AuthErrorView::Decode { detail })),
            }
        },
    }
}

/// Decides how a device code request goes on after `event`.
///
/// A request that got no response fails with [`AuthError::Network`]. A status
/// outside 200 to 299 ends the request with [`AuthError::Protocol`], whether or
/// not a body comes with it, so the body of such a response is never asked
/// for. A body that did not decode fails with [`AuthError::Decode`]; one that
/// did is the result, unchanged. Nothing is tried twice.
pub fn request_device_code(event: DeviceCodeEvent) -> (step: DeviceCodeStep)
    ensures
        step@ == device_code_step(event@),
{
    match event {
        DeviceCodeEvent::Unreachable { detail } => DeviceCodeStep::Done(
            Err(AuthError::Network { detail }),
        ),
        DeviceCodeEvent::Head { status } => {
            if is_success(status) {
                DeviceCodeStep::ReadBody
            } else {
                DeviceCodeStep::Done(Err(AuthError::Protocol { status }))
            }
        },
        DeviceCodeEvent::Body { status, decoded } => {
            if !is_success(status) {
                DeviceCodeStep::Done(Err(AuthError::Protocol { status }))
            } else {
                match decoded {
                    Ok(response) => DeviceCodeStep::Done(Ok(response)),
                    Err(detail) => DeviceCodeStep::Done(Err(AuthError::Decode { detail })),
                }
            }
        },
    }
}

/// A response whose status is not one of success ends the request as a
/// protocol error at its status line, and what its body holds, or whether it
/// has been read at all, makes no difference to the result.
pub proof fn law_failed_status_ends_the_request(
    status: u16,
    decoded: Result<DeviceCodeView, Seq<char>>,
)
    requires
        !status_is_success(status),
    ensures
        device_code_step(DeviceCodeEventView::Head { status }) == DeviceCodeStepView::Done(
            Err(AuthErrorView::Protocol { status }),
        ),
        device_code_step(DeviceCodeEventView::Body { status, decoded }) == device_code_step(
            DeviceCodeEventView::Head { status },
        ),
{
}

/// A response with a status of success and a body of the expected shape gives
/// that body as the result, with all five fields as they were sent.
pub proof fn law_decoded_body_is_the_result(status: u16, response: DeviceCodeView)
    requires
        status_is_success(status),
    ensures
        device_code_step(DeviceCodeEventView::Head { status }) == DeviceCodeStepView::ReadBody,
        device_code_step(DeviceCodeEventView::Body { status, decoded: Ok(response) })
            == DeviceCodeStepView::Done(Ok(response)),
{
}

/// What the caller has seen of the answer to a token exchange.
#[derive(Debug, PartialEq, Eq)]
pub enum TokenReply {
    /// The request could not be sent, or no response came back.
    Unreachable { detail: String },
    /// A response came back and its body did not have the expected shape.
    Malformed { detail: String },
    /// A response came back with this body.
    Decoded(AccessTokenResponse),
}

/// The mathematical content of a [`TokenReply`].
pub enum TokenReplyView {
    Unreachable { detail: Seq<char> },
    Malformed { detail: Seq<char> },
    Decoded(AccessTokenView),
}

impl View for TokenReply {
    type V = TokenReplyView;

    open spec fn view(&self) -> TokenReplyView {
        match *self {
            TokenReply::Unreachable { detail } => TokenReplyView::Unreachable { detail: detail@ },
            TokenReply::Malformed { detail } => TokenReplyView::Malformed { detail: detail@ },
            TokenReply::Decoded(response) => TokenReplyView::Decoded(response@),
        }
    }
}

/// What a decoded answer to a token exchange says.
#[derive(Debug, PartialEq, Eq)]
pub enum TokenOutcome {
    /// The user has approved; this is the token.
    Granted { token: String },
    /// The user has not approved yet.
    Pending,
    /// The server is asked too often.
    SlowDown,
    /// The device code has run out.
    Expired,
    /// The user has refused.
    Denied,
    /// The server reported another error, with this code.
    Refused { code: String },
    /// The answer holds neither a token nor an error.
    Empty,
}

/// The mathematical content of a [`TokenOutcome`].
pub enum TokenOutcomeView {
    Granted { token: Seq<char> },
    Pending,
    SlowDown,
    Expired,
    Denied,
    Refused { code: Seq<char> },
    Empty,
}

impl View for TokenOutcome {
    type V = TokenOutcomeView;

    open spec fn view(&self) -> TokenOutcomeView {
        match *self {
            TokenOutcome::Granted { token } => TokenOutcomeView::Granted { token: token@ },
            TokenOutcome::Pending => TokenOutcomeView::Pending,
            TokenOutcome::SlowDown => TokenOutcomeView::SlowDown,
            TokenOutcome::Expired => TokenOutcomeView::Expired,
            TokenOutcome::Denied => TokenOutcomeView::Denied,
            TokenOutcome::Refused { code } => TokenOutcomeView::Refused { code: code@ },
            TokenOutcome::Empty => TokenOutcomeView::Empty,
        }
    }
}

/// What an error code of the token endpoint means.
pub open spec fn error_meaning(code: Seq<char>) -> TokenOutcomeView {
    if code == AUTHORIZATION_PENDING@ {
        TokenOutcomeView::Pending
    } else if code == SLOW_DOWN@ {
        TokenOutcomeView::SlowDown
    } else if code == EXPIRED_TOKEN@ {
        TokenOutcomeView::Expired
    } else if code == ACCESS_DENIED@ {
        TokenOutcomeView::Denied
    } else {
        TokenOutcomeView::Refused { code }
    }
}

/// What a decoded answer says. A token counts, whatever else the answer
/// holds; without one the error code counts; with neither the answer is empty.
pub open spec fn meaning(response: AccessTokenView) -> TokenOutcomeView {
    match response.access_token {
        Some(token) => TokenOutcomeView::Granted { token },
        None => match response.error {
            Some(code) => error_meaning(code),
            None => TokenOutcomeView::Empty,
        },
    }
}

/// Reads a decoded answer of the token endpoint.
pub fn classify(response: AccessTokenResponse) -> (outcome: TokenOutcome)
    ensures
        outcome@ == meaning(response@),
{
    if let Some(token) = response.access_token {
        return TokenOutcome::Granted { token };
    }
    match response.error {
        Some(code) => {
            if text_eq(code.as_str(), AUTHORIZATION_PENDING) {
                TokenOutcome::Pending
            } else if text_eq(code.as_str(), SLOW_DOWN) {
                TokenOutcome::SlowDown
            } else if text_eq(code.as_str(), EXPIRED_TOKEN) {
                TokenOutcome::Expired
            } else if text_eq(code.as_str(), ACCESS_DENIED) {
                TokenOutcome::Denied
            } else {
                TokenOutcome::Refused { code }
            }
        },
        None => TokenOutcome::Empty,
    }
}

/// The result of a single token exchange, given what the answer says. Only a
/// token is a success. A server that still waits for the user, or asks for
/// patience, is reported under its own error code, for the caller to try again
/// when it sees fit.
pub open spec fn single_result(outcome: TokenOutcomeView) -> Result<Seq<char>, AuthErrorView> {
    match outcome {
        TokenOutcomeView::Granted { token } => Ok(token),
        TokenOutcomeView::Pending => Err(AuthErrorView::Auth { code: AUTHORIZATION_PENDING@ }),
        TokenOutcomeView::SlowDown => Err(AuthErrorView::Auth { code: SLOW_DOWN@ }),
        TokenOutcomeView::Expired => Err(AuthErrorView::Expired),
        TokenOutcomeView::Denied => Err(AuthErrorView::Denied),
        TokenOutcomeView::Refused { code } => Err(AuthErrorView::Auth { code }),
        TokenOutcomeView::Empty => Err(AuthErrorView::UnexpectedResponse),
    }
}

/// The result of a single token exchange, given what the caller has seen.
pub open spec fn token_result(reply: TokenReplyView) -> Result<Seq<char>, AuthErrorView> {
    match reply {
        TokenReplyView::Unreachable { detail } => Err(AuthErrorView::Network { detail }),
        TokenReplyView::Malformed { detail } => Err(AuthErrorView::Decode { detail }),
        TokenReplyView::Decoded(response) => single_result(meaning(response)),
    }
}

/// Decides the result of one token exchange: no waiting, no second attempt.
///
/// The token is the result if the answer holds one. Every error code that
/// the server reports is an error here too, `authorization_pending` among
/// them: when to ask again is the caller's business. An answer with neither
/// token nor error fails with [`AuthError::UnexpectedResponse`].
pub fn request_token(reply: TokenReply) -> (result: Result<String, AuthError>)
    ensures
        outcome_of(result) == token_result(reply@),
{
    match reply {
        TokenReply::Unreachable { detail } => Err(AuthError::Network { detail }),
        TokenReply::Malformed { detail } => Err(AuthError::Decode { detail }),
        TokenReply::Decoded(response) => match classify(response) {
            TokenOutcome::Granted { token } => Ok(token),
            TokenOutcome::Pending => Err(AuthError::Auth { code: AUTHORIZATION_PENDING.to_owned() }),
            TokenOutcome::SlowDown => Err(AuthError::Auth { code: SLOW_DOWN.to_owned() }),
            TokenOutcome::Expired => Err(AuthError::Expired),
            TokenOutcome::Denied => Err(AuthError::Denied),
            TokenOutcome::Refused { code } => Err(AuthError::Auth { code }),
            TokenOutcome::Empty => Err(AuthError::UnexpectedResponse),
        },
    }
}

} // verus!
