//! The values that the authorization server sends and the caller displays.

use vstd::prelude::*;
use crate::error::text_of;

verus! {

/// The answer to a device code request. It does not change once received, and
/// `device_code` loses its worth after `expires_in` seconds.
#[derive(Debug, PartialEq, Eq)]
pub struct DeviceCodeResponse {
    /// Opaque; sent back to the server and never shown to the user.
    pub device_code: String,
    /// The short code that the user types in.
    pub user_code: String,
    /// Where the user goes to type it in.
    pub verification_uri: String,
    /// Seconds until `device_code` stops being valid.
    pub expires_in: u64,
    /// The least number of seconds the server allows between two polls.
    pub interval: u64,
}

/// The mathematical content of a [`DeviceCodeResponse`].
pub struct DeviceCodeView {
    pub device_code: Seq<char>,
    pub user_code: Seq<char>,
    pub verification_uri: Seq<char>,
    pub expires_in: u64,
    pub interval: u64,
}

impl View for DeviceCodeResponse {
    type V = DeviceCodeView;

    open spec fn view(&self) -> DeviceCodeView {
        DeviceCodeView {
            device_code: self.device_code@,
            user_code: self.user_code@,
            verification_uri: self.verification_uri@,
            expires_in: self.expires_in,
            interval: self.interval,
        }
    }
}

impl Clone for DeviceCodeResponse {
    fn clone(&self) -> (copy: DeviceCodeResponse)
        ensures
            copy@ == self@,
    {
        DeviceCodeResponse {
            device_code: self.device_code.clone(),
            user_code: self.user_code.clone(),
            verification_uri: self.verification_uri.clone(),
            expires_in: self.expires_in,
            interval: self.interval,
        }
    }
}

/// The answer to a token exchange: a token on success, an error code while
/// the user has not approved or after the attempt has failed. A server that
/// keeps to the protocol fills exactly one of the two.
#[derive(Debug, PartialEq, Eq)]
pub struct AccessTokenResponse {
    pub access_token: Option<String>,
    pub token_type: Option<String>,
    pub scope: Option<String>,
    pub error: Option<String>,
    pub error_description: Option<String>,
}

/// The mathematical content of an [`AccessTokenResponse`].
pub struct AccessTokenView {
    pub access_token: Option<Seq<char>>,
    pub token_type: Option<Seq<char>>,
    pub scope: Option<Seq<char>>,
    pub error: Option<Seq<char>>,
    pub error_description: Option<Seq<char>>,
}

impl View for AccessTokenResponse {
    type V = AccessTokenView;

    open spec fn view(&self) -> AccessTokenView {
        AccessTokenView {
            access_token: text_of(self.access_token),
            token_type: text_of(self.token_type),
            scope: text_of(self.scope),
            error: text_of(self.error),
            error_description: text_of(self.error_description),
        }
    }
}

fn clone_text(text: &Option<String>) -> (copy: Option<String>)
    ensures
        text_of(copy) == text_of(*text),
{
    match text {
        Some(s) => Some(s.clone()),
        None => None,
    }
}

impl Clone for AccessTokenResponse {
    fn clone(&self) -> (copy: AccessTokenResponse)
        ensures
            copy@ == self@,
    {
        AccessTokenResponse {
            access_token: clone_text(&self.access_token),
            token_type: clone_text(&self.token_type),
            scope: clone_text(&self.scope),
            error: clone_text(&self.error),
            error_description: clone_text(&self.error_description),
        }
    }
}

/// What the user interface gets to see of a [`DeviceCodeResponse`].
#[derive(Debug, PartialEq, Eq)]
pub struct AuthFlowState {
    pub user_code: String,
    pub verification_uri: String,
    pub device_code: String,
    pub interval: u64,
}

/// The mathematical content of an [`AuthFlowState`].
pub struct AuthFlowView {
    pub user_code: Seq<char>,
    pub verification_uri: Seq<char>,
    pub device_code: Seq<char>,
    pub interval: u64,
}

impl View for AuthFlowState {
    type V = AuthFlowView;

    open spec fn view(&self) -> AuthFlowView {
        AuthFlowView {
            user_code: self.user_code@,
            verification_uri: self.verification_uri@,
            device_code: self.device_code@,
            interval: self.interval,
        }
    }
}

impl Clone for AuthFlowState {
    fn clone(&self) -> (copy: AuthFlowState)
        ensures
            copy@ == self@,
    {
        AuthFlowState {
            user_code: self.user_code.clone(),
            verification_uri: self.verification_uri.clone(),
            device_code: self.device_code.clone(),
            interval: self.interval,
        }
    }
}

/// The part of a device code answer that the user interface shows.
pub open spec fn flow_state_of(response: DeviceCodeView) -> AuthFlowView {
    AuthFlowView {
        user_code: response.user_code,
        verification_uri: response.verification_uri,
        device_code: response.device_code,
        interval: response.interval,
    }
}

impl AuthFlowState {
    /// Keeps the four fields that the user interface needs and drops the
    /// lifetime of the device code.
    pub fn from_response(response: DeviceCodeResponse) -> (state: AuthFlowState)
        ensures
            state@ == flow_state_of(response@),
    {
        AuthFlowState {
            user_code: response.user_code,
            verification_uri: response.verification_uri,
            device_code: response.device_code,
            interval: response.interval,
        }
    }
}

} // verus!
