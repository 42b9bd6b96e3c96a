//! Device authorization grant for a native client, and the short-lived local
//! page that shows the granted token to the operator.
//!
//! Nothing here touches the network or the clock. Each operation is a decision
//! function: the caller sends what the library describes, reports what came
//! back, and is told what to do next.
//!
//! - [`device_flow`]: the device code request and the single token exchange.
//! - [`poll`]: the wait for the user's approval, as a state machine.
//! - [`server`]: the token display and its shutdown.
//! - [`page`], [`escape`]: the pages and the escaping of the token in them.
//! - [`model`], [`error`]: the values that are passed around.

pub mod device_flow;
pub mod error;
pub mod escape;
pub mod model;
pub mod page;
pub mod poll;
pub mod server;
pub mod text;

pub use device_flow::{
    classify, device_code_request, is_success, request_device_code, request_token, token_request,
    DeviceCodeEvent, DeviceCodeStep, FlowConfig, FormRequest, TokenOutcome, TokenReply,
};
pub use error::AuthError;
pub use escape::html_escape;
pub use model::{AccessTokenResponse, AuthFlowState, DeviceCodeResponse};
pub use page::{get_close_page, get_token_page};
pub use poll::{poll_for_token, PollAction, PollEvent, PollPhase, TokenPoll};
pub use server::{
    bind_address, server_url, start_token_server, Reply, Route, ServerPhase, ServerState,
    TokenServer, AUTH_SERVER_PORT,
};
