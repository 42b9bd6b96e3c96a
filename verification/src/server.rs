//! The token display: a local page that shows the token once and goes away
//! when the operator asks for it.
//!
//! The caller binds the address, runs the HTTP server and awaits the shutdown
//! signal. What a request does to the server, and what it is answered with,
//! is decided here.

use vstd::prelude::*;
use vstd::string::StringExecFns;
use tokio::sync::oneshot::error::RecvError;
use tokio::sync::oneshot::{channel, Receiver, Sender};
use crate::error::{text_of, AuthError, AuthErrorView};
use crate::page::{get_close_page, get_token_page, token_page, CLOSE_PAGE};
use crate::text::{decimal, push_decimal};

verus! {

/// The sending half of tokio's one-shot channel. It is carried and handed
/// over, never looked into.
#[verifier::external_type_specification]
#[verifier::external_body]
#[verifier::reject_recursive_types(T)]
pub struct ExSender<T>(Sender<T>);

/// The receiving half of tokio's one-shot channel. It is handed to the caller,
/// who awaits it; nothing here looks into it.
#[verifier::external_type_specification]
#[verifier::external_body]
#[verifier::reject_recursive_types(T)]
pub struct ExReceiver<T>(Receiver<T>);

/// What awaiting a [`Receiver`] yields when its sender is gone without having
/// sent. It is named here because the receiver's type speaks of it.
#[verifier::external_type_specification]
#[verifier::external_body]
pub struct ExRecvError(RecvError);

/// `tokio::sync::oneshot::channel` makes a new channel and returns its two
/// halves. Nothing is claimed of them.
pub assume_specification<T>[ channel::<T> ]() -> (halves: (Sender<T>, Receiver<T>))
;

/// `tokio::sync::oneshot::Sender::send` uses the sender up. It returns at
/// once; where the receiver is gone it hands the value back as the error.
pub assume_specification<T>[ Sender::<T>::send ](tx: Sender<T>, t: T) -> (sent: Result<(), T>)
    ensures
        sent matches Err(back) ==> back == t,
;

/// The port on which the token page is served unless the caller picks
/// another.
pub const AUTH_SERVER_PORT: u16 = 42847;

/// The only host the token page is served on: this machine.
pub const LOCAL_HOST: &'static str = "127.0.0.1";

/// The path of the page that shows the token.
pub const INDEX_PATH: &'static str = "/";

/// The path that closes the server.
pub const CLOSE_PATH: &'static str = "/close";

/// The status of every page that the server hands out.
pub const STATUS_OK: u16 = 200;

/// The address to bind for `port`.
pub open spec fn address_text(port: u16) -> Seq<char> {
    LOCAL_HOST@ + ":"@ + decimal(port as nat)
}

/// The URL under which the server on `port` is reached.
pub open spec fn url_text(port: u16) -> Seq<char> {
    "http://"@ + address_text(port)
}

/// The address that the caller binds to serve on `port`.
pub fn bind_address(port: u16) -> (address: String)
    ensures
        address@ == address_text(port),
{
    let mut address = LOCAL_HOST.to_owned();
    address.append(":");
    push_decimal(&mut address, port as u64);
    address
}

/// The URL that the caller opens in the operator's browser.
pub fn server_url(port: u16) -> (url: String)
    ensures
        url@ == url_text(port),
{
    let mut url = "http://".to_owned();
    let address = bind_address(port);
    url.append(address.as_str());
    url
}

/// The life of a token display, from the bound address to the end of its task.
/// It only ever moves forward.
#[derive(Debug, Clone, Copy, PartialEq, Eq, Structural)]
pub enum ServerPhase {
    /// The address is bound; the server task has not started.
    Bound,
    /// The server task answers requests.
    Serving,
    /// The shutdown signal has been sent; requests under way are finished.
    ShuttingDown,
    /// The server task has ended.
    Stopped,
}

/// The two routes of the token display.
#[derive(Debug, Clone, Copy, PartialEq, Eq, Structural)]
pub enum Route {
    /// `GET /`: show the token.
    Index,
    /// `GET /close`: close the server.
    Close,
}

/// What happens to a token display.
#[derive(Debug, Clone, Copy, PartialEq, Eq, Structural)]
pub enum ServerEvent {
    /// The server task has been started.
    Spawned,
    /// A request for this route has come in.
    Request(Route),
    /// The server task has finished the requests that were under way and has
    /// ended.
    Drained,
}

/// Whether the shutdown signal is still to be sent in `phase`.
pub open spec fn signal_held(phase: ServerPhase) -> bool {
    phase is Bound || phase is Serving
}

/// The phase that follows `phase` on `event`. The first request to close the
/// server starts the shutdown; what a phase does not wait for changes nothing.
pub open spec fn phase_after(phase: ServerPhase, event: ServerEvent) -> ServerPhase {
    match (phase, event) {
        (ServerPhase::Bound, ServerEvent::Spawned) => ServerPhase::Serving,
        (ServerPhase::Bound, ServerEvent::Request(Route::Close)) => ServerPhase::ShuttingDown,
        (ServerPhase::Serving, ServerEvent::Request(Route::Close)) => ServerPhase::ShuttingDown,
        (ServerPhase::ShuttingDown, ServerEvent::Drained) => ServerPhase::Stopped,
        _ => phase,
    }
}

/// Whether `event` makes a server in `phase` send its shutdown signal.
pub open spec fn sends_signal(phase: ServerPhase, event: ServerEvent) -> bool {
    signal_held(phase) && event == ServerEvent::Request(Route::Close)
}

/// The answer to a request.
#[derive(Debug, PartialEq, Eq)]
pub struct Reply {
    /// The HTTP status.
    pub status: u16,
    /// The HTML page.
    pub body: String,
    /// Whether this request has sent the shutdown signal.
    pub shutdown: bool,
}

/// The body of the page that answers a request for `route`.
pub open spec fn page_body(token: Option<Seq<char>>, route: Route) -> Seq<char> {
    match route {
        Route::Index => token_page(
            match token {
                Some(text) => text,
                None => Seq::empty(),
            },
        ),
        Route::Close => CLOSE_PAGE@,
    }
}

/// What a token display holds: the token to show and, until the first request
/// to close, the signal that stops the server task. Nothing else refers to
/// either.
#[derive(Debug)]
pub struct ServerState {
    access_token: Option<String>,
    shutdown_tx: Option<Sender<()>>,
    phase: ServerPhase,
}

/// The mathematical content of a [`ServerState`]. Whether the signal is still
/// held follows from the phase: see [`signal_held`].
pub struct ServerView {
    pub token: Option<Seq<char>>,
    pub phase: ServerPhase,
}

impl View for ServerState {
    type V = ServerView;

    closed spec fn view(&self) -> ServerView {
        ServerView { token: text_of(self.access_token), phase: self.phase }
    }
}

impl ServerState {
    /// The signal is held exactly as long as the shutdown has not begun.
    #[verifier::type_invariant]
    spec fn signal_matches_phase(self) -> bool {
        self.shutdown_tx is Some <==> signal_held(self.phase)
    }

    /// The shutdown signal, as long as it is held.
    pub closed spec fn signal(&self) -> Option<Sender<()>> {
        self.shutdown_tx
    }

    /// The state of a server whose address is bound: it holds the token and
    /// the signal.
    pub fn new(token: String, shutdown_tx: Sender<()>) -> (state: ServerState)
        ensures
            state@ == (ServerView { token: Some(token@), phase: ServerPhase::Bound }),
            state.signal() == Some(shutdown_tx),
    {
        ServerState {
            access_token: Some(token),
            shutdown_tx: Some(shutdown_tx),
            phase: ServerPhase::Bound,
        }
    }

    /// Where the server stands.
    pub fn phase(&self) -> (phase: ServerPhase)
        ensures
            phase == self@.phase,
    {
        self.phase
    }

    /// Whether the shutdown signal is still to be sent.
    pub fn holds_signal(&self) -> (held: bool)
        ensures
            held == signal_held(self@.phase),
            held == (self.signal() is Some),
    {
        proof {
            use_type_invariant(self);
        }
        self.shutdown_tx.is_some()
    }

    /// Takes note that the server task has been started.
    pub fn spawned(&mut self)
        ensures
            final(self)@ == (ServerView {
                token: old(self)@.token,
                phase: phase_after(old(self)@.phase, ServerEvent::Spawned),
            }),
            final(self).signal() == old(self).signal(),
    {
        proof {
            use_type_invariant(&*self);
        }
        if self.phase == ServerPhase::Bound {
            self.phase = ServerPhase::Serving;
        }
    }

    /// Takes note that the server task has ended after a shutdown.
    pub fn drained(&mut self)
        ensures
            final(self)@ == (ServerView {
                token: old(self)@.token,
                phase: phase_after(old(self)@.phase, ServerEvent::Drained),
            }),
            final(self).signal() == old(self).signal(),
    {
        proof {
            use_type_invariant(&*self);
        }
        if self.phase == ServerPhase::ShuttingDown {
            self.phase = ServerPhase::Stopped;
        }
    }

    /// Answers `GET /` with the page that shows the token. The state is left
    /// as it is, so the page can be asked for again and again.
    pub fn index(&self) -> (reply: Reply)
        ensures
            reply.status == STATUS_OK,
            reply.body@ == page_body(self@.token, Route::Index),
            !reply.shutdown,
    {
        let body = match &self.access_token {
            Some(token) => get_token_page(token.as_str()),
            None => get_token_page(""),
        };
        proof {
            reveal_strlit("");
            assert(""@ =~= Seq::<char>::empty());
        }
        Reply { status: STATUS_OK, body, shutdown: false }
    }

    /// Answers `GET /close`. The first call takes the shutdown signal and
    /// sends it; every later call finds it gone and sends nothing. The
    /// page is the same either way.
    pub fn close(&mut self) -> (reply: Reply)
        ensures
            reply.status == STATUS_OK,
            reply.body@ == page_body(old(self)@.token, Route::Close),
            reply.shutdown == sends_signal(old(self)@.phase, ServerEvent::Request(Route::Close)),
            final(self)@ == (ServerView {
                token: old(self)@.token,
                phase: phase_after(old(self)@.phase, ServerEvent::Request(Route::Close)),
            }),
            final(self).signal() is None,
    {
        let shutdown = match self.take_signal() {
            Some(tx) => {
                // A receiver that is gone has nothing left to stop.
                let _ = tx.send(());
                true
            },
            None => false,
        };
        Reply { status: STATUS_OK, body: get_close_page(), shutdown }
    }

    /// Hands out the shutdown signal if it is still held, and begins the
    /// shutdown. The signal leaves the state for good: whoever asks first
    /// gets it, and nobody after that.
    fn take_signal(&mut self) -> (signal: Option<Sender<()>>)
        ensures
            signal == old(self).signal(),
            signal is Some <==> signal_held(old(self)@.phase),
            final(self).signal() is None,
            final(self)@ == (ServerView {
                token: old(self)@.token,
                phase: phase_after(old(self)@.phase, ServerEvent::Request(Route::Close)),
            }),
    {
        proof {
            use_type_invariant(&*self);
        }
        let after = if self.phase == ServerPhase::Stopped {
            ServerPhase::Stopped
        } else {
            ServerPhase::ShuttingDown
        };
        // The signal and the phase change together: the state is swapped for
        // one without a signal, and the token is put back.
        let mut before = ServerState { access_token: None, shutdown_tx: None, phase: after };
        core::mem::swap(self, &mut before);
        let ServerState { access_token, shutdown_tx, phase: _ } = before;
        self.access_token = access_token;
        shutdown_tx
    }

    /// Answers a request for `route`.
    pub fn handle(&mut self, route: Route) -> (reply: Reply)
        ensures
            reply.status == STATUS_OK,
            reply.body@ == page_body(old(self)@.token, route),
            reply.shutdown == sends_signal(old(self)@.phase, ServerEvent::Request(route)),
            final(self)@ == (ServerView {
                token: old(self)@.token,
                phase: phase_after(old(self)@.phase, ServerEvent::Request(route)),
            }),
            final(self).signal() == (match route {
                Route::Index => old(self).signal(),
                Route::Close => None,
            }),
    {
        match route {
            Route::Index => self.index(),
            Route::Close => self.close(),
        }
    }
}

/// A token display that has been started.
#[derive(Debug)]
pub struct TokenServer {
    /// What the server task holds and answers its requests with.
    pub state: ServerState,
    /// Where the operator finds the page.
    pub url: String,
    /// Completes when the state has sent its shutdown signal: the server
    /// task awaits it and then stops accepting connections.
    pub shutdown: Receiver<()>,
}

/// Decides how the start of a token display for `token` on `port` ends, given
/// how binding the address went: `Ok`, or `Err` with what the system said.
///
/// A bind that failed ends the start with [`AuthError::Bind`]: there is no
/// state to serve and no signal to await, so no server task is started, and
/// no other port is tried. After a bind that worked the caller starts the
/// server task with the state and the receiving end of its shutdown signal,
/// and opens the URL.
pub fn start_token_server(token: String, port: u16, bound: Result<(), String>) -> (started: Result<
    TokenServer,
    AuthError,
>)
    ensures
        match bound {
            Ok(_) => started matches Ok(server) && server.url@ == url_text(port) && server.state@
                == (ServerView { token: Some(token@), phase: ServerPhase::Bound })
                && server.state.signal() is Some,
            Err(detail) => started matches Err(e) && e@ == (AuthErrorView::Bind {
                port,
                detail: detail@,
            }),
        },
{
    match bound {
        Ok(_) => {
            let (shutdown_tx, shutdown_rx) = channel::<()>();
            Ok(
                TokenServer {
                    state: ServerState::new(token, shutdown_tx),
                    url: server_url(port),
                    shutdown: shutdown_rx,
                },
            )
        },
        Err(detail) => Err(AuthError::Bind { port, detail }),
    }
}

/// How far a phase is along the life of the server.
pub open spec fn phase_rank(phase: ServerPhase) -> nat {
    match phase {
        ServerPhase::Bound => 0,
        ServerPhase::Serving => 1,
        ServerPhase::ShuttingDown => 2,
        ServerPhase::Stopped => 3,
    }
}

/// The phase after a run of events.
pub open spec fn phase_after_all(phase: ServerPhase, events: Seq<ServerEvent>) -> ServerPhase
    decreases events.len(),
{
    if events.len() == 0 {
        phase
    } else {
        phase_after_all(phase_after(phase, events[0]), events.drop_first())
    }
}

/// How often the shutdown signal is sent in a run of events.
pub open spec fn signals_sent(phase: ServerPhase, events: Seq<ServerEvent>) -> nat
    decreases events.len(),
{
    if events.len() == 0 {
        0
    } else {
        let here: nat = if sends_signal(phase, events[0]) {
            1
        } else {
            0
        };
        here + signals_sent(phase_after(phase, events[0]), events.drop_first())
    }
}

/// The server only moves forward: no event takes it to an earlier phase, and
/// once the shutdown has begun nothing takes it back to serving.
pub proof fn law_phase_moves_forward(phase: ServerPhase, events: Seq<ServerEvent>)
    ensures
        phase_rank(phase) <= phase_rank(phase_after_all(phase, events)),
        !signal_held(phase) ==> !signal_held(phase_after_all(phase, events)),
    decreases events.len(),
{
    if events.len() > 0 {
        law_phase_moves_forward(phase_after(phase, events[0]), events.drop_first());
    }
}

/// However many requests to close the server come in, and whatever comes
/// between them, the shutdown signal is sent exactly once if it was held and
/// a request to close is among the events, and not at all otherwise. The
/// request that sends it is the first of them.
pub proof fn law_signal_sent_once(phase: ServerPhase, events: Seq<ServerEvent>)
    ensures
        signals_sent(phase, events) == (if signal_held(phase) && events.contains(
            ServerEvent::Request(Route::Close),
        ) {
            1nat
        } else {
            0nat
        }),
        events.contains(ServerEvent::Request(Route::Close)) ==> !signal_held(
            phase_after_all(phase, events),
        ),
    decreases events.len(),
{
    let close = ServerEvent::Request(Route::Close);
    if events.len() > 0 {
        let rest = events.drop_first();
        let next = phase_after(phase, events[0]);
        law_signal_sent_once(next, rest);
        law_phase_moves_forward(next, rest);
        if rest.contains(close) {
            let i = choose|i: int| 0 <= i < rest.len() && rest[i] == close;
            assert(events[i + 1] == close);
        }
        if events.contains(close) && events[0] != close {
            let i = choose|i: int| 0 <= i < events.len() && events[i] == close;
            assert(rest[i - 1] == close);
        }
    }
}

} // verus!
