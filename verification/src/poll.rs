//! Polling the token endpoint until the user has approved or the attempt has
//! failed.
//!
//! The wait is a state machine. The caller performs the action it is handed
//! (sleeps, or sends the token request), reports the event that follows, and
//! gets the next action. The machine never asks for a request once it has
//! finished, so a device code is not used again after its flow has ended.

use vstd::prelude::*;
use crate::device_flow::{
    classify, meaning, token_form, token_request, token_result, FlowConfig, FlowConfigView,
    FormRequest, FormRequestView, TokenOutcome, TokenOutcomeView, TokenReply, TokenReplyView,
};
use crate::error::{outcome_of, AuthError, AuthErrorView};

verus! {

/// The seconds that are added to one wait after the server has said
/// `slow_down`.
pub const SLOW_DOWN_EXTRA_SECS: u64 = 5;

/// Where a poll stands.
#[derive(Debug, PartialEq, Eq)]
pub enum PollPhase {
    /// The poll interval is running; a request follows it.
    Waiting,
    /// The extra wait after `slow_down` is running; the poll interval follows.
    BackingOff,
    /// A token request is on its way.
    Exchanging,
    /// The poll is over, with this result.
    Finished(Result<String, AuthError>),
}

/// The mathematical content of a [`PollPhase`].
pub enum PollPhaseView {
    Waiting,
    BackingOff,
    Exchanging,
    Finished(Result<Seq<char>, AuthErrorView>),
}

impl View for PollPhase {
    type V = PollPhaseView;

    open spec fn view(&self) -> PollPhaseView {
        match *self {
            PollPhase::Waiting => PollPhaseView::Waiting,
            PollPhase::BackingOff => PollPhaseView::BackingOff,
            PollPhase::Exchanging => PollPhaseView::Exchanging,
            PollPhase::Finished(result) => PollPhaseView::Finished(outcome_of(result)),
        }
    }
}

/// What the caller reports to a poll.
#[derive(Debug, PartialEq, Eq)]
pub enum PollEvent {
    /// The sleep that was asked for is over.
    Woke,
    /// The token request that was asked for has been answered, or has failed.
    Reply(TokenReply),
}

/// The mathematical content of a [`PollEvent`].
pub enum PollEventView {
    Woke,
    Reply(TokenReplyView),
}

impl View for PollEvent {
    type V = PollEventView;

    open spec fn view(&self) -> PollEventView {
        match *self {
            PollEvent::Woke => PollEventView::Woke,
            PollEvent::Reply(reply) => PollEventView::Reply(reply@),
        }
    }
}

/// What the caller of a poll does next.
#[derive(Debug, PartialEq, Eq)]
pub enum PollAction {
    /// Sleep for this many seconds, then report [`PollEvent::Woke`].
    Sleep { seconds: u64 },
    /// Send this request, then report what came of it as
    /// [`PollEvent::Reply`].
    Exchange(FormRequest),
    /// Nothing more: the poll is over, with this result.
    Done(Result<String, AuthError>),
}

/// The mathematical content of a [`PollAction`].
pub enum PollActionView {
    Sleep { seconds: u64 },
    Exchange(FormRequestView),
    Done(Result<Seq<char>, AuthErrorView>),
}

impl View for PollAction {
    type V = PollActionView;

    open spec fn view(&self) -> PollActionView {
        match *self {
            PollAction::Sleep { seconds } => PollActionView::Sleep { seconds },
            PollAction::Exchange(request) => PollActionView::Exchange(request@),
            PollAction::Done(result) => PollActionView::Done(outcome_of(result)),
        }
    }
}

/// A poll of the token endpoint for one device code.
#[derive(Debug, PartialEq, Eq)]
pub struct TokenPoll {
    config: FlowConfig,
    device_code: String,
    interval: u64,
    phase: PollPhase,
}

/// The mathematical content of a [`TokenPoll`].
pub struct TokenPollView {
    pub config: FlowConfigView,
    pub device_code: Seq<char>,
    pub interval: u64,
    pub phase: PollPhaseView,
}

impl View for TokenPoll {
    type V = TokenPollView;

    closed spec fn view(&self) -> TokenPollView {
        TokenPollView {
            config: self.config@,
            device_code: self.device_code@,
            interval: self.interval,
            phase: self.phase@,
        }
    }
}

/// A poll as it starts out: waiting for the first interval to pass.
pub open spec fn fresh_poll(
    config: FlowConfigView,
    device_code: Seq<char>,
    interval: u64,
) -> TokenPollView {
    TokenPollView { config, device_code, interval, phase: PollPhaseView::Waiting }
}

/// The same poll in another phase.
pub open spec fn in_phase(poll: TokenPollView, phase: PollPhaseView) -> TokenPollView {
    TokenPollView {
        config: poll.config,
        device_code: poll.device_code,
        interval: poll.interval,
        phase,
    }
}

/// The phase that follows an answered token request.
///
/// A token ends the poll with success. `authorization_pending` is the steady
/// state while the user has not approved: the poll goes back to waiting, and
/// so it does on an answer that holds neither token nor error. `slow_down`
/// puts the extra wait before the next interval. Every other error code, a
/// body that did not decode and a request that got no response end the poll
/// with the matching failure.
pub open spec fn phase_after_reply(reply: TokenReplyView) -> PollPhaseView {
    match reply {
        TokenReplyView::Unreachable { detail } => PollPhaseView::Finished(
            Err(AuthErrorView::Network { detail }),
        ),
        TokenReplyView::Malformed { detail } => PollPhaseView::Finished(
            Err(AuthErrorView::Decode { detail }),
        ),
        TokenReplyView::Decoded(response) => match meaning(response) {
            TokenOutcomeView::Granted { token } => PollPhaseView::Finished(Ok(token)),
            TokenOutcomeView::Pending => PollPhaseView::Waiting,
            TokenOutcomeView::Empty => PollPhaseView::Waiting,
            TokenOutcomeView::SlowDown => PollPhaseView::BackingOff,
            TokenOutcomeView::Expired => PollPhaseView::Finished(Err(AuthErrorView::Expired)),
            TokenOutcomeView::Denied => PollPhaseView::Finished(Err(AuthErrorView::Denied)),
            TokenOutcomeView::Refused { code } => PollPhaseView::Finished(
                Err(AuthErrorView::Auth { code }),
            ),
        },
    }
}

/// The phase that follows `phase` on `event`. An event that the phase does
/// not wait for changes nothing.
pub open spec fn next_phase(phase: PollPhaseView, event: PollEventView) -> PollPhaseView {
    match (phase, event) {
        (PollPhaseView::Waiting, PollEventView::Woke) => PollPhaseView::Exchanging,
        (PollPhaseView::BackingOff, PollEventView::Woke) => PollPhaseView::Waiting,
        (PollPhaseView::Exchanging, PollEventView::Reply(reply)) => phase_after_reply(reply),
        _ => phase,
    }
}

/// The poll that a step leaves behind: the phase moves on, everything else
/// stays.
pub open spec fn poll_after(poll: TokenPollView, event: PollEventView) -> TokenPollView {
    in_phase(poll, next_phase(poll.phase, event))
}

/// What the caller of `poll` has to do now: sleep the interval or the extra
/// wait, send the token request for the poll's device code, or take the
/// result.
pub open spec fn action_of(poll: TokenPollView) -> PollActionView {
    match poll.phase {
        PollPhaseView::Waiting => PollActionView::Sleep { seconds: poll.interval },
        PollPhaseView::BackingOff => PollActionView::Sleep { seconds: SLOW_DOWN_EXTRA_SECS },
        PollPhaseView::Exchanging => PollActionView::Exchange(
            token_form(poll.config, poll.device_code),
        ),
        PollPhaseView::Finished(result) => PollActionView::Done(result),
    }
}

fn phase_after(reply: TokenReply) -> (phase: PollPhase)
    ensures
        phase@ == phase_after_reply(reply@),
{
    match reply {
        TokenReply::Unreachable { detail } => PollPhase::Finished(
            Err(AuthError::Network { detail }),
        ),
        TokenReply::Malformed { detail } => PollPhase::Finished(Err(AuthError::Decode { detail })),
        TokenReply::Decoded(response) => match classify(response) {
            TokenOutcome::Granted { token } => PollPhase::Finished(Ok(token)),
            TokenOutcome::Pending => PollPhase::Waiting,
            TokenOutcome::Empty => PollPhase::Waiting,
            TokenOutcome::SlowDown => PollPhase::BackingOff,
            TokenOutcome::Expired => PollPhase::Finished(Err(AuthError::Expired)),
            TokenOutcome::Denied => PollPhase::Finished(Err(AuthError::Denied)),
            TokenOutcome::Refused { code } => PollPhase::Finished(Err(AuthError::Auth { code })),
        },
    }
}

fn clone_outcome(result: &Result<String, AuthError>) -> (copy: Result<String, AuthError>)
    ensures
        outcome_of(copy) == outcome_of(*result),
{
    match result {
        Ok(token) => Ok(token.clone()),
        Err(e) => Err(e.clone()),
    }
}

impl TokenPoll {
    /// A poll for `device_code` that leaves `interval` seconds between two
    /// requests. It starts by waiting: the first request comes after the
    /// first interval.
    pub fn new(config: FlowConfig, device_code: String, interval: u64) -> (poll: TokenPoll)
        ensures
            poll@ == fresh_poll(config@, device_code@, interval),
    {
        TokenPoll { config, device_code, interval, phase: PollPhase::Waiting }
    }

    /// The device code that is polled for.
    pub fn device_code(&self) -> (code: &str)
        ensures
            code@ == self@.device_code,
    {
        self.device_code.as_str()
    }

    /// The seconds between two requests.
    pub fn interval(&self) -> (seconds: u64)
        ensures
            seconds == self@.interval,
    {
        self.interval
    }

    /// Whether the poll is over.
    pub fn is_finished(&self) -> (finished: bool)
        ensures
            finished == (self@.phase is Finished),
    {
        matches!(self.phase, PollPhase::Finished(_))
    }

    /// What the caller has to do now.
    pub fn action(&self) -> (action: PollAction)
        ensures
            action@ == action_of(self@),
    {
        match &self.phase {
            PollPhase::Waiting => PollAction::Sleep { seconds: self.interval },
            PollPhase::BackingOff => PollAction::Sleep { seconds: SLOW_DOWN_EXTRA_SECS },
            PollPhase::Exchanging => PollAction::Exchange(
                token_request(&self.config, self.device_code.as_str()),
            ),
            PollPhase::Finished(result) => PollAction::Done(clone_outcome(result)),
        }
    }
}

/// Moves a poll one step: takes the event that followed the last action and
/// says what to do next.
///
/// After a sleep comes the request, or, after the extra wait, the interval.
/// After an answered request the poll ends with the token or with a failure,
/// or goes back to waiting. A finished poll stays finished, and an event that
/// the poll does not wait for leaves it as it is.
pub fn poll_for_token(poll: &mut TokenPoll, event: PollEvent) -> (action: PollAction)
    ensures
        final(poll)@ == poll_after(old(poll)@, event@),
        action@ == action_of(final(poll)@),
{
    match event {
        PollEvent::Woke => {
            if matches!(poll.phase, PollPhase::Waiting) {
                poll.phase = PollPhase::Exchanging;
            } else if matches!(poll.phase, PollPhase::BackingOff) {
                poll.phase = PollPhase::Waiting;
            }
        },
        PollEvent::Reply(reply) => {
            if matches!(poll.phase, PollPhase::Exchanging) {
                poll.phase = phase_after(reply);
            }
        },
    }
    poll.action()
}

/// What a caller lives through who drives a poll against a server whose answers
/// are known in advance.
pub struct PollRun {
    /// The result of the poll; `None` if the answers ran out before it ended.
    pub result: Option<Result<Seq<char>, AuthErrorView>>,
    /// The token requests that were sent, in order.
    pub requests: Seq<FormRequestView>,
    /// How many seconds were slept in all.
    pub slept: nat,
}

/// How many sleeps a phase is away from the next request.
pub open spec fn sleeps_ahead(phase: PollPhaseView) -> nat {
    match phase {
        PollPhaseView::BackingOff => 2,
        PollPhaseView::Waiting => 1,
        _ => 0,
    }
}

/// Drives `poll` with `replies` as the answers to its requests, one after the
/// other: each action is performed and the event that it leads to is
/// reported, until the poll is over or a request finds no answer left.
pub open spec fn run(poll: TokenPollView, replies: Seq<TokenReplyView>) -> PollRun
    decreases replies.len(), sleeps_ahead(poll.phase),
{
    match action_of(poll) {
        PollActionView::Done(result) => PollRun {
            result: Some(result),
            requests: Seq::empty(),
            slept: 0,
        },
        PollActionView::Sleep { seconds } => {
            let rest = run(poll_after(poll, PollEventView::Woke), replies);
            PollRun {
                result: rest.result,
                requests: rest.requests,
                slept: (rest.slept + seconds) as nat,
            }
        },
        PollActionView::Exchange(request) => if replies.len() == 0 {
            PollRun { result: None, requests: Seq::empty(), slept: 0 }
        } else {
            let rest = run(
                poll_after(poll, PollEventView::Reply(replies[0])),
                replies.drop_first(),
            );
            PollRun {
                result: rest.result,
                requests: seq![request] + rest.requests,
                slept: rest.slept,
            }
        },
    }
}

/// Whether a reply is a decoded answer that says `outcome`.
pub open spec fn says(reply: TokenReplyView, outcome: TokenOutcomeView) -> bool {
    reply matches TokenReplyView::Decoded(response) && meaning(response) == outcome
}

/// A poll whose server says `authorization_pending` `n` times and then hands
/// out a token ends with that token, after exactly `n + 1` requests, each of
/// them the token request for the device code, and a full interval of sleep
/// before each of them. What the server would have said after the token is
/// never asked for.
pub proof fn law_pending_then_granted(
    config: FlowConfigView,
    device_code: Seq<char>,
    interval: u64,
    replies: Seq<TokenReplyView>,
    n: nat,
    token: Seq<char>,
)
    requires
        n < replies.len(),
        forall|i: int| 0 <= i < n ==> says(#[trigger] replies[i], TokenOutcomeView::Pending),
        says(replies[n as int], TokenOutcomeView::Granted { token }),
    ensures
        run(fresh_poll(config, device_code, interval), replies) == (PollRun {
            result: Some(Ok(token)),
            requests: Seq::new(n + 1, |i: int| token_form(config, device_code)),
            slept: ((n + 1) * interval) as nat,
        }),
    decreases n,
{
    let poll = fresh_poll(config, device_code, interval);
    let exchanging = in_phase(poll, PollPhaseView::Exchanging);
    let form = token_form(config, device_code);
    let rest = replies.drop_first();
    let here = run(exchanging, replies);
    let after = run(poll_after(exchanging, PollEventView::Reply(replies[0])), rest);
    assert(poll_after(poll, PollEventView::Woke) == exchanging);
    assert(run(poll, replies) == (PollRun {
        result: here.result,
        requests: here.requests,
        slept: (here.slept + interval) as nat,
    }));
    assert(here == (PollRun {
        result: after.result,
        requests: seq![form] + after.requests,
        slept: after.slept,
    }));
    if n == 0 {
        assert(after == (PollRun { result: Some(Ok(token)), requests: Seq::empty(), slept: 0 }));
        assert(seq![form] + Seq::<FormRequestView>::empty() =~= Seq::new(1, |i: int| form));
        assert((n + 1) * interval == interval) by (nonlinear_arith)
            requires
                n == 0,
        ;
    } else {
        assert(says(replies[0], TokenOutcomeView::Pending));
        assert(poll_after(exchanging, PollEventView::Reply(replies[0])) == poll);
        assert forall|i: int| 0 <= i < n - 1 implies says(
            #[trigger] rest[i],
            TokenOutcomeView::Pending,
        ) by {
            assert(rest[i] == replies[i + 1]);
        }
        assert(rest[n - 1] == replies[n as int]);
        law_pending_then_granted(config, device_code, interval, rest, (n - 1) as nat, token);
        assert(seq![form] + Seq::new(n, |i: int| form) =~= Seq::new(n + 1, |i: int| form));
        assert((n + 1) * interval == (n - 1 + 1) * interval + interval) by (nonlinear_arith);
    }
}

/// After `slow_down` the poll sleeps the extra five seconds and then the
/// interval before it sends its next request, and goes on from there as it
/// would have without the delay.
pub proof fn law_slow_down_adds_delay(poll: TokenPollView, replies: Seq<TokenReplyView>)
    requires
        replies.len() > 0,
        says(replies[0], TokenOutcomeView::SlowDown),
    ensures
        ({
            let exchanging = in_phase(poll, PollPhaseView::Exchanging);
            let onward = run(exchanging, replies.drop_first());
            run(exchanging, replies) == (PollRun {
                result: onward.result,
                requests: seq![token_form(poll.config, poll.device_code)] + onward.requests,
                slept: (onward.slept + poll.interval + SLOW_DOWN_EXTRA_SECS) as nat,
            })
        }),
{
    let rest = replies.drop_first();
    let exchanging = in_phase(poll, PollPhaseView::Exchanging);
    let backing_off = in_phase(poll, PollPhaseView::BackingOff);
    let waiting = in_phase(poll, PollPhaseView::Waiting);
    assert(poll_after(exchanging, PollEventView::Reply(replies[0])) == backing_off);
    assert(poll_after(backing_off, PollEventView::Woke) == waiting);
    assert(poll_after(waiting, PollEventView::Woke) == exchanging);
    assert(run(backing_off, rest).slept == run(waiting, rest).slept + SLOW_DOWN_EXTRA_SECS);
    assert(run(waiting, rest).slept == run(exchanging, rest).slept + poll.interval);
}

/// An answer that ends the poll ends it at once: the request that was
/// answered so is the last one, and nothing is slept after it, whatever the
/// server would have said to another request.
pub proof fn law_final_answer_stops(
    poll: TokenPollView,
    replies: Seq<TokenReplyView>,
    result: Result<Seq<char>, AuthErrorView>,
)
    requires
        replies.len() > 0,
        phase_after_reply(replies[0]) == PollPhaseView::Finished(result),
    ensures
        run(in_phase(poll, PollPhaseView::Exchanging), replies) == (PollRun {
            result: Some(result),
            requests: seq![token_form(poll.config, poll.device_code)],
            slept: 0,
        }),
        run(in_phase(poll, PollPhaseView::Waiting), replies) == (PollRun {
            result: Some(result),
            requests: seq![token_form(poll.config, poll.device_code)],
            slept: poll.interval as nat,
        }),
{
    let rest = replies.drop_first();
    let form = token_form(poll.config, poll.device_code);
    let exchanging = in_phase(poll, PollPhaseView::Exchanging);
    let waiting = in_phase(poll, PollPhaseView::Waiting);
    let finished = in_phase(poll, PollPhaseView::Finished(result));
    assert(poll_after(exchanging, PollEventView::Reply(replies[0])) == finished);
    assert(poll_after(waiting, PollEventView::Woke) == exchanging);
    assert(run(finished, rest).requests == Seq::<FormRequestView>::empty());
    assert(seq![form] + Seq::<FormRequestView>::empty() =~= seq![form]);
    assert(run(waiting, replies).slept == run(exchanging, replies).slept + poll.interval);
}

/// `expired_token` ends the poll at once with [`AuthError::Expired`], and no
/// request follows the one that was answered so.
pub proof fn law_expired_stops(poll: TokenPollView, replies: Seq<TokenReplyView>)
    requires
        replies.len() > 0,
        says(replies[0], TokenOutcomeView::Expired),
    ensures
        run(in_phase(poll, PollPhaseView::Exchanging), replies) == (PollRun {
            result: Some(Err(AuthErrorView::Expired)),
            requests: seq![token_form(poll.config, poll.device_code)],
            slept: 0,
        }),
        run(in_phase(poll, PollPhaseView::Waiting), replies) == (PollRun {
            result: Some(Err(AuthErrorView::Expired)),
            requests: seq![token_form(poll.config, poll.device_code)],
            slept: poll.interval as nat,
        }),
{
    law_final_answer_stops(poll, replies, Err(AuthErrorView::Expired));
}

/// A finished poll stays as it is whatever is reported to it, and the only
/// action it hands out is to take its result: it asks for no request and for
/// no sleep.
pub proof fn law_finished_is_final(poll: TokenPollView, event: PollEventView)
    requires
        poll.phase is Finished,
    ensures
        poll_after(poll, event) == poll,
        action_of(poll) == PollActionView::Done(poll.phase->Finished_0),
{
}

/// A poll sends at most one request for each answer that the server has to
/// give, every one of them the token request for its device code, and it
/// stops short of a result only when the answers have run out.
pub proof fn law_one_request_per_reply(poll: TokenPollView, replies: Seq<TokenReplyView>)
    ensures
        run(poll, replies).requests.len() <= replies.len(),
        run(poll, replies).result is None ==> run(poll, replies).requests.len() == replies.len(),
        forall|i: int|
            0 <= i < run(poll, replies).requests.len() ==> #[trigger] run(
                poll,
                replies,
            ).requests[i] == token_form(poll.config, poll.device_code),
    decreases replies.len(), sleeps_ahead(poll.phase),
{
    match action_of(poll) {
        PollActionView::Done(_) => {},
        PollActionView::Sleep { seconds } => {
            law_one_request_per_reply(poll_after(poll, PollEventView::Woke), replies);
        },
        PollActionView::Exchange(_) => {
            if replies.len() > 0 {
                law_one_request_per_reply(
                    poll_after(poll, PollEventView::Reply(replies[0])),
                    replies.drop_first(),
                );
            }
        },
    }
}

/// Polling and the single exchange read an answer alike: whenever an answer
/// ends a poll, the poll's result is what the single exchange makes of the
/// same answer. They part only where the poll goes on waiting.
pub proof fn law_poll_agrees_with_single_exchange(reply: TokenReplyView)
    ensures
        match phase_after_reply(reply) {
            PollPhaseView::Finished(result) => result == token_result(reply),
            _ => says(reply, TokenOutcomeView::Pending) || says(reply, TokenOutcomeView::SlowDown)
                || says(reply, TokenOutcomeView::Empty),
        },
{
}

} // verus!
