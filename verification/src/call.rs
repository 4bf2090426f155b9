//! The decisions of one append call.
//!
//! A call asks for a token, sends one request that carries it, and hands the
//! server's stream of responses to the caller. The work itself (asking the
//! credential provider, talking to the server) is done by whoever drives the
//! call: after each piece of work the driver reports what came of it as a
//! `CallEvent`, and is told by a `CallAction` what to do next.

use crate::auth::{
    authorization, metadata_text, new_request, request_metadata, AuthenticatedRequest,
    TokenOutcome, TokenOutcomeView,
};
use crate::error::{Error, ErrorView, Status, StatusView};
use crate::request::{append_rows_request, rows_view, AppendRowsRequest, AppendRowsRequestView};
use crate::schema::TableDescriptor;
use crate::stream_name::StreamName;
use crate::API_SCOPE;
use vstd::prelude::*;

verus! {

/// Where a call stands.
#[derive(Clone, Debug, PartialEq, Eq)]
pub enum CallState {
    /// A token has been asked for. The requests wait for it.
    AwaitingToken(Vec<AppendRowsRequest>),
    /// The requests have gone out and the server has not answered yet.
    AwaitingResponse,
    /// The call is over: it failed, or its responses are with the caller.
    Closed,
}

/// A `CallState` as a mathematical value.
pub enum CallStateView {
    AwaitingToken(Seq<AppendRowsRequestView>),
    AwaitingResponse,
    Closed,
}

/// Requests as mathematical values.
pub open spec fn requests_view(requests: Seq<AppendRowsRequest>) -> Seq<AppendRowsRequestView> {
    requests.map_values(|request: AppendRowsRequest| request@)
}

impl View for CallState {
    type V = CallStateView;

    open spec fn view(&self) -> CallStateView {
        match self {
            CallState::AwaitingToken(requests) => CallStateView::AwaitingToken(
                requests_view(requests@),
            ),
            CallState::AwaitingResponse => CallStateView::AwaitingResponse,
            CallState::Closed => CallStateView::Closed,
        }
    }
}

/// What came of the work that a call asked for.
#[derive(Clone, Debug, PartialEq, Eq)]
pub enum CallEvent {
    /// The credential provider answered.
    Token(TokenOutcome),
    /// The server accepted the call and opened its stream of responses.
    Accepted,
    /// The server refused the call before it sent a response.
    Rejected(Status),
    /// The connection failed before the server sent a response; the text is
    /// the transport's own account of it.
    TransportFailed(String),
}

/// A `CallEvent` as a mathematical value.
pub enum CallEventView {
    Token(TokenOutcomeView),
    Accepted,
    Rejected(StatusView),
    TransportFailed(Seq<char>),
}

impl View for CallEvent {
    type V = CallEventView;

    open spec fn view(&self) -> CallEventView {
        match self {
            CallEvent::Token(outcome) => CallEventView::Token(outcome@),
            CallEvent::Accepted => CallEventView::Accepted,
            CallEvent::Rejected(status) => CallEventView::Rejected(status@),
            CallEvent::TransportFailed(text) => CallEventView::TransportFailed(text@),
        }
    }
}

/// What the driver of a call is to do next.
#[derive(Clone, Debug, PartialEq, Eq)]
pub enum CallAction {
    /// Ask the credential provider for a token for this scope.
    FetchToken(&'static str),
    /// Send these requests, with this metadata, and close the outbound side.
    Send(AuthenticatedRequest<Vec<AppendRowsRequest>>),
    /// Hand the server's stream of responses to the caller as it is.
    Deliver,
    /// Give the caller this error.
    Fail(Error),
    /// Nothing: the event answered no work that the call was waiting for.
    Nothing,
}

/// A `CallAction` as a mathematical value.
pub enum CallActionView {
    FetchToken(Seq<char>),
    Send { metadata: Seq<(Seq<char>, Seq<char>)>, requests: Seq<AppendRowsRequestView> },
    Deliver,
    Fail(ErrorView),
    Nothing,
}

impl View for CallAction {
    type V = CallActionView;

    open spec fn view(&self) -> CallActionView {
        match self {
            CallAction::FetchToken(scope) => CallActionView::FetchToken(scope@),
            CallAction::Send(request) => CallActionView::Send {
                metadata: request.metadata_view(),
                requests: requests_view(request.payload@),
            },
            CallAction::Deliver => CallActionView::Deliver,
            CallAction::Fail(error) => CallActionView::Fail(error@),
            CallAction::Nothing => CallActionView::Nothing,
        }
    }
}

/// One step of a call: the state after `event`, and what to do next.
///
/// The answer of the credential provider decides whether anything is sent:
/// with a token that can be written as metadata the requests go out under
/// it, and otherwise the call fails and is over. What comes of sending ends
/// the call either way: the server's stream goes to the caller, or the
/// server's or the transport's error does. An event that answers nothing the
/// call waits for changes nothing.
pub open spec fn step(state: CallStateView, event: CallEventView) -> (CallStateView, CallActionView) {
    match (state, event) {
        (CallStateView::AwaitingToken(requests), CallEventView::Token(outcome)) => {
            match request_metadata(outcome) {
                Ok(metadata) => (
                    CallStateView::AwaitingResponse,
                    CallActionView::Send { metadata, requests },
                ),
                Err(error) => (CallStateView::Closed, CallActionView::Fail(error)),
            }
        },
        (CallStateView::AwaitingResponse, CallEventView::Accepted) => (
            CallStateView::Closed,
            CallActionView::Deliver,
        ),
        (CallStateView::AwaitingResponse, CallEventView::Rejected(status)) => (
            CallStateView::Closed,
            CallActionView::Fail(ErrorView::Status(status)),
        ),
        (CallStateView::AwaitingResponse, CallEventView::TransportFailed(text)) => (
            CallStateView::Closed,
            CallActionView::Fail(ErrorView::Transport(text)),
        ),
        _ => (state, CallActionView::Nothing),
    }
}

impl CallState {
    /// Begins a call that appends `serialized_rows` to `stream_name`. The
    /// call holds one request, and its first need is a token for the
    /// service's scope: none is kept from one call to the next.
    pub fn begin(
        stream_name: &StreamName,
        table_descriptor: &TableDescriptor,
        serialized_rows: Vec<Vec<u8>>,
        trace_id: String,
    ) -> (begun: (CallState, CallAction))
        ensures
            begun.0@ == CallStateView::AwaitingToken(
                seq![
                    append_rows_request(
                        stream_name@,
                        table_descriptor@,
                        rows_view(serialized_rows@),
                        trace_id@,
                    ),
                ],
            ),
            begun.1@ == CallActionView::FetchToken(API_SCOPE@),
    {
        let mut requests: Vec<AppendRowsRequest> = Vec::new();
        requests.push(
            AppendRowsRequest::new(stream_name, table_descriptor, serialized_rows, trace_id),
        );
        let state = CallState::AwaitingToken(requests);
        assert(state@->AwaitingToken_0 =~= seq![requests@[0]@]);
        (state, CallAction::FetchToken(API_SCOPE))
    }

    /// Takes the call one step further: see `step`.
    pub fn step(self, event: CallEvent) -> (stepped: (CallState, CallAction))
        ensures
            (stepped.0@, stepped.1@) == step(self@, event@),
    {
        match (self, event) {
            (CallState::AwaitingToken(requests), CallEvent::Token(outcome)) => {
                match new_request(outcome, requests) {
                    Ok(request) => (CallState::AwaitingResponse, CallAction::Send(request)),
                    Err(error) => (CallState::Closed, CallAction::Fail(error)),
                }
            },
            (CallState::AwaitingResponse, CallEvent::Accepted) => (
                CallState::Closed,
                CallAction::Deliver,
            ),
            (CallState::AwaitingResponse, CallEvent::Rejected(status)) => (
                CallState::Closed,
                CallAction::Fail(Error::Status(status)),
            ),
            (CallState::AwaitingResponse, CallEvent::TransportFailed(text)) => (
                CallState::Closed,
                CallAction::Fail(Error::Transport(text)),
            ),
            (state, _) => (state, CallAction::Nothing),
        }
    }
}

/// The actions that a call asks for, one for each of `events` in turn, from
/// `state` on.
pub open spec fn run(state: CallStateView, events: Seq<CallEventView>) -> Seq<CallActionView>
    decreases events.len(),
{
    if events.len() == 0 {
        Seq::empty()
    } else {
        let (next, action) = step(state, events[0]);
        seq![action] + run(next, events.drop_first())
    }
}

/// A run asks for one action for each event, and what it asks for after the
/// first event is the run from the next state on.
pub proof fn lemma_run_unfold(state: CallStateView, events: Seq<CallEventView>)
    ensures
        run(state, events).len() == events.len(),
        events.len() > 0 ==> run(state, events)[0] == step(state, events[0]).1,
        forall|i: int|
            0 < i < events.len() ==> #[trigger] run(state, events)[i] == run(
                step(state, events[0]).0,
                events.drop_first(),
            )[i - 1],
    decreases events.len(),
{
    if events.len() > 0 {
        lemma_run_unfold(step(state, events[0]).0, events.drop_first());
    }
}

/// Once a call is past waiting for its token, it sends nothing.
pub proof fn lemma_sends_nothing_later(state: CallStateView, events: Seq<CallEventView>)
    requires
        !(state is AwaitingToken),
    ensures
        forall|i: int| 0 <= i < events.len() ==> !(#[trigger] run(state, events)[i] is Send),
    decreases events.len(),
{
    if events.len() > 0 {
        lemma_run_unfold(state, events);
        lemma_sends_nothing_later(step(state, events[0]).0, events.drop_first());
    }
}

/// A call whose credential provider fails, or answers without a token, fails
/// with that authentication error and never sends anything, whatever happens
/// afterwards.
pub proof fn lemma_no_token_nothing_sent(
    requests: Seq<AppendRowsRequestView>,
    events: Seq<CallEventView>,
)
    requires
        events.len() > 0,
        events[0] matches CallEventView::Token(outcome) && !(outcome is Granted),
    ensures
        run(CallStateView::AwaitingToken(requests), events)[0] matches CallActionView::Fail(
            ErrorView::Auth(_),
        ),
        run(CallStateView::AwaitingToken(requests), events)[0] == CallActionView::Fail(
            request_metadata(events[0]->Token_0)->Err_0,
        ),
        forall|i: int|
            0 <= i < events.len() ==> !(#[trigger] run(
                CallStateView::AwaitingToken(requests),
                events,
            )[i] is Send),
{
    let state = CallStateView::AwaitingToken(requests);
    lemma_run_unfold(state, events);
    lemma_sends_nothing_later(step(state, events[0]).0, events.drop_first());
}

/// Whatever a call sends, it sends in answer to a token that its credential
/// provider granted for this call: what is sent are the call's own requests,
/// under the authorization entry of that very token and no other metadata,
/// and nothing was sent before.
pub proof fn lemma_sent_under_granted_token(
    requests: Seq<AppendRowsRequestView>,
    events: Seq<CallEventView>,
    i: int,
)
    requires
        0 <= i < events.len(),
        run(CallStateView::AwaitingToken(requests), events)[i] is Send,
    ensures
        events[i] matches CallEventView::Token(TokenOutcomeView::Granted(token)) && metadata_text(
            token,
        ) && run(CallStateView::AwaitingToken(requests), events)[i] == (CallActionView::Send {
            metadata: authorization(token),
            requests,
        }),
        forall|j: int|
            0 <= j < events.len() && j != i ==> !(#[trigger] run(
                CallStateView::AwaitingToken(requests),
                events,
            )[j] is Send),
    decreases events.len(),
{
    let state = CallStateView::AwaitingToken(requests);
    let next = step(state, events[0]).0;
    let rest = events.drop_first();
    lemma_run_unfold(state, events);
    if next is AwaitingToken {
        assert(next == state);
        assert(i > 0);
        lemma_sent_under_granted_token(requests, rest, i - 1);
        assert(events[i] == rest[i - 1]);
        assert forall|j: int| 0 <= j < events.len() && j != i implies !(#[trigger] run(
            state,
            events,
        )[j] is Send) by {
            if j > 0 {
                assert(run(state, events)[j] == run(next, rest)[j - 1]);
            }
        }
    } else {
        lemma_sends_nothing_later(next, rest);
        assert(i == 0);
    }
}

} // verus!
