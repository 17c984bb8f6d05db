//! The request dispatcher: decides, for each event of the message channel,
//! what happens next. The caller performs the I/O and the provider reads.
use vstd::prelude::*;
use crate::metrics::{BatteryStatus, Metrics};
use crate::request::{Request, parse_request, request_of_payload};
use crate::state::{Response, StateResponse, invalid_request_message};

verus! {

/// The dispatcher's state.
#[derive(Clone, Copy, Debug, PartialEq, Eq, Structural)]
pub enum DispatchState {
    /// Serving requests.
    AwaitingRequest,
    /// The input stream has ended.
    Closed,
}

/// What the caller does next.
pub enum Step {
    /// Read the metrics and battery providers and hand the snapshots to
    /// [`Dispatcher::on_snapshot`], whose response is then written.
    FetchSnapshot,
    /// Write this response.
    Reply(Response),
    /// Stop: the dispatcher is closed.
    Halt,
}

/// The state after a request (decoded or not) arrives in state `s`.
pub open spec fn state_after_request(s: DispatchState, request: Option<Request>) -> DispatchState {
    s
}

/// `step` is what the dispatcher answers, in state `s`, to `request` (`None`
/// for a payload that is no known request).
pub open spec fn step_for(s: DispatchState, request: Option<Request>, step: Step) -> bool {
    match s {
        DispatchState::Closed => step is Halt,
        DispatchState::AwaitingRequest => match request {
            Some(Request::GetState) => step is FetchSnapshot,
            None => step matches Step::Reply(Response::Error(m)) && m@ == invalid_request_message(),
        },
    }
}

/// Binds the message channel to the pressure engine.
pub struct Dispatcher {
    pub state: DispatchState,
}

impl Dispatcher {
    /// A dispatcher awaiting its first request.
    pub fn new() -> (r: Dispatcher)
        ensures
            r.state == DispatchState::AwaitingRequest,
    {
        Dispatcher { state: DispatchState::AwaitingRequest }
    }

    /// Answers a decoded request, or `None` for a payload that held no known request.
    pub fn on_request(&mut self, request: Option<Request>) -> (r: Step)
        ensures
            final(self).state == state_after_request(old(self).state, request),
            step_for(old(self).state, request, r),
    {
        match self.state {
            DispatchState::Closed => Step::Halt,
            DispatchState::AwaitingRequest => match request {
                Some(Request::GetState) => Step::FetchSnapshot,
                None => Step::Reply(Response::invalid_request()),
            },
        }
    }

    /// Answers a frame's payload.
    pub fn on_frame(&mut self, payload: &[u8]) -> (r: Step)
        ensures
            final(self).state == state_after_request(old(self).state, request_of_payload(payload@)),
            step_for(old(self).state, request_of_payload(payload@), r),
    {
        let request = parse_request(payload);
        self.on_request(request)
    }

    /// The response to a state request, from the providers' snapshots.
    pub fn on_snapshot(&self, metrics: &Metrics, battery: Option<BatteryStatus>) -> (r: Response)
        ensures
            r matches Response::State(s) && s.describes(metrics, battery),
    {
        Response::State(StateResponse::build(metrics, battery))
    }

    /// The input stream ended between frames: the dispatcher closes.
    pub fn on_end_of_stream(&mut self)
        ensures
            final(self).state == DispatchState::Closed,
    {
        self.state = DispatchState::Closed;
    }
}

/// A payload that is no known request gets an error reply, and the
/// dispatcher still serves a state request that follows it.
pub proof fn lemma_serves_after_bad_request(bad: Seq<u8>, good: Seq<u8>, first: Step, second: Step)
    requires
        request_of_payload(bad) is None,
        request_of_payload(good) == Some(Request::GetState),
        step_for(DispatchState::AwaitingRequest, request_of_payload(bad), first),
        step_for(
            state_after_request(DispatchState::AwaitingRequest, request_of_payload(bad)),
            request_of_payload(good),
            second,
        ),
    ensures
        first matches Step::Reply(Response::Error(_)),
        state_after_request(DispatchState::AwaitingRequest, request_of_payload(bad)) == DispatchState::AwaitingRequest,
        second is FetchSnapshot,
{
}

} // verus!
