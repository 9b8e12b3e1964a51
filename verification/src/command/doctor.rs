//! Doctor: check that this host can run an instance.

use crate::engine::{
    engine_unavailable, no_engine, Outcome, OutcomeView, Progress, ProgressView, Request,
    RequestView, Response, ResponseView, Step, StepView,
};
use crate::text::join;
use vstd::prelude::*;

verus! {

/// What the operator is told when a check begins.
pub const ANNOUNCEMENT: &'static str = "Checking the prerequisites of self-host...";

/// What the operator is told while the engine is asked for its version.
pub const CHECKING: &'static str = "Checking the version of Docker...";

/// What the engine's version is reported with.
pub const VERSION: &'static str = "Docker version: ";

/// What the operator is told where the engine is there.
pub const SATISFIED: &'static str =
    "\nSuccess! The minimum requirement for deploying ILLA has been satisfied. Self-Host your ILLA Builder by command [illa deploy].";

/// The options of the doctor command: it has none.
#[derive(Debug, Clone, Copy, PartialEq, Eq)]
pub struct Cmd {}

/// Where a check stands.
#[derive(Debug, Clone, PartialEq, Eq)]
pub enum State {
    /// The engine was pinged.
    Pinging,
    /// The engine was asked for its version.
    Checking,
    /// The check is over.
    Finished(Outcome),
}

pub enum StateView {
    Pinging,
    Checking,
    Finished(OutcomeView),
}

impl View for State {
    type V = StateView;

    open spec fn view(&self) -> StateView {
        match self {
            State::Pinging => StateView::Pinging,
            State::Checking => StateView::Checking,
            State::Finished(outcome) => StateView::Finished(outcome@),
        }
    }
}

/// The step that ends a check with `outcome`.
pub open spec fn finished(outcome: OutcomeView) -> StepView<StateView> {
    StepView { state: StateView::Finished(outcome), progress: ProgressView::Quiet, request: None }
}

/// The first step of a check: the engine is pinged.
pub open spec fn begun() -> StepView<StateView> {
    StepView {
        state: StateView::Pinging,
        progress: ProgressView::Working(ANNOUNCEMENT@),
        request: Some(RequestView::Ping),
    }
}

impl Cmd {
    /// Begins the command.
    pub fn run(&self) -> (step: Step<State>)
        ensures
            step@ == begun(),
            step.request is None <==> step.state is Finished,
    {
        Step {
            state: State::Pinging,
            progress: Progress::Working(String::from_str(ANNOUNCEMENT)),
            request: Some(Request::Ping),
        }
    }
}

/// The step that follows when a check stands at `state` and the driver hands
/// back `response`: an engine that answers the ping is asked for its version,
/// and one that tells it meets the requirement. Anything else means that
/// there is no engine.
pub open spec fn check_next(state: StateView, response: ResponseView) -> StepView<StateView> {
    match state {
        StateView::Pinging => if response is Done {
            StepView {
                state: StateView::Checking,
                progress: ProgressView::Working(CHECKING@),
                request: Some(RequestView::Version),
            }
        } else {
            finished(engine_unavailable())
        },
        StateView::Checking => match response {
            ResponseView::Version { version } => finished(
                OutcomeView::Success(VERSION@ + version + SATISFIED@),
            ),
            _ => finished(engine_unavailable()),
        },
        StateView::Finished(outcome) => finished(outcome),
    }
}

fn finish(outcome: Outcome) -> (step: Step<State>)
    ensures
        step@ == finished(outcome@),
        step.request is None,
        step.state is Finished,
{
    Step { state: State::Finished(outcome), progress: Progress::Quiet, request: None }
}

/// Takes one step of a check.
pub fn check(state: State, response: Response) -> (step: Step<State>)
    ensures
        step@ == check_next(state@, response@),
        step.request is None <==> step.state is Finished,
{
    match state {
        State::Pinging => match response {
            Response::Done => Step {
                state: State::Checking,
                progress: Progress::Working(String::from_str(CHECKING)),
                request: Some(Request::Version),
            },
            _ => finish(no_engine()),
        },
        State::Checking => match response {
            Response::Version { version } => finish(
                Outcome::Success(join(VERSION, version.as_str()).concat(SATISFIED)),
            ),
            _ => finish(no_engine()),
        },
        State::Finished(outcome) => finish(outcome),
    }
}

} // verus!
