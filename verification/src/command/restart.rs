//! Restart: shut the instance down and start it again.

use crate::config::INSTANCE_NAME;
use crate::engine::{
    engine_unavailable, hosted, no_engine, onboarding, reject, rejection, ErrorKind, Outcome,
    OutcomeView, Progress, ProgressView, Request, RequestView, Response, ResponseView, Step,
    StepView, STOP_TIMEOUT,
};
use vstd::prelude::*;

verus! {

/// What the operator is told when the command begins.
pub const ANNOUNCEMENT: &'static str = "Trying to restart the ILLA Builder...";

/// What the operator is told once the engine has done it.
pub const DONE: &'static str = "Successfully restart the ILLA Builder.";

/// What a failure is reported with, before the engine's words.
pub const ERROR: &'static str = "Try to restart ILLA Builder error:";

/// The options of the restart command.
#[derive(Debug, Clone, Copy, PartialEq, Eq)]
pub struct Cmd {
    /// Act on the instance on this host.
    pub self_host: bool,
    /// Act on the instance on the hosted service.
    pub cloud: bool,
}

/// Where the command stands.
#[derive(Debug, Clone, PartialEq, Eq)]
pub enum State {
    /// The engine was pinged.
    Pinging,
    /// The engine was asked to restart the instance.
    Restarting,
    /// The command is over.
    Finished(Outcome),
}

pub enum StateView {
    Pinging,
    Restarting,
    Finished(OutcomeView),
}

impl View for State {
    type V = StateView;

    open spec fn view(&self) -> StateView {
        match self {
            State::Pinging => StateView::Pinging,
            State::Restarting => StateView::Restarting,
            State::Finished(outcome) => StateView::Finished(outcome@),
        }
    }
}

/// The step that ends the command with `outcome`.
pub open spec fn finished(outcome: OutcomeView) -> StepView<StateView> {
    StepView { state: StateView::Finished(outcome), progress: ProgressView::Quiet, request: None }
}

/// The first step on this host: the engine is pinged.
pub open spec fn begun() -> StepView<StateView> {
    StepView {
        state: StateView::Pinging,
        progress: ProgressView::Working(ANNOUNCEMENT@),
        request: Some(RequestView::Ping),
    }
}

impl Cmd {
    /// The first step of the command.
    pub open spec fn first_step(self) -> StepView<StateView> {
        if self.self_host {
            begun()
        } else {
            finished(onboarding())
        }
    }

    /// Begins the command: on this host it starts by pinging the engine, on
    /// the hosted service it ends at once.
    pub fn run(&self) -> (step: Step<State>)
        requires
            self.self_host || self.cloud,
        ensures
            step@ == self.first_step(),
            step.request is None <==> step.state is Finished,
    {
        if self.self_host {
            Step {
                state: State::Pinging,
                progress: Progress::Working(String::from_str(ANNOUNCEMENT)),
                request: Some(Request::Ping),
            }
        } else {
            finish(hosted())
        }
    }
}

/// The step that follows when the command stands at `state` and the driver
/// hands back `response`: once the engine has answered the ping, it is asked
/// to restart the instance, giving it thirty seconds to shut down before it is
/// killed and started again.
pub open spec fn restart_next(state: StateView, response: ResponseView) -> StepView<StateView> {
    match state {
        StateView::Pinging => if response is Done {
            StepView {
                state: StateView::Restarting,
                progress: ProgressView::Quiet,
                request: Some(
                    RequestView::Restart { name: INSTANCE_NAME@, timeout: STOP_TIMEOUT },
                ),
            }
        } else {
            finished(engine_unavailable())
        },
        StateView::Restarting => if response is Done {
            finished(OutcomeView::Success(DONE@))
        } else {
            finished(rejection(ErrorKind::RestartFailed, ERROR@, response))
        },
        StateView::Finished(outcome) => finished(outcome),
    }
}

fn finish(outcome: Outcome) -> (step: Step<State>)
    ensures
        step@ == finished(outcome@),
        step.request is None,
        step.state is Finished,
{
    Step { state: State::Finished(outcome), progress: Progress::Quiet, request: None }
}

/// Takes one step of the command on this host.
pub fn restart_local(state: State, response: Response) -> (step: Step<State>)
    ensures
        step@ == restart_next(state@, response@),
        step.request is None <==> step.state is Finished,
{
    match state {
        State::Pinging => match response {
            Response::Done => Step {
                state: State::Restarting,
                progress: Progress::Quiet,
                request: Some(
                    Request::Restart {
                        name: String::from_str(INSTANCE_NAME),
                        timeout: STOP_TIMEOUT,
                    },
                ),
            },
            _ => finish(no_engine()),
        },
        State::Restarting => match response {
            Response::Done => finish(Outcome::Success(String::from_str(DONE))),
            _ => finish(reject(ErrorKind::RestartFailed, ERROR, response)),
        },
        State::Finished(outcome) => finish(outcome),
    }
}

} // verus!
