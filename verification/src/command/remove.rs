//! Remove: delete the instance and, where asked, its persistent data.

use crate::command::update::{NOT_FOUND, REMOVE_ERROR};
use crate::config::{data_source, INSTANCE_NAME};
use crate::engine::{
    engine_unavailable, hosted, no_engine, onboarding, reject, rejection, ErrorKind, Outcome,
    OutcomeView, Progress, ProgressView, Request, RequestView, Response, ResponseView, Step,
    StepView,
};
use vstd::prelude::*;

verus! {

/// What the operator is told when a removal begins.
pub const ANNOUNCEMENT: &'static str = "Trying to remove the ILLA Builder...";

/// What the operator is told once the instance is gone.
pub const REMOVED: &'static str = "Successfully remove the ILLA Builder.";

/// What a failed deletion of the data is reported with, before the cause. The
/// instance is gone by then.
pub const DATA_ERROR: &'static str = "ILLA Builder was removed but its data was not deleted:";

/// The options of the remove command.
#[derive(Debug, Clone, Copy, PartialEq, Eq)]
pub struct Cmd {
    /// Remove the instance on this host.
    pub self_host: bool,
    /// Remove the instance on the hosted service.
    pub cloud: bool,
    /// Kill the instance first if it runs.
    pub force: bool,
    /// Delete the persistent data too.
    pub data: bool,
}

/// Where a removal stands.
#[derive(Debug, Clone, PartialEq, Eq)]
pub enum State {
    /// The engine was pinged.
    Pinging,
    /// The engine was asked for the instance's configuration, to learn where
    /// its data lies.
    Inspecting,
    /// The engine was asked to remove the instance. The state holds the host
    /// directory to delete afterwards, if any.
    Removing(Option<String>),
    /// The host directory is being deleted.
    DeletingData,
    /// The removal is over.
    Finished(Outcome),
}

pub enum StateView {
    Pinging,
    Inspecting,
    Removing(Option<Seq<char>>),
    DeletingData,
    Finished(OutcomeView),
}

impl View for State {
    type V = StateView;

    open spec fn view(&self) -> StateView {
        match self {
            State::Pinging => StateView::Pinging,
            State::Inspecting => StateView::Inspecting,
            State::Removing(data) => StateView::Removing(
                match data {
                    Some(path) => Some(path@),
                    None => None,
                },
            ),
            State::DeletingData => StateView::DeletingData,
            State::Finished(outcome) => StateView::Finished(outcome@),
        }
    }
}

/// The step that ends a removal with `outcome`.
pub open spec fn finished(outcome: OutcomeView) -> StepView<StateView> {
    StepView { state: StateView::Finished(outcome), progress: ProgressView::Quiet, request: None }
}

/// The step that asks the engine to remove the instance, and keeps `data` for
/// afterwards.
pub open spec fn removing(force: bool, data: Option<Seq<char>>) -> StepView<StateView> {
    StepView {
        state: StateView::Removing(data),
        progress: ProgressView::Quiet,
        request: Some(RequestView::Remove { name: INSTANCE_NAME@, force }),
    }
}

/// The first step on this host: the engine is pinged.
pub open spec fn begun() -> StepView<StateView> {
    StepView {
        state: StateView::Pinging,
        progress: ProgressView::Working(ANNOUNCEMENT@),
        request: Some(RequestView::Ping),
    }
}

impl Cmd {
    /// The first step of the command.
    pub open spec fn first_step(self) -> StepView<StateView> {
        if self.self_host {
            begun()
        } else {
            finished(onboarding())
        }
    }

    /// Begins the command: a removal on this host starts by pinging the
    /// engine, one on the hosted service ends at once.
    pub fn run(&self) -> (step: Step<State>)
        requires
            self.self_host || self.cloud,
        ensures
            step@ == self.first_step(),
            step.request is None <==> step.state is Finished,
    {
        if self.self_host {
            Step {
                state: State::Pinging,
                progress: Progress::Working(String::from_str(ANNOUNCEMENT)),
                request: Some(Request::Ping),
            }
        } else {
            finish(hosted())
        }
    }
}

/// The step that follows when a removal stands at `state` and the driver
/// hands back `response`.
///
/// Where the data is to go too, the instance is inspected first, and the
/// source of its first mount is the directory to delete; a removal without an
/// instance ends there. The directory is deleted only once the engine has
/// removed the instance: a removal that fails leaves the data alone.
pub open spec fn remove_next(force: bool, data: bool, state: StateView, response: ResponseView)
    -> StepView<StateView> {
    match state {
        StateView::Pinging => if response is Done {
            if data {
                StepView {
                    state: StateView::Inspecting,
                    progress: ProgressView::Quiet,
                    request: Some(RequestView::Inspect { name: INSTANCE_NAME@ }),
                }
            } else {
                removing(force, None)
            }
        } else {
            finished(engine_unavailable())
        },
        StateView::Inspecting => match response {
            ResponseView::Inspected(observed) => removing(force, data_source(observed.mounts)),
            _ => finished(OutcomeView::Failure(ErrorKind::NotFound, NOT_FOUND@)),
        },
        StateView::Removing(kept) => if response is Done {
            match kept {
                Some(path) => StepView {
                    state: StateView::DeletingData,
                    progress: ProgressView::Quiet,
                    request: Some(RequestView::DeleteData { path }),
                },
                None => finished(OutcomeView::Success(REMOVED@)),
            }
        } else {
            finished(rejection(ErrorKind::RemoveFailed, REMOVE_ERROR@, response))
        },
        StateView::DeletingData => if response is Done {
            finished(OutcomeView::Success(REMOVED@))
        } else {
            finished(rejection(ErrorKind::RemoveFailed, DATA_ERROR@, response))
        },
        StateView::Finished(outcome) => finished(outcome),
    }
}

fn finish(outcome: Outcome) -> (step: Step<State>)
    ensures
        step@ == finished(outcome@),
        step.request is None,
        step.state is Finished,
{
    Step { state: State::Finished(outcome), progress: Progress::Quiet, request: None }
}

fn ask_removal(force: bool, data: Option<String>) -> (step: Step<State>)
    ensures
        step@ == removing(
            force,
            match data {
                Some(path) => Some(path@),
                None => None,
            },
        ),
        step.request is Some,
        step.state is Removing,
{
    Step {
        state: State::Removing(data),
        progress: Progress::Quiet,
        request: Some(Request::Remove { name: String::from_str(INSTANCE_NAME), force }),
    }
}

/// Takes one step of a removal on this host.
pub fn remove_local(is_force: bool, data: bool, state: State, response: Response) -> (step: Step<
    State,
>)
    ensures
        step@ == remove_next(is_force, data, state@, response@),
        step.request is None <==> step.state is Finished,
{
    match state {
        State::Pinging => match response {
            Response::Done => if data {
                Step {
                    state: State::Inspecting,
                    progress: Progress::Quiet,
                    request: Some(Request::Inspect { name: String::from_str(INSTANCE_NAME) }),
                }
            } else {
                ask_removal(is_force, None)
            },
            _ => finish(no_engine()),
        },
        State::Inspecting => match response {
            Response::Inspected(observed) => ask_removal(is_force, observed.data_source()),
            _ => finish(Outcome::Failure(ErrorKind::NotFound, String::from_str(NOT_FOUND))),
        },
        State::Removing(kept) => match response {
            Response::Done => match kept {
                Some(path) => Step {
                    state: State::DeletingData,
                    progress: Progress::Quiet,
                    request: Some(Request::DeleteData { path }),
                },
                None => finish(Outcome::Success(String::from_str(REMOVED))),
            },
            _ => finish(reject(ErrorKind::RemoveFailed, REMOVE_ERROR, response)),
        },
        State::DeletingData => match response {
            Response::Done => finish(Outcome::Success(String::from_str(REMOVED))),
            _ => finish(reject(ErrorKind::RemoveFailed, DATA_ERROR, response)),
        },
        State::Finished(outcome) => finish(outcome),
    }
}

} // verus!
