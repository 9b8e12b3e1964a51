//! Update: replace the instance by one made from the latest image, with the
//! configuration of the old one.

use crate::command::deploy::{downloading, downloading_text, DOWNLOADED, PULL_ERROR, STARTED};
use crate::config::{
    build_for_update, published_port, update_config, ConfigView, ContainerConfig,
    APPLICATION_PORT, INSTANCE_NAME,
};
use crate::engine::{
    engine_unavailable, hosted, no_engine, onboarding, reject, rejection, ErrorKind, Outcome,
    OutcomeView, Progress, ProgressView, Request, RequestView, Response, ResponseView, Step,
    StepView,
};
use crate::image::ILLA_BUILDER_VERSION;
use crate::text::join;
use vstd::prelude::*;

verus! {

/// What the operator is told when an update begins.
pub const ANNOUNCEMENT: &'static str =
    "Updating the ILLA Builder with the latest docker image...";

/// What the operator is told while the old instance is looked up.
pub const INITIALIZING: &'static str = "Initializing...";

/// What the operator is told once the old instance's configuration is read.
pub const SETUP_COMPLETE: &'static str = "Setup complete";

/// What the operator is told once the old instance is gone.
pub const REMOVED: &'static str = "Successfully remove the old ILLA Builder.";

/// What the operator is told where there is no instance to update.
pub const NOT_FOUND: &'static str = "No ILLA Builder found.";

/// What a failed removal is reported with, before the engine's words.
pub const REMOVE_ERROR: &'static str = "Try to remove ILLA Builder error:";

/// What a failed creation is reported with, before the engine's words. The
/// old instance is gone by then.
pub const CREATE_ERROR: &'static str =
    "The old ILLA Builder was removed and no new one created; deploy again. Create ILLA Builder error:";

/// What a failed start is reported with, before the engine's words. The old
/// instance is gone by then, and the new one exists.
pub const START_ERROR: &'static str =
    "The old ILLA Builder was removed and the new one created but not started; remove it and deploy again. Start ILLA Builder error:";

/// What a started instance is reported with where its configuration
/// publishes no application port.
pub const STARTED_UNPUBLISHED: &'static str = "ILLA Builder started";

/// The options of the update command.
#[derive(Debug, Clone, Copy, PartialEq, Eq)]
pub struct Cmd {
    /// Update the instance on this host.
    pub self_host: bool,
    /// Update the instance on the hosted service.
    pub cloud: bool,
}

/// Where an update stands. From the pull on, the state holds the
/// configuration of the instance to come.
#[derive(Debug, Clone, PartialEq, Eq)]
pub enum State {
    /// The engine was pinged.
    Pinging,
    /// The engine was asked for the old instance's configuration.
    Inspecting,
    /// The new image is being pulled.
    Pulling(ContainerConfig),
    /// The engine was asked to remove the old instance.
    Removing(ContainerConfig),
    /// The engine was asked to create the new instance.
    Creating(ContainerConfig),
    /// The engine was asked to start the new instance.
    Starting(ContainerConfig),
    /// The update is over.
    Finished(Outcome),
}

pub enum StateView {
    Pinging,
    Inspecting,
    Pulling(ConfigView),
    Removing(ConfigView),
    Creating(ConfigView),
    Starting(ConfigView),
    Finished(OutcomeView),
}

impl View for State {
    type V = StateView;

    open spec fn view(&self) -> StateView {
        match self {
            State::Pinging => StateView::Pinging,
            State::Inspecting => StateView::Inspecting,
            State::Pulling(desired) => StateView::Pulling(desired@),
            State::Removing(desired) => StateView::Removing(desired@),
            State::Creating(desired) => StateView::Creating(desired@),
            State::Starting(desired) => StateView::Starting(desired@),
            State::Finished(outcome) => StateView::Finished(outcome@),
        }
    }
}

/// The step that ends an update with `outcome`.
pub open spec fn finished(outcome: OutcomeView) -> StepView<StateView> {
    StepView { state: StateView::Finished(outcome), progress: ProgressView::Quiet, request: None }
}

/// What the operator is told once an instance with configuration `desired`
/// runs: where to visit it, if it publishes the application port.
pub open spec fn started(desired: ConfigView) -> Seq<char> {
    match published_port(desired.ports, APPLICATION_PORT@) {
        Some(port) => STARTED@ + port,
        None => STARTED_UNPUBLISHED@,
    }
}

/// The first step on this host: the engine is pinged.
pub open spec fn begun() -> StepView<StateView> {
    StepView {
        state: StateView::Pinging,
        progress: ProgressView::Working(ANNOUNCEMENT@),
        request: Some(RequestView::Ping),
    }
}

impl Cmd {
    /// The first step of the command.
    pub open spec fn first_step(self) -> StepView<StateView> {
        if self.self_host {
            begun()
        } else {
            finished(onboarding())
        }
    }

    /// Begins the command: an update on this host starts by pinging the
    /// engine, one on the hosted service ends at once.
    pub fn run(&self) -> (step: Step<State>)
        requires
            self.self_host || self.cloud,
        ensures
            step@ == self.first_step(),
            step.request is None <==> step.state is Finished,
    {
        if self.self_host {
            Step {
                state: State::Pinging,
                progress: Progress::Working(String::from_str(ANNOUNCEMENT)),
                request: Some(Request::Ping),
            }
        } else {
            finish(hosted())
        }
    }
}

/// The step that follows when an update stands at `state` and the driver
/// hands back `response`.
///
/// The engine is pinged and the old instance inspected; an update without an
/// instance ends there, before anything is changed. The new image is pulled
/// before the old instance is removed, so that a failed pull leaves the old
/// instance as it was. The old instance is removed by force before the new
/// one is created, since both go by the same name. The new instance gets the
/// old one's configuration with the image at the default version. A creation
/// or a start that fails leaves the old instance gone.
pub open spec fn update_next(state: StateView, response: ResponseView) -> StepView<StateView> {
    match state {
        StateView::Pinging => if response is Done {
            StepView {
                state: StateView::Inspecting,
                progress: ProgressView::Working(INITIALIZING@),
                request: Some(RequestView::Inspect { name: INSTANCE_NAME@ }),
            }
        } else {
            finished(engine_unavailable())
        },
        StateView::Inspecting => match response {
            ResponseView::Inspected(observed) => {
                let desired = update_config(observed, ILLA_BUILDER_VERSION@);
                StepView {
                    state: StateView::Pulling(desired),
                    progress: ProgressView::Completed(SETUP_COMPLETE@),
                    request: Some(RequestView::Pull { image: desired.image }),
                }
            },
            _ => finished(OutcomeView::Failure(ErrorKind::NotFound, NOT_FOUND@)),
        },
        StateView::Pulling(desired) => if response is PullEvent {
            StepView {
                state: StateView::Pulling(desired),
                progress: ProgressView::Working(downloading(desired.image)),
                request: Some(RequestView::PullNext),
            }
        } else if response is Done {
            StepView {
                state: StateView::Removing(desired),
                progress: ProgressView::Completed(DOWNLOADED@),
                request: Some(RequestView::Remove { name: INSTANCE_NAME@, force: true }),
            }
        } else {
            finished(rejection(ErrorKind::PullFailed, PULL_ERROR@, response))
        },
        StateView::Removing(desired) => if response is Done {
            StepView {
                state: StateView::Creating(desired),
                progress: ProgressView::Completed(REMOVED@),
                request: Some(RequestView::Create { name: INSTANCE_NAME@, config: desired }),
            }
        } else {
            finished(rejection(ErrorKind::RemoveFailed, REMOVE_ERROR@, response))
        },
        StateView::Creating(desired) => if response is Created {
            StepView {
                state: StateView::Starting(desired),
                progress: ProgressView::Quiet,
                request: Some(RequestView::Start { name: INSTANCE_NAME@ }),
            }
        } else {
            finished(rejection(ErrorKind::CreateFailed, CREATE_ERROR@, response))
        },
        StateView::Starting(desired) => if response is Done {
            finished(OutcomeView::Success(started(desired)))
        } else {
            finished(rejection(ErrorKind::StartFailed, START_ERROR@, response))
        },
        StateView::Finished(outcome) => finished(outcome),
    }
}

fn finish(outcome: Outcome) -> (step: Step<State>)
    ensures
        step@ == finished(outcome@),
        step.request is None,
        step.state is Finished,
{
    Step { state: State::Finished(outcome), progress: Progress::Quiet, request: None }
}

fn started_text(desired: &ContainerConfig) -> (text: String)
    ensures
        text@ == started(desired@),
{
    match desired.published_port(APPLICATION_PORT) {
        Some(port) => join(STARTED, port.as_str()),
        None => String::from_str(STARTED_UNPUBLISHED),
    }
}

/// Takes one step of an update on this host.
pub fn update_local(state: State, response: Response) -> (step: Step<State>)
    ensures
        step@ == update_next(state@, response@),
        step.request is None <==> step.state is Finished,
{
    match state {
        State::Pinging => match response {
            Response::Done => Step {
                state: State::Inspecting,
                progress: Progress::Working(String::from_str(INITIALIZING)),
                request: Some(Request::Inspect { name: String::from_str(INSTANCE_NAME) }),
            },
            _ => finish(no_engine()),
        },
        State::Inspecting => match response {
            Response::Inspected(observed) => {
                let desired = build_for_update(&observed, ILLA_BUILDER_VERSION);
                let image = desired.image.clone();
                Step {
                    state: State::Pulling(desired),
                    progress: Progress::Completed(String::from_str(SETUP_COMPLETE)),
                    request: Some(Request::Pull { image }),
                }
            },
            _ => finish(Outcome::Failure(ErrorKind::NotFound, String::from_str(NOT_FOUND))),
        },
        State::Pulling(desired) => match response {
            Response::PullEvent { .. } => {
                let progress = Progress::Working(downloading_text(desired.image.as_str()));
                Step { state: State::Pulling(desired), progress, request: Some(Request::PullNext) }
            },
            Response::Done => Step {
                state: State::Removing(desired),
                progress: Progress::Completed(String::from_str(DOWNLOADED)),
                request: Some(
                    Request::Remove { name: String::from_str(INSTANCE_NAME), force: true },
                ),
            },
            _ => finish(reject(ErrorKind::PullFailed, PULL_ERROR, response)),
        },
        State::Removing(desired) => match response {
            Response::Done => {
                let config = desired.clone();
                Step {
                    state: State::Creating(desired),
                    progress: Progress::Completed(String::from_str(REMOVED)),
                    request: Some(
                        Request::Create { name: String::from_str(INSTANCE_NAME), config },
                    ),
                }
            },
            _ => finish(reject(ErrorKind::RemoveFailed, REMOVE_ERROR, response)),
        },
        State::Creating(desired) => match response {
            Response::Created { .. } => Step {
                state: State::Starting(desired),
                progress: Progress::Quiet,
                request: Some(Request::Start { name: String::from_str(INSTANCE_NAME) }),
            },
            _ => finish(reject(ErrorKind::CreateFailed, CREATE_ERROR, response)),
        },
        State::Starting(desired) => match response {
            Response::Done => finish(Outcome::Success(started_text(&desired))),
            _ => finish(reject(ErrorKind::StartFailed, START_ERROR, response)),
        },
        State::Finished(outcome) => finish(outcome),
    }
}

} // verus!
