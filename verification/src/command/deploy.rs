//! Deploy: pull the image, then create the instance and start it.

use crate::config::{
    build_for_deploy, deploy_config, DeployOptions, DeployOptionsView, INSTANCE_NAME,
};
use crate::engine::{
    engine_unavailable, hosted, no_engine, onboarding, reject, rejection, ErrorKind, Outcome,
    OutcomeView, Progress, ProgressView, Request, RequestView, Response, ResponseView, Step,
    StepView,
};
use crate::image::ILLA_BUILDER_VERSION;
use crate::secret::{is_secret, random_secret};
use crate::text::{decimal, decimal_string, join};
use vstd::prelude::*;

verus! {

/// What the operator is told when a deploy begins.
pub const ANNOUNCEMENT: &'static str = "Running a self-hosted installation...";

/// What the operator is told once the image is there.
pub const DOWNLOADED: &'static str = "Downloaded";

/// What a failed pull is reported with, before the engine's words.
pub const PULL_ERROR: &'static str = "Download image error:";

/// What a failed creation is reported with, before the engine's words.
pub const CREATE_ERROR: &'static str = "Create ILLA Builder error:";

/// What a failed start is reported with, before the engine's words.
pub const START_ERROR: &'static str =
    "ILLA Builder was created but not started; remove it and deploy again. Start ILLA Builder error:";

/// What a started instance is reported with, before the host port.
pub const STARTED: &'static str = "ILLA Builder started, please visit http://localhost:";

/// The options of the deploy command.
#[derive(Debug, Clone, PartialEq, Eq)]
pub struct Cmd {
    /// Deploy on this host.
    pub self_host: bool,
    /// Deploy on the hosted service.
    pub cloud: bool,
    /// Version of the image; the default one where none is given.
    pub builder_version: Option<String>,
    /// Host port on which the application is published.
    pub port: u16,
    /// Host directory for the persistent data; the default one where none is
    /// given.
    pub mount_path: Option<String>,
}

/// Where a deploy stands.
#[derive(Debug, Clone, PartialEq, Eq)]
pub enum State {
    /// The engine was pinged.
    Pinging,
    /// The image is being pulled.
    Pulling,
    /// The host directory is being made.
    PreparingData,
    /// The engine was asked to create the instance.
    Creating,
    /// The engine was asked to start the instance.
    Starting,
    /// The deploy is over.
    Finished(Outcome),
}

pub enum StateView {
    Pinging,
    Pulling,
    PreparingData,
    Creating,
    Starting,
    Finished(OutcomeView),
}

impl View for State {
    type V = StateView;

    open spec fn view(&self) -> StateView {
        match self {
            State::Pinging => StateView::Pinging,
            State::Pulling => StateView::Pulling,
            State::PreparingData => StateView::PreparingData,
            State::Creating => StateView::Creating,
            State::Starting => StateView::Starting,
            State::Finished(outcome) => StateView::Finished(outcome@),
        }
    }
}

/// The step that ends a deploy with `outcome`.
pub open spec fn finished(outcome: OutcomeView) -> StepView<StateView> {
    StepView { state: StateView::Finished(outcome), progress: ProgressView::Quiet, request: None }
}

/// What the operator is told while `image` is being pulled.
pub open spec fn downloading(image: Seq<char>) -> Seq<char> {
    "Downloading "@ + image + "..."@
}

/// The first step on this host: the engine is pinged.
pub open spec fn begun() -> StepView<StateView> {
    StepView {
        state: StateView::Pinging,
        progress: ProgressView::Working(ANNOUNCEMENT@),
        request: Some(RequestView::Ping),
    }
}

impl Cmd {
    /// The options that this command resolves to, given the host's default
    /// data directory and a secret.
    pub open spec fn resolved(self, default_mount: Seq<char>, secret: Seq<char>)
        -> DeployOptionsView {
        DeployOptionsView {
            version: match self.builder_version {
                Some(version) => version@,
                None => ILLA_BUILDER_VERSION@,
            },
            port: self.port,
            mount: match self.mount_path {
                Some(path) => path@,
                None => default_mount,
            },
            secret,
        }
    }

    /// Resolves the command's choices: the version and the data directory
    /// fall back to their defaults, and `secret` becomes the datastore's.
    pub fn resolve(&self, default_mount: &str, secret: String) -> (options: DeployOptions)
        ensures
            options@ == self.resolved(default_mount@, secret@),
    {
        let version = match &self.builder_version {
            Some(version) => version.clone(),
            None => String::from_str(ILLA_BUILDER_VERSION),
        };
        let mount = match &self.mount_path {
            Some(path) => path.clone(),
            None => String::from_str(default_mount),
        };
        DeployOptions { version, port: self.port, mount, secret }
    }

    /// Resolves the command's choices and draws a fresh secret for the
    /// datastore. The secret is random: nothing is promised of it but its
    /// shape.
    pub fn options(&self, default_mount: &str) -> (options: DeployOptions)
        ensures
            is_secret(options@.secret),
            options@ == self.resolved(default_mount@, options@.secret),
    {
        self.resolve(default_mount, random_secret())
    }

    /// The first step of the command.
    pub open spec fn first_step(self) -> StepView<StateView> {
        if self.self_host {
            begun()
        } else {
            finished(onboarding())
        }
    }

    /// Begins the command: a deploy on this host starts by pinging the
    /// engine, one on the hosted service ends at once.
    pub fn run(&self) -> (step: Step<State>)
        requires
            self.self_host || self.cloud,
        ensures
            step@ == self.first_step(),
            step.request is None <==> step.state is Finished,
    {
        if self.self_host {
            Step {
                state: State::Pinging,
                progress: Progress::Working(String::from_str(ANNOUNCEMENT)),
                request: Some(Request::Ping),
            }
        } else {
            finish(hosted())
        }
    }
}

/// The step that follows when a deploy with `options` stands at `state` and
/// the driver hands back `response`.
///
/// The engine is pinged, the image pulled to the end of its event stream, the
/// host directory made, then the instance created and started. The first
/// request that fails ends the deploy: nothing is retried, and nothing that
/// was done is undone.
pub open spec fn deploy_next(
    options: DeployOptionsView,
    state: StateView,
    response: ResponseView,
) -> StepView<StateView> {
    match state {
        StateView::Pinging => if response is Done {
            StepView {
                state: StateView::Pulling,
                progress: ProgressView::Working(downloading(options.image())),
                request: Some(RequestView::Pull { image: options.image() }),
            }
        } else {
            finished(engine_unavailable())
        },
        StateView::Pulling => if response is PullEvent {
            StepView {
                state: StateView::Pulling,
                progress: ProgressView::Working(downloading(options.image())),
                request: Some(RequestView::PullNext),
            }
        } else if response is Done {
            StepView {
                state: StateView::PreparingData,
                progress: ProgressView::Completed(DOWNLOADED@),
                request: Some(RequestView::PrepareData { path: options.mount }),
            }
        } else {
            finished(rejection(ErrorKind::PullFailed, PULL_ERROR@, response))
        },
        StateView::PreparingData => StepView {
            state: StateView::Creating,
            progress: ProgressView::Quiet,
            request: Some(
                RequestView::Create { name: INSTANCE_NAME@, config: deploy_config(options) },
            ),
        },
        StateView::Creating => if response is Created {
            StepView {
                state: StateView::Starting,
                progress: ProgressView::Quiet,
                request: Some(RequestView::Start { name: INSTANCE_NAME@ }),
            }
        } else {
            finished(rejection(ErrorKind::CreateFailed, CREATE_ERROR@, response))
        },
        StateView::Starting => if response is Done {
            finished(OutcomeView::Success(STARTED@ + decimal(options.port as nat)))
        } else {
            finished(rejection(ErrorKind::StartFailed, START_ERROR@, response))
        },
        StateView::Finished(outcome) => finished(outcome),
    }
}

fn finish(outcome: Outcome) -> (step: Step<State>)
    ensures
        step@ == finished(outcome@),
        step.request is None,
        step.state is Finished,
{
    Step { state: State::Finished(outcome), progress: Progress::Quiet, request: None }
}

pub(crate) fn downloading_text(image: &str) -> (text: String)
    ensures
        text@ == downloading(image@),
{
    join("Downloading ", image).concat("...")
}

/// Takes one step of a deploy on this host.
pub fn deploy_self_host(options: &DeployOptions, state: State, response: Response) -> (step: Step<
    State,
>)
    ensures
        step@ == deploy_next(options@, state@, response@),
        step.request is None <==> step.state is Finished,
{
    match state {
        State::Pinging => match response {
            Response::Done => {
                let image = options.image();
                Step {
                    state: State::Pulling,
                    progress: Progress::Working(downloading_text(image.as_str())),
                    request: Some(Request::Pull { image }),
                }
            },
            _ => finish(no_engine()),
        },
        State::Pulling => match response {
            Response::PullEvent { .. } => {
                let image = options.image();
                Step {
                    state: State::Pulling,
                    progress: Progress::Working(downloading_text(image.as_str())),
                    request: Some(Request::PullNext),
                }
            },
            Response::Done => Step {
                state: State::PreparingData,
                progress: Progress::Completed(String::from_str(DOWNLOADED)),
                request: Some(Request::PrepareData { path: options.mount.clone() }),
            },
            _ => finish(reject(ErrorKind::PullFailed, PULL_ERROR, response)),
        },
        State::PreparingData => Step {
            state: State::Creating,
            progress: Progress::Quiet,
            request: Some(
                Request::Create {
                    name: String::from_str(INSTANCE_NAME),
                    config: build_for_deploy(options),
                },
            ),
        },
        State::Creating => match response {
            Response::Created { .. } => Step {
                state: State::Starting,
                progress: Progress::Quiet,
                request: Some(Request::Start { name: String::from_str(INSTANCE_NAME) }),
            },
            _ => finish(reject(ErrorKind::CreateFailed, CREATE_ERROR, response)),
        },
        State::Starting => match response {
            Response::Done => {
                let port = decimal_string(options.port);
                finish(Outcome::Success(join(STARTED, port.as_str())))
            },
            _ => finish(reject(ErrorKind::StartFailed, START_ERROR, response)),
        },
        State::Finished(outcome) => finish(outcome),
    }
}

} // verus!
