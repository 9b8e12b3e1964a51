//! The vocabulary that the orchestrator and its driver share: the requests
//! that a driver performs, the responses that it hands back, and the outcome
//! that an operation ends with.

use crate::config::{views, ConfigView, ContainerConfig};
use crate::text::{join, same};
use vstd::prelude::*;

verus! {

/// Seconds that the engine waits for a graceful shutdown before it kills the
/// instance on a stop or a restart.
pub const STOP_TIMEOUT: u32 = 30;

/// Status with which the engine answers a request that names a container it
/// does not have.
pub const STATUS_NOT_FOUND: u16 = 404;

/// Status with which the engine answers a request that conflicts with what it
/// holds, such as the creation of a container under a name in use.
pub const STATUS_CONFLICT: u16 = 409;

/// Why an operation failed.
#[derive(Debug, Clone, Copy, PartialEq, Eq, Structural)]
pub enum ErrorKind {
    /// The engine cannot be reached or does not answer.
    EngineUnavailable,
    /// The image could not be fetched.
    PullFailed,
    /// The name of the instance is already in use.
    NameCollision,
    /// There is no instance under the name.
    NotFound,
    CreateFailed,
    StartFailed,
    StopFailed,
    RestartFailed,
    RemoveFailed,
}

/// How an operation ended.
#[derive(Debug, PartialEq, Eq)]
pub enum Outcome {
    Success(String),
    Failure(ErrorKind, String),
}

pub enum OutcomeView {
    Success(Seq<char>),
    Failure(ErrorKind, Seq<char>),
}

impl View for Outcome {
    type V = OutcomeView;

    open spec fn view(&self) -> OutcomeView {
        match self {
            Outcome::Success(message) => OutcomeView::Success(message@),
            Outcome::Failure(kind, message) => OutcomeView::Failure(*kind, message@),
        }
    }
}

impl OutcomeView {
    /// The exit code that stands for this outcome: 0 for a success, 1 for
    /// every failure.
    pub open spec fn exit_code(self) -> int {
        match self {
            OutcomeView::Success(_) => 0,
            OutcomeView::Failure(_, _) => 1,
        }
    }
}

impl Outcome {
    /// The exit code that stands for this outcome.
    pub fn exit_code(&self) -> (code: i32)
        ensures
            code == self@.exit_code(),
    {
        match self {
            Outcome::Success(_) => 0,
            Outcome::Failure(_, _) => 1,
        }
    }

    /// The message that is shown to the operator.
    pub fn message(&self) -> (text: &String)
        ensures
            match self@ {
                OutcomeView::Success(message) => text@ == message,
                OutcomeView::Failure(_, message) => text@ == message,
            },
    {
        match self {
            Outcome::Success(message) => message,
            Outcome::Failure(_, message) => message,
        }
    }
}

impl Clone for Outcome {
    fn clone(&self) -> (copy: Self)
        ensures
            copy@ == self@,
    {
        match self {
            Outcome::Success(message) => Outcome::Success(message.clone()),
            Outcome::Failure(kind, message) => Outcome::Failure(*kind, message.clone()),
        }
    }
}

/// What the progress reporter is told when a step is taken.
#[derive(Debug, Clone, PartialEq, Eq)]
pub enum Progress {
    /// Nothing to report.
    Quiet,
    /// Work on a stage goes on.
    Working(String),
    /// A stage is complete.
    Completed(String),
}

pub enum ProgressView {
    Quiet,
    Working(Seq<char>),
    Completed(Seq<char>),
}

impl View for Progress {
    type V = ProgressView;

    open spec fn view(&self) -> ProgressView {
        match self {
            Progress::Quiet => ProgressView::Quiet,
            Progress::Working(message) => ProgressView::Working(message@),
            Progress::Completed(message) => ProgressView::Completed(message@),
        }
    }
}

/// The engine's rejection of a request.
#[derive(Debug, Clone, PartialEq, Eq)]
pub struct Fault {
    /// The status that the engine answered with, where it answered at all.
    pub status: Option<u16>,
    /// The engine's own words.
    pub message: String,
}

pub struct FaultView {
    pub status: Option<u16>,
    pub message: Seq<char>,
}

impl View for Fault {
    type V = FaultView;

    open spec fn view(&self) -> FaultView {
        FaultView { status: self.status, message: self.message@ }
    }
}

/// One container as the engine lists it.
#[derive(Debug, Clone, PartialEq, Eq)]
pub struct ContainerSummary {
    pub id: String,
    pub names: Vec<String>,
    pub image: String,
    pub state: String,
}

pub struct SummaryView {
    pub id: Seq<char>,
    pub names: Seq<Seq<char>>,
    pub image: Seq<char>,
    pub state: Seq<char>,
}

impl View for ContainerSummary {
    type V = SummaryView;

    open spec fn view(&self) -> SummaryView {
        SummaryView {
            id: self.id@,
            names: views(self.names@),
            image: self.image@,
            state: self.state@,
        }
    }
}

/// What the orchestrator asks its driver to do next. All but the last two are
/// calls to the engine; those two are work on the host's file system.
#[derive(Debug, Clone, PartialEq, Eq)]
pub enum Request {
    /// Check that the engine answers.
    Ping,
    /// Ask the engine for its version.
    Version,
    /// Begin to pull `image` and await the first event of the pull.
    Pull { image: String },
    /// Await the next event of the pull under way.
    PullNext,
    /// Read the configuration of the container `name`.
    Inspect { name: String },
    /// List the containers whose name matches `name`, stopped ones included.
    List { name: String },
    /// Create a container `name` from `config`.
    Create { name: String, config: ContainerConfig },
    Start { name: String },
    /// Stop `name`, killing it after `timeout` seconds.
    Stop { name: String, timeout: u32 },
    /// Restart `name`, killing it after `timeout` seconds.
    Restart { name: String, timeout: u32 },
    /// Remove `name`; with `force`, kill it first if it runs.
    Remove { name: String, force: bool },
    /// Make sure the host directory `path` exists.
    PrepareData { path: String },
    /// Delete the host directory `path` and all that it holds.
    DeleteData { path: String },
}

pub enum RequestView {
    Ping,
    Version,
    Pull { image: Seq<char> },
    PullNext,
    Inspect { name: Seq<char> },
    List { name: Seq<char> },
    Create { name: Seq<char>, config: ConfigView },
    Start { name: Seq<char> },
    Stop { name: Seq<char>, timeout: u32 },
    Restart { name: Seq<char>, timeout: u32 },
    Remove { name: Seq<char>, force: bool },
    PrepareData { path: Seq<char> },
    DeleteData { path: Seq<char> },
}

impl View for Request {
    type V = RequestView;

    open spec fn view(&self) -> RequestView {
        match self {
            Request::Ping => RequestView::Ping,
            Request::Version => RequestView::Version,
            Request::Pull { image } => RequestView::Pull { image: image@ },
            Request::PullNext => RequestView::PullNext,
            Request::Inspect { name } => RequestView::Inspect { name: name@ },
            Request::List { name } => RequestView::List { name: name@ },
            Request::Create { name, config } => RequestView::Create {
                name: name@,
                config: config@,
            },
            Request::Start { name } => RequestView::Start { name: name@ },
            Request::Stop { name, timeout } => RequestView::Stop {
                name: name@,
                timeout: *timeout,
            },
            Request::Restart { name, timeout } => RequestView::Restart {
                name: name@,
                timeout: *timeout,
            },
            Request::Remove { name, force } => RequestView::Remove { name: name@, force: *force },
            Request::PrepareData { path } => RequestView::PrepareData { path: path@ },
            Request::DeleteData { path } => RequestView::DeleteData { path: path@ },
        }
    }
}

/// What the driver hands back once it has performed a request.
#[derive(Debug, Clone, PartialEq, Eq)]
pub enum Response {
    /// The request succeeded and there is nothing to hand back: the engine
    /// answered the ping, the pull is complete, the container was started,
    /// stopped, restarted or removed, the directory is there or gone.
    Done,
    /// The engine's version.
    Version { version: String },
    /// The pull goes on; `status` is what the engine says of it.
    PullEvent { status: String },
    /// The configuration of the inspected container.
    Inspected(ContainerConfig),
    /// The containers that match.
    Listed(Vec<ContainerSummary>),
    /// The container was created under `id`.
    Created { id: String },
    /// The request failed.
    Failed(Fault),
}

pub enum ResponseView {
    Done,
    Version { version: Seq<char> },
    PullEvent { status: Seq<char> },
    Inspected(ConfigView),
    Listed(Seq<SummaryView>),
    Created { id: Seq<char> },
    Failed(FaultView),
}

impl View for Response {
    type V = ResponseView;

    open spec fn view(&self) -> ResponseView {
        match self {
            Response::Done => ResponseView::Done,
            Response::Version { version } => ResponseView::Version { version: version@ },
            Response::PullEvent { status } => ResponseView::PullEvent { status: status@ },
            Response::Inspected(config) => ResponseView::Inspected(config@),
            Response::Listed(summaries) => ResponseView::Listed(views(summaries@)),
            Response::Created { id } => ResponseView::Created { id: id@ },
            Response::Failed(fault) => ResponseView::Failed(fault@),
        }
    }
}

/// One step of an operation: the state it is in now, what to tell the
/// progress reporter, and the request to perform next. An operation that has
/// ended asks for nothing more.
#[derive(Debug, PartialEq, Eq)]
pub struct Step<S> {
    pub state: S,
    pub progress: Progress,
    pub request: Option<Request>,
}

pub struct StepView<V> {
    pub state: V,
    pub progress: ProgressView,
    pub request: Option<RequestView>,
}

impl<S: View> View for Step<S> {
    type V = StepView<S::V>;

    open spec fn view(&self) -> StepView<S::V> {
        StepView {
            state: self.state@,
            progress: self.progress@,
            request: match self.request {
                Some(request) => Some(request@),
                None => None,
            },
        }
    }
}

/// What stands for the cause where a response is not the answer to the request
/// that was made.
pub const UNEXPECTED_RESPONSE: &'static str = "unexpected response";

/// What the operator is told when the engine cannot be reached.
pub const ENGINE_UNAVAILABLE: &'static str =
    "No running docker found. Please check the status of docker.";

/// What the operator is told of an operation on the hosted service.
pub const ONBOARDING: &'static str = "Looking forward to onboarding you!";

impl ResponseView {
    /// Why the request failed, in the engine's own words where it gave any.
    pub open spec fn cause(self) -> Seq<char> {
        match self {
            ResponseView::Failed(fault) => fault.message,
            _ => UNEXPECTED_RESPONSE@,
        }
    }

    /// The status that the engine rejected the request with.
    pub open spec fn status(self) -> Option<u16> {
        match self {
            ResponseView::Failed(fault) => fault.status,
            _ => None,
        }
    }
}

/// The kind of failure that a rejection with `status` amounts to, for a call
/// whose own kind of failure is `call`: a conflict on creation is a collision
/// of names; a missing container on stop, restart or removal is a missing
/// instance; every other rejection is the call's own.
pub open spec fn classified(call: ErrorKind, status: Option<u16>) -> ErrorKind {
    if call == ErrorKind::CreateFailed && status == Some(STATUS_CONFLICT) {
        ErrorKind::NameCollision
    } else if (call == ErrorKind::StopFailed || call == ErrorKind::RestartFailed || call
        == ErrorKind::RemoveFailed) && status == Some(STATUS_NOT_FOUND) {
        ErrorKind::NotFound
    } else {
        call
    }
}

/// The failure that a call ends with when `response` is not its success:
/// classified by the status, with the cause behind `prefix` word for word.
pub open spec fn rejection(call: ErrorKind, prefix: Seq<char>, response: ResponseView)
    -> OutcomeView {
    OutcomeView::Failure(
        classified(call, response.status()),
        prefix + seq![' '] + response.cause(),
    )
}

/// The failure of an operation that found no engine.
pub open spec fn engine_unavailable() -> OutcomeView {
    OutcomeView::Failure(ErrorKind::EngineUnavailable, ENGINE_UNAVAILABLE@)
}

/// The end of an operation on the hosted service, which this tool does not
/// manage.
pub open spec fn onboarding() -> OutcomeView {
    OutcomeView::Success(ONBOARDING@)
}

/// Classifies a rejection.
pub fn classify(call: ErrorKind, status: Option<u16>) -> (kind: ErrorKind)
    ensures
        kind == classified(call, status),
{
    let conflict = match status {
        Some(code) => code == STATUS_CONFLICT,
        None => false,
    };
    let missing = match status {
        Some(code) => code == STATUS_NOT_FOUND,
        None => false,
    };
    match call {
        ErrorKind::CreateFailed => if conflict {
            ErrorKind::NameCollision
        } else {
            call
        },
        ErrorKind::StopFailed | ErrorKind::RestartFailed | ErrorKind::RemoveFailed => if missing {
            ErrorKind::NotFound
        } else {
            call
        },
        _ => call,
    }
}

/// The failure that a call ends with when `response` is not its success.
pub fn reject(call: ErrorKind, prefix: &str, response: Response) -> (outcome: Outcome)
    ensures
        outcome@ == rejection(call, prefix@, response@),
{
    proof {
        reveal_strlit(" ");
    }
    let lead = join(prefix, " ");
    assert(lead@ =~= prefix@ + seq![' ']);
    match response {
        Response::Failed(fault) => Outcome::Failure(
            classify(call, fault.status),
            lead.concat(fault.message.as_str()),
        ),
        _ => Outcome::Failure(classify(call, None), lead.concat(UNEXPECTED_RESPONSE)),
    }
}

/// The failure of an operation that found no engine.
pub fn no_engine() -> (outcome: Outcome)
    ensures
        outcome@ == engine_unavailable(),
{
    Outcome::Failure(ErrorKind::EngineUnavailable, String::from_str(ENGINE_UNAVAILABLE))
}

/// The end of an operation on the hosted service.
pub fn hosted() -> (outcome: Outcome)
    ensures
        outcome@ == onboarding(),
{
    Outcome::Success(String::from_str(ONBOARDING))
}

/// The state of the instance as the engine shows it.
#[derive(Debug, Clone, Copy, PartialEq, Eq, Structural)]
pub enum InstanceState {
    /// There is no container under the name.
    Absent,
    /// The container exists and was never started.
    Created,
    Running,
    /// The container exists and does not run.
    Stopped,
}

/// What the engine calls a container that was never started.
pub const STATE_CREATED: &'static str = "created";

/// What the engine calls a container that runs.
pub const STATE_RUNNING: &'static str = "running";

/// What the engine calls a container that has run and ended.
pub const STATE_EXITED: &'static str = "exited";

/// The state that the engine's word `name` for a container stands for.
pub open spec fn state_named(name: Seq<char>) -> InstanceState {
    if name == STATE_RUNNING@ {
        InstanceState::Running
    } else if name == STATE_CREATED@ {
        InstanceState::Created
    } else {
        InstanceState::Stopped
    }
}

/// The state of the instance where the engine lists `summaries` under its
/// name: absent where there is none, else that of the first, which stands
/// for the instance whatever follows it.
pub open spec fn observed_state(summaries: Seq<SummaryView>) -> InstanceState {
    if summaries.len() == 0 {
        InstanceState::Absent
    } else {
        state_named(summaries[0].state)
    }
}

/// Reads the state of the instance off the engine's listing.
pub fn observe(summaries: &Vec<ContainerSummary>) -> (state: InstanceState)
    ensures
        state == observed_state(views(summaries@)),
{
    if summaries.len() == 0 {
        InstanceState::Absent
    } else if same(summaries[0].state.as_str(), STATE_RUNNING) {
        InstanceState::Running
    } else if same(summaries[0].state.as_str(), STATE_CREATED) {
        InstanceState::Created
    } else {
        InstanceState::Stopped
    }
}

} // verus!
