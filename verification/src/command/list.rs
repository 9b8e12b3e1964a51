//! List: show the containers that go by the instance's name.

use crate::config::{views, INSTANCE_NAME};
use crate::engine::{
    engine_unavailable, hosted, no_engine, onboarding, reject, rejection, ContainerSummary,
    ErrorKind, Outcome, OutcomeView, Progress, ProgressView, Request, RequestView, Response,
    ResponseView, Step, StepView, SummaryView,
};
use vstd::prelude::*;

verus! {

/// Number of characters of a container's id that a listing shows.
pub const SHORT_ID_LENGTH: usize = 12;

/// What a failed listing is reported with, before the cause.
pub const ERROR: &'static str = "List ILLA Builder error:";

/// The options of the list command.
#[derive(Debug, Clone, Copy, PartialEq, Eq)]
pub struct Cmd {
    /// List the instances everywhere.
    pub all: bool,
    /// List the instance on this host.
    pub self_host: bool,
    /// List the instances on the hosted service.
    pub cloud: bool,
}

/// One line of a listing.
#[derive(Debug, Clone, PartialEq, Eq)]
pub struct Row {
    /// The container's id, cut to its first twelve characters.
    pub id: String,
    pub name: String,
    pub image: String,
    pub state: String,
}

pub struct RowView {
    pub id: Seq<char>,
    pub name: Seq<char>,
    pub image: Seq<char>,
    pub state: Seq<char>,
}

impl View for Row {
    type V = RowView;

    open spec fn view(&self) -> RowView {
        RowView { id: self.id@, name: self.name@, image: self.image@, state: self.state@ }
    }
}

/// Where a listing stands.
#[derive(Debug, Clone, PartialEq, Eq)]
pub enum State {
    /// The engine was pinged.
    Pinging,
    /// The engine was asked for the containers.
    Listing,
    /// The listing is over; `rows` is what there is to show.
    Finished { rows: Vec<Row>, outcome: Outcome },
}

pub enum StateView {
    Pinging,
    Listing,
    Finished { rows: Seq<RowView>, outcome: OutcomeView },
}

impl View for State {
    type V = StateView;

    open spec fn view(&self) -> StateView {
        match self {
            State::Pinging => StateView::Pinging,
            State::Listing => StateView::Listing,
            State::Finished { rows, outcome } => StateView::Finished {
                rows: views(rows@),
                outcome: outcome@,
            },
        }
    }
}

/// The step that ends a listing with `rows` and `outcome`.
pub open spec fn finished(rows: Seq<RowView>, outcome: OutcomeView) -> StepView<StateView> {
    StepView {
        state: StateView::Finished { rows, outcome },
        progress: ProgressView::Quiet,
        request: None,
    }
}

/// The id of a container as a listing shows it: its first twelve characters,
/// or all of it where it has no more.
pub open spec fn short_id(id: Seq<char>) -> Seq<char> {
    if id.len() > SHORT_ID_LENGTH {
        id.subrange(0, SHORT_ID_LENGTH as int)
    } else {
        id
    }
}

/// The line that shows `summary`: its short id, the first of its names (none
/// where it has no name), its image and its state.
pub open spec fn row_of(summary: SummaryView) -> RowView {
    RowView {
        id: short_id(summary.id),
        name: if summary.names.len() > 0 {
            summary.names[0]
        } else {
            Seq::empty()
        },
        image: summary.image,
        state: summary.state,
    }
}

/// The lines that show `summaries`, one for each, in the engine's order.
pub open spec fn rows_of(summaries: Seq<SummaryView>) -> Seq<RowView> {
    summaries.map_values(|summary: SummaryView| row_of(summary))
}

/// The first step on this host: the engine is pinged.
pub open spec fn begun() -> StepView<StateView> {
    StepView {
        state: StateView::Pinging,
        progress: ProgressView::Quiet,
        request: Some(RequestView::Ping),
    }
}

impl Cmd {
    /// The first step of the command.
    pub open spec fn first_step(self) -> StepView<StateView> {
        if !self.all && self.self_host {
            begun()
        } else {
            finished(Seq::empty(), onboarding())
        }
    }

    /// Begins the command: a listing of this host alone starts by pinging the
    /// engine, every other listing ends at once.
    pub fn run(&self) -> (step: Step<State>)
        requires
            self.all || self.self_host || self.cloud,
        ensures
            step@ == self.first_step(),
            step.request is None <==> step.state is Finished,
    {
        if !self.all && self.self_host {
            Step { state: State::Pinging, progress: Progress::Quiet, request: Some(Request::Ping) }
        } else {
            finish(no_rows(), hosted())
        }
    }
}

/// The step that follows when a listing stands at `state` and the driver
/// hands back `response`: once the engine has answered the ping, it is asked
/// for the containers that go by the instance's name, and each of them
/// becomes one line. That there is none is no failure.
pub open spec fn list_next(state: StateView, response: ResponseView) -> StepView<StateView> {
    match state {
        StateView::Pinging => if response is Done {
            StepView {
                state: StateView::Listing,
                progress: ProgressView::Quiet,
                request: Some(RequestView::List { name: INSTANCE_NAME@ }),
            }
        } else {
            finished(Seq::empty(), engine_unavailable())
        },
        StateView::Listing => match response {
            ResponseView::Listed(summaries) => finished(
                rows_of(summaries),
                OutcomeView::Success(Seq::empty()),
            ),
            _ => finished(
                Seq::empty(),
                rejection(ErrorKind::EngineUnavailable, ERROR@, response),
            ),
        },
        StateView::Finished { rows, outcome } => finished(rows, outcome),
    }
}

fn finish(rows: Vec<Row>, outcome: Outcome) -> (step: Step<State>)
    ensures
        step@ == finished(views(rows@), outcome@),
        step.request is None,
        step.state is Finished,
{
    Step { state: State::Finished { rows, outcome }, progress: Progress::Quiet, request: None }
}

fn no_rows() -> (rows: Vec<Row>)
    ensures
        views(rows@) == Seq::<RowView>::empty(),
{
    let rows: Vec<Row> = Vec::new();
    assert(views(rows@) =~= Seq::<RowView>::empty());
    rows
}

/// Cuts a container's id to what a listing shows.
pub fn shorten(id: &str) -> (short: String)
    ensures
        short@ == short_id(id@),
{
    if id.unicode_len() > SHORT_ID_LENGTH {
        String::from_str(id.substring_char(0, SHORT_ID_LENGTH))
    } else {
        String::from_str(id)
    }
}

/// The line that shows one container.
pub fn row(summary: &ContainerSummary) -> (line: Row)
    ensures
        line@ == row_of(summary@),
{
    let name = if summary.names.len() > 0 {
        summary.names[0].clone()
    } else {
        String::new()
    };
    Row {
        id: shorten(summary.id.as_str()),
        name,
        image: summary.image.clone(),
        state: summary.state.clone(),
    }
}

/// The lines that show the containers that the engine listed.
pub fn rows(summaries: &Vec<ContainerSummary>) -> (lines: Vec<Row>)
    ensures
        views(lines@) == rows_of(views(summaries@)),
{
    let mut lines: Vec<Row> = Vec::new();
    let mut i: usize = 0;
    while i < summaries.len()
        invariant
            i <= summaries.len(),
            lines.len() == i,
            forall|j: int| 0 <= j < i ==> lines[j]@ == row_of(summaries[j]@),
        decreases summaries.len() - i,
    {
        lines.push(row(&summaries[i]));
        i += 1;
    }
    assert(views(lines@) =~= rows_of(views(summaries@)));
    lines
}

/// Takes one step of a listing of this host.
pub fn list_local(state: State, response: Response) -> (step: Step<State>)
    ensures
        step@ == list_next(state@, response@),
        step.request is None <==> step.state is Finished,
{
    match state {
        State::Pinging => match response {
            Response::Done => Step {
                state: State::Listing,
                progress: Progress::Quiet,
                request: Some(Request::List { name: String::from_str(INSTANCE_NAME) }),
            },
            _ => finish(no_rows(), no_engine()),
        },
        State::Listing => match response {
            Response::Listed(summaries) => finish(
                rows(&summaries),
                Outcome::Success(String::new()),
            ),
            _ => finish(no_rows(), reject(ErrorKind::EngineUnavailable, ERROR, response)),
        },
        State::Finished { rows, outcome } => finish(rows, outcome),
    }
}

} // verus!
