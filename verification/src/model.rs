//! A model of the host that the orchestrator works on: the engine, as far as
//! the instance goes, and the directories of the file system. It says what a
//! request may do to the host and which responses may come back, and is there
//! to state what the operations achieve.

use crate::config::{ConfigView, INSTANCE_NAME};
use crate::engine::{
    InstanceState, RequestView, ResponseView, SummaryView, STATE_CREATED, STATE_EXITED,
    STATE_RUNNING,
};
use vstd::prelude::*;

verus! {

/// The container that goes by the instance's name.
pub struct Instance {
    pub id: Seq<char>,
    pub names: Seq<Seq<char>>,
    pub config: ConfigView,
    pub state: InstanceState,
}

/// The host: the instance, if there is one, and the directories that exist.
pub struct Host {
    pub instance: Option<Instance>,
    pub directories: Set<Seq<char>>,
}

/// What the engine calls a container in `state`.
pub open spec fn state_name(state: InstanceState) -> Seq<char> {
    match state {
        InstanceState::Running => STATE_RUNNING@,
        InstanceState::Created => STATE_CREATED@,
        _ => STATE_EXITED@,
    }
}

impl Instance {
    /// The instance after the engine has put it into `state`.
    pub open spec fn put(self, state: InstanceState) -> Instance {
        Instance { state, ..self }
    }

    /// The instance as the engine lists it.
    pub open spec fn summary(self) -> SummaryView {
        SummaryView {
            id: self.id,
            names: self.names,
            image: self.config.image,
            state: state_name(self.state),
        }
    }
}

impl Host {
    /// What the engine lists under the instance's name.
    pub open spec fn listing(self) -> Seq<SummaryView> {
        match self.instance {
            Some(instance) => seq![instance.summary()],
            None => Seq::empty(),
        }
    }

    /// The host with `instance` in place of what it had.
    pub open spec fn with_instance(self, instance: Option<Instance>) -> Host {
        Host { instance, ..self }
    }
}

/// Whether a host that is as `before` may answer `request` with `response`
/// and be as `after` then.
///
/// A request changes the host only where it succeeds. The engine creates a
/// container only where the name is free, starts, stops, restarts and removes
/// only a container that is there, and removes a running one only by force.
/// What it tells of the instance is what it holds. Of requests that name
/// another container nothing is said.
pub open spec fn performs(before: Host, request: RequestView, response: ResponseView, after: Host)
    -> bool {
    match request {
        RequestView::Ping
        | RequestView::Version
        | RequestView::Pull { .. }
        | RequestView::PullNext => after == before,
        RequestView::Inspect { name } => name == INSTANCE_NAME@ ==> {
            &&& after == before
            &&& response matches ResponseView::Inspected(config) ==> {
                &&& before.instance matches Some(instance)
                &&& config == instance.config
            }
        },
        RequestView::List { name } => name == INSTANCE_NAME@ ==> {
            &&& after == before
            &&& response matches ResponseView::Listed(summaries) ==> summaries == before.listing()
        },
        RequestView::Create { name, config } => name == INSTANCE_NAME@ ==> {
            if response is Created {
                &&& before.instance is None
                &&& after.directories == before.directories
                &&& after.instance matches Some(instance)
                &&& instance.id == response->id
                &&& instance.config == config
                &&& instance.state == InstanceState::Created
            } else {
                after == before
            }
        },
        RequestView::Start { name } => name == INSTANCE_NAME@ ==> {
            if response is Done {
                &&& before.instance matches Some(instance)
                &&& after == before.with_instance(Some(instance.put(InstanceState::Running)))
            } else {
                after == before
            }
        },
        RequestView::Stop { name, .. } => name == INSTANCE_NAME@ ==> {
            if response is Done {
                &&& before.instance matches Some(instance)
                &&& after == before.with_instance(Some(instance.put(InstanceState::Stopped)))
            } else {
                after == before
            }
        },
        RequestView::Restart { name, .. } => name == INSTANCE_NAME@ ==> {
            if response is Done {
                &&& before.instance matches Some(instance)
                &&& after == before.with_instance(Some(instance.put(InstanceState::Running)))
            } else {
                after == before
            }
        },
        RequestView::Remove { name, force } => name == INSTANCE_NAME@ ==> {
            if response is Done {
                &&& before.instance matches Some(instance)
                &&& force || instance.state != InstanceState::Running
                &&& after == before.with_instance(None)
            } else {
                after == before
            }
        },
        RequestView::PrepareData { path } => {
            if response is Done {
                after == Host { directories: before.directories.insert(path), ..before }
            } else {
                after == before
            }
        },
        RequestView::DeleteData { path } => {
            if response is Done {
                after == Host { directories: before.directories.remove(path), ..before }
            } else {
                after == before
            }
        },
    }
}

} // verus!
