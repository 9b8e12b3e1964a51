//! What a removal achieves.

use crate::command::remove;
use crate::config::{data_source, INSTANCE_NAME};
use crate::engine::{OutcomeView, RequestView, ResponseView, StepView};
use crate::model::{performs, Host};
use vstd::prelude::*;

verus! {

/// The step that a removal on this host stands at once it has been handed
/// `responses`, one after the other.
pub open spec fn remove_after(force: bool, data: bool, responses: Seq<ResponseView>) -> StepView<
    remove::StateView,
>
    decreases responses.len(),
{
    if responses.len() == 0 {
        remove::begun()
    } else {
        remove::remove_next(
            force,
            data,
            remove_after(force, data, responses.drop_last()).state,
            responses.last(),
        )
    }
}

/// Whether the `i`-th response of a removal answers the request that was made
/// then, performed on the `i`-th host and leading to the next.
pub open spec fn remove_exchange(
    force: bool,
    data: bool,
    responses: Seq<ResponseView>,
    hosts: Seq<Host>,
    i: int,
) -> bool {
    &&& remove_after(force, data, responses.take(i)).request matches Some(request)
    &&& performs(hosts[i], request, responses[i], hosts[i + 1])
}

/// Whether `responses` and `hosts` are a run of a removal.
pub open spec fn is_remove_run(
    force: bool,
    data: bool,
    responses: Seq<ResponseView>,
    hosts: Seq<Host>,
) -> bool {
    &&& hosts.len() == responses.len() + 1
    &&& forall|i: int|
        0 <= i < responses.len() ==> #[trigger] remove_exchange(force, data, responses, hosts, i)
}

/// How far a removal has come.
pub open spec fn remove_stage(state: remove::StateView) -> nat {
    match state {
        remove::StateView::Pinging => 0,
        remove::StateView::Inspecting => 1,
        remove::StateView::Removing(_) => 2,
        remove::StateView::DeletingData => 3,
        remove::StateView::Finished(_) => 4,
    }
}

/// Whether `step` asks what a removal asks at its state: a ping, then the
/// inspection of the instance where the data is to go too, then the removal,
/// then the deletion of the directory that the removal kept in its state, and
/// nothing once it has ended.
pub open spec fn remove_asks(force: bool, step: StepView<remove::StateView>) -> bool {
    match step.state {
        remove::StateView::Pinging => step.request == Some(RequestView::Ping),
        remove::StateView::Inspecting => step.request == Some(
            RequestView::Inspect { name: INSTANCE_NAME@ },
        ),
        remove::StateView::Removing(_) => step.request == Some(
            RequestView::Remove { name: INSTANCE_NAME@, force },
        ),
        remove::StateView::DeletingData => step.request matches Some(
            RequestView::DeleteData { .. },
        ),
        remove::StateView::Finished(_) => step.request is None,
    }
}

/// The directory that a removal deletes on a host that is as `first`: where
/// the data is to go too, the one that the instance keeps its data in.
pub open spec fn doomed(data: bool, first: Host) -> Option<Seq<char>> {
    match first.instance {
        Some(instance) => if data {
            data_source(instance.config.mounts)
        } else {
            None
        },
        None => None,
    }
}

/// What a removal that stands at `state` has made of the host that was as
/// `first` when it began and is as `now`.
pub open spec fn remove_achieved(
    force: bool,
    data: bool,
    state: remove::StateView,
    first: Host,
    now: Host,
) -> bool {
    match state {
        remove::StateView::Pinging => now == first,
        remove::StateView::Inspecting => now == first && data,
        remove::StateView::Removing(kept) => {
            &&& now == first
            &&& kept is Some ==> kept == doomed(data, first)
            &&& kept is None && first.instance is Some ==> doomed(data, first) is None
        },
        remove::StateView::DeletingData => {
            &&& first.instance is Some
            &&& doomed(data, first) is Some
            &&& now == first.with_instance(None)
        },
        remove::StateView::Finished(OutcomeView::Success(_)) => {
            &&& first.instance is Some
            &&& now.instance is None
            &&& now.directories == match doomed(data, first) {
                Some(path) => first.directories.remove(path),
                None => first.directories,
            }
        },
        remove::StateView::Finished(OutcomeView::Failure(_, _)) => {
            &&& now.directories == first.directories
            &&& now.instance == first.instance || (now.instance is None && doomed(data, first)
                is Some)
        },
    }
}

/// Every response moves a removal on, and once ended it stays as it is: a
/// removal ends within four responses.
pub proof fn law_remove_advances(
    force: bool,
    data: bool,
    state: remove::StateView,
    response: ResponseView,
)
    ensures
        ({
            let next = remove::remove_next(force, data, state, response).state;
            if state is Finished {
                next == state
            } else {
                remove_stage(next) > remove_stage(state)
            }
        }),
{
}

/// What a removal asks is settled by the state it is in, at its first step
/// and after every response, and the directory that it asks to delete is the
/// one that it kept while the engine removed the instance. With
/// `law_remove_advances` this fixes the order of its requests: the deletion
/// of the data comes after the removal of the instance.
pub proof fn law_remove_asks_in_order(
    force: bool,
    data: bool,
    state: remove::StateView,
    response: ResponseView,
)
    ensures
        remove_asks(force, remove::begun()),
        remove_asks(force, remove::remove_next(force, data, state, response)),
        remove::remove_next(force, data, state, response).request matches Some(
            RequestView::DeleteData { path },
        ) ==> state == remove::StateView::Removing(Some(path)) && response is Done,
{
}

/// A run of a removal without its last exchange is a run of a removal.
proof fn lemma_remove_run_shortens(
    force: bool,
    data: bool,
    responses: Seq<ResponseView>,
    hosts: Seq<Host>,
)
    requires
        is_remove_run(force, data, responses, hosts),
        responses.len() > 0,
    ensures
        is_remove_run(force, data, responses.drop_last(), hosts.drop_last()),
        remove_exchange(force, data, responses, hosts, responses.len() - 1),
        responses.take(responses.len() - 1) == responses.drop_last(),
{
    let shorter = responses.drop_last();
    let fewer = hosts.drop_last();
    assert forall|i: int| 0 <= i < shorter.len() implies #[trigger] remove_exchange(
        force, data, shorter,
        fewer,
        i,
    ) by {
        assert(remove_exchange(force, data, responses, hosts, i));
        assert(shorter.take(i) =~= responses.take(i));
    }
    assert(remove_exchange(force, data, responses, hosts, responses.len() - 1));
    assert(responses.take(responses.len() - 1) =~= shorter);
}

/// While a removal deletes the data, the directory that it has asked to
/// delete is the one that the instance kept its data in.
proof fn lemma_remove_deletes_the_data(
    force: bool,
    data: bool,
    responses: Seq<ResponseView>,
    hosts: Seq<Host>,
)
    requires
        is_remove_run(force, data, responses, hosts),
    ensures
        remove_achieved(
            force,
            data,
            remove_after(force, data, responses).state,
            hosts[0],
            hosts.last(),
        ),
        remove_after(force, data, responses).state is DeletingData ==> remove_after(
            force,
            data,
            responses,
        ).request == Some(RequestView::DeleteData { path: doomed(data, hosts[0])->0 }),
    decreases responses.len(),
{
    if responses.len() > 0 {
        lemma_remove_run_shortens(force, data, responses, hosts);
        lemma_remove_deletes_the_data(force, data, responses.drop_last(), hosts.drop_last());
    }
}

/// Along every run of a removal the host is what the removal has made of it
/// so far. No directory is deleted before the engine has removed the
/// instance. At the end of a run that succeeded the instance is gone, and so
/// is the directory of its data where the data was to go too. A run that
/// failed has deleted nothing.
pub proof fn law_remove_achieves(
    force: bool,
    data: bool,
    responses: Seq<ResponseView>,
    hosts: Seq<Host>,
)
    requires
        is_remove_run(force, data, responses, hosts),
    ensures
        remove_achieved(
            force,
            data,
            remove_after(force, data, responses).state,
            hosts[0],
            hosts.last(),
        ),
{
    lemma_remove_deletes_the_data(force, data, responses, hosts);
}

/// A removal with the data deletes the directory of the data if and only if
/// the engine has removed the instance: whenever a directory is gone at the
/// end of a run, the instance is gone too, and whenever the removal of the
/// instance failed, every directory is still there.
pub proof fn law_remove_keeps_data_unless_removed(
    force: bool,
    responses: Seq<ResponseView>,
    hosts: Seq<Host>,
)
    requires
        is_remove_run(force, true, responses, hosts),
    ensures
        hosts.last().directories != hosts[0].directories ==> {
            &&& hosts[0].instance matches Some(instance)
            &&& hosts.last().instance is None
            &&& data_source(instance.config.mounts) matches Some(path)
            &&& hosts.last().directories == hosts[0].directories.remove(path)
        },
        hosts.last().instance == hosts[0].instance ==> hosts.last().directories
            == hosts[0].directories,
        remove_after(force, true, responses).state matches remove::StateView::Finished(
            OutcomeView::Success(_),
        ) ==> {
            &&& hosts[0].instance matches Some(instance)
            &&& hosts.last().instance is None
            &&& data_source(instance.config.mounts) matches Some(path)
                ==> !hosts.last().directories.contains(path)
        },
{
    law_remove_achieves(force, true, responses, hosts);
}

} // verus!
