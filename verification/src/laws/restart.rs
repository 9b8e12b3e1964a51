//! What a restart achieves.

use crate::command::restart;
use crate::engine::{InstanceState, OutcomeView, ResponseView, StepView};
use crate::model::{performs, Host};
use vstd::prelude::*;

verus! {

/// The step that a restart on this host stands at once it has been handed
/// `responses`, one after the other.
pub open spec fn restart_after(responses: Seq<ResponseView>) -> StepView<restart::StateView>
    decreases responses.len(),
{
    if responses.len() == 0 {
        restart::begun()
    } else {
        restart::restart_next(restart_after(responses.drop_last()).state, responses.last())
    }
}

/// Whether the `i`-th response of a restart answers the request that was made
/// then, performed on the `i`-th host and leading to the next.
pub open spec fn restart_exchange(responses: Seq<ResponseView>, hosts: Seq<Host>, i: int)
    -> bool {
    &&& restart_after(responses.take(i)).request matches Some(request)
    &&& performs(hosts[i], request, responses[i], hosts[i + 1])
}

/// Whether `responses` and `hosts` are a run of a restart.
pub open spec fn is_restart_run(responses: Seq<ResponseView>, hosts: Seq<Host>) -> bool {
    &&& hosts.len() == responses.len() + 1
    &&& forall|i: int|
        0 <= i < responses.len() ==> #[trigger] restart_exchange(responses, hosts, i)
}

/// What a restart that stands at `state` has made of the host that was as
/// `first` when it began and is as `now`.
pub open spec fn restart_achieved(state: restart::StateView, first: Host, now: Host) -> bool {
    match state {
        restart::StateView::Finished(OutcomeView::Success(_)) => {
            &&& first.instance matches Some(instance)
            &&& now == first.with_instance(Some(instance.put(InstanceState::Running)))
        },
        _ => now == first,
    }
}

/// A run of a restart without its last exchange is a run of a restart.
proof fn lemma_restart_run_shortens(responses: Seq<ResponseView>, hosts: Seq<Host>)
    requires
        is_restart_run(responses, hosts),
        responses.len() > 0,
    ensures
        is_restart_run(responses.drop_last(), hosts.drop_last()),
        restart_exchange(responses, hosts, responses.len() - 1),
        responses.take(responses.len() - 1) == responses.drop_last(),
{
    let shorter = responses.drop_last();
    let fewer = hosts.drop_last();
    assert forall|i: int| 0 <= i < shorter.len() implies #[trigger] restart_exchange(
        shorter,
        fewer,
        i,
    ) by {
        assert(restart_exchange(responses, hosts, i));
        assert(shorter.take(i) =~= responses.take(i));
    }
    assert(restart_exchange(responses, hosts, responses.len() - 1));
    assert(responses.take(responses.len() - 1) =~= shorter);
}

/// Along every run of a restart the host stays as it was until the engine has
/// done it. At the end of a run that succeeded there was an instance, and it
/// is running now, unchanged otherwise. A run that failed has changed nothing.
pub proof fn law_restart_achieves(responses: Seq<ResponseView>, hosts: Seq<Host>)
    requires
        is_restart_run(responses, hosts),
    ensures
        restart_achieved(restart_after(responses).state, hosts[0], hosts.last()),
    decreases responses.len(),
{
    if responses.len() > 0 {
        lemma_restart_run_shortens(responses, hosts);
        law_restart_achieves(responses.drop_last(), hosts.drop_last());
    }
}

} // verus!
