//! What a stop achieves.

use crate::command::stop;
use crate::engine::{InstanceState, OutcomeView, ResponseView, StepView};
use crate::model::{performs, Host};
use vstd::prelude::*;

verus! {

/// The step that a stop on this host stands at once it has been handed
/// `responses`, one after the other.
pub open spec fn stop_after(responses: Seq<ResponseView>) -> StepView<stop::StateView>
    decreases responses.len(),
{
    if responses.len() == 0 {
        stop::begun()
    } else {
        stop::stop_next(stop_after(responses.drop_last()).state, responses.last())
    }
}

/// Whether the `i`-th response of a stop answers the request that was made
/// then, performed on the `i`-th host and leading to the next.
pub open spec fn stop_exchange(responses: Seq<ResponseView>, hosts: Seq<Host>, i: int)
    -> bool {
    &&& stop_after(responses.take(i)).request matches Some(request)
    &&& performs(hosts[i], request, responses[i], hosts[i + 1])
}

/// Whether `responses` and `hosts` are a run of a stop.
pub open spec fn is_stop_run(responses: Seq<ResponseView>, hosts: Seq<Host>) -> bool {
    &&& hosts.len() == responses.len() + 1
    &&& forall|i: int|
        0 <= i < responses.len() ==> #[trigger] stop_exchange(responses, hosts, i)
}

/// What a stop that stands at `state` has made of the host that was as
/// `first` when it began and is as `now`.
pub open spec fn stop_achieved(state: stop::StateView, first: Host, now: Host) -> bool {
    match state {
        stop::StateView::Finished(OutcomeView::Success(_)) => {
            &&& first.instance matches Some(instance)
            &&& now == first.with_instance(Some(instance.put(InstanceState::Stopped)))
        },
        _ => now == first,
    }
}

/// A run of a stop without its last exchange is a run of a stop.
proof fn lemma_stop_run_shortens(responses: Seq<ResponseView>, hosts: Seq<Host>)
    requires
        is_stop_run(responses, hosts),
        responses.len() > 0,
    ensures
        is_stop_run(responses.drop_last(), hosts.drop_last()),
        stop_exchange(responses, hosts, responses.len() - 1),
        responses.take(responses.len() - 1) == responses.drop_last(),
{
    let shorter = responses.drop_last();
    let fewer = hosts.drop_last();
    assert forall|i: int| 0 <= i < shorter.len() implies #[trigger] stop_exchange(
        shorter,
        fewer,
        i,
    ) by {
        assert(stop_exchange(responses, hosts, i));
        assert(shorter.take(i) =~= responses.take(i));
    }
    assert(stop_exchange(responses, hosts, responses.len() - 1));
    assert(responses.take(responses.len() - 1) =~= shorter);
}

/// Along every run of a stop the host stays as it was until the engine has
/// done it. At the end of a run that succeeded there was an instance, and it
/// is stopped now, unchanged otherwise. A run that failed has changed nothing.
pub proof fn law_stop_achieves(responses: Seq<ResponseView>, hosts: Seq<Host>)
    requires
        is_stop_run(responses, hosts),
    ensures
        stop_achieved(stop_after(responses).state, hosts[0], hosts.last()),
    decreases responses.len(),
{
    if responses.len() > 0 {
        lemma_stop_run_shortens(responses, hosts);
        law_stop_achieves(responses.drop_last(), hosts.drop_last());
    }
}

} // verus!
