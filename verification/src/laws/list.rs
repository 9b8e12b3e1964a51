//! What a listing achieves.

use crate::command::{deploy, list};
use crate::config::DeployOptionsView;
use crate::engine::{OutcomeView, ResponseView, StepView, STATE_RUNNING};
use crate::laws::deploy::{deploy_after, is_deploy_run, law_deploy_achieves};
use crate::model::{performs, Host};
use vstd::prelude::*;

verus! {

/// The step that a listing on this host stands at once it has been handed
/// `responses`, one after the other.
pub open spec fn list_after(responses: Seq<ResponseView>) -> StepView<list::StateView>
    decreases responses.len(),
{
    if responses.len() == 0 {
        list::begun()
    } else {
        list::list_next(list_after(responses.drop_last()).state, responses.last())
    }
}

/// Whether the `i`-th response of a listing answers the request that was made
/// then, performed on the `i`-th host and leading to the next.
pub open spec fn list_exchange(responses: Seq<ResponseView>, hosts: Seq<Host>, i: int)
    -> bool {
    &&& list_after(responses.take(i)).request matches Some(request)
    &&& performs(hosts[i], request, responses[i], hosts[i + 1])
}

/// Whether `responses` and `hosts` are a run of a listing.
pub open spec fn is_list_run(responses: Seq<ResponseView>, hosts: Seq<Host>) -> bool {
    &&& hosts.len() == responses.len() + 1
    &&& forall|i: int|
        0 <= i < responses.len() ==> #[trigger] list_exchange(responses, hosts, i)
}

/// What a listing that stands at `state` has made of the host that was as
/// `first` when it began and is as `now`: nothing. Where it has ended, its
/// lines show what the engine holds, or there are none where it failed.
pub open spec fn list_achieved(state: list::StateView, first: Host, now: Host) -> bool {
    &&& now == first
    &&& state matches list::StateView::Finished { rows, outcome } ==> match outcome {
        OutcomeView::Success(message) => {
            &&& rows == list::rows_of(first.listing())
            &&& message == Seq::<char>::empty()
        },
        OutcomeView::Failure(_, _) => rows == Seq::<list::RowView>::empty(),
    }
}

/// A run of a listing without its last exchange is a run of a listing.
proof fn lemma_list_run_shortens(responses: Seq<ResponseView>, hosts: Seq<Host>)
    requires
        is_list_run(responses, hosts),
        responses.len() > 0,
    ensures
        is_list_run(responses.drop_last(), hosts.drop_last()),
        list_exchange(responses, hosts, responses.len() - 1),
        responses.take(responses.len() - 1) == responses.drop_last(),
{
    let shorter = responses.drop_last();
    let fewer = hosts.drop_last();
    assert forall|i: int| 0 <= i < shorter.len() implies #[trigger] list_exchange(
        shorter,
        fewer,
        i,
    ) by {
        assert(list_exchange(responses, hosts, i));
        assert(shorter.take(i) =~= responses.take(i));
    }
    assert(list_exchange(responses, hosts, responses.len() - 1));
    assert(responses.take(responses.len() - 1) =~= shorter);
}

/// Along every run of a listing the host stays as it was, and a listing that
/// succeeded shows one line for each container that the engine holds under
/// the instance's name.
pub proof fn law_list_achieves(responses: Seq<ResponseView>, hosts: Seq<Host>)
    requires
        is_list_run(responses, hosts),
    ensures
        list_achieved(list_after(responses).state, hosts[0], hosts.last()),
    decreases responses.len(),
{
    if responses.len() > 0 {
        lemma_list_run_shortens(responses, hosts);
        law_list_achieves(responses.drop_last(), hosts.drop_last());
    }
}

/// Listing twice, with nothing done to the host in between, shows the same:
/// two listings that both succeed end in the same state, and the host is as
/// it was before the first.
pub proof fn law_list_is_idempotent(
    once: Seq<ResponseView>,
    hosts_once: Seq<Host>,
    again: Seq<ResponseView>,
    hosts_again: Seq<Host>,
)
    requires
        is_list_run(once, hosts_once),
        is_list_run(again, hosts_again),
        hosts_again[0] == hosts_once.last(),
        list_after(once).state matches list::StateView::Finished {
            outcome: OutcomeView::Success(_),
            ..
        },
        list_after(again).state matches list::StateView::Finished {
            outcome: OutcomeView::Success(_),
            ..
        },
    ensures
        list_after(again).state == list_after(once).state,
        hosts_again.last() == hosts_once[0],
{
    law_list_achieves(once, hosts_once);
    law_list_achieves(again, hosts_again);
}

/// After a deploy that succeeded, a listing that succeeds shows exactly one
/// line: its image is the one that was deployed, at the version that was
/// asked for, and its state is that of a running container.
pub proof fn law_deploy_then_list(
    options: DeployOptionsView,
    responses: Seq<ResponseView>,
    hosts: Seq<Host>,
    listed: Seq<ResponseView>,
    hosts_listed: Seq<Host>,
)
    requires
        is_deploy_run(options, responses, hosts),
        deploy_after(options, responses).state matches deploy::StateView::Finished(
            OutcomeView::Success(_),
        ),
        is_list_run(listed, hosts_listed),
        hosts_listed[0] == hosts.last(),
        list_after(listed).state matches list::StateView::Finished {
            outcome: OutcomeView::Success(_),
            ..
        },
    ensures
        list_after(listed).state matches list::StateView::Finished { rows, .. } && {
            &&& rows.len() == 1
            &&& rows[0].image == options.image()
            &&& rows[0].state == STATE_RUNNING@
        },
{
    law_deploy_achieves(options, responses, hosts);
    law_list_achieves(listed, hosts_listed);
}

} // verus!
