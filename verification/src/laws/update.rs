//! What an update achieves.

use crate::command::update;
use crate::config::{update_config, ConfigView, INSTANCE_NAME};
use crate::engine::{
    ErrorKind, InstanceState, OutcomeView, RequestView, ResponseView, StepView,
};
use crate::image::{
    lemma_default_version_is_plain, lemma_retagged_keeps_repository, repository_of, retagged,
    tag_of, ILLA_BUILDER_VERSION,
};
use crate::model::{performs, Host};
use vstd::prelude::*;

verus! {

/// The step that an update on this host stands at once it has been handed
/// `responses`, one after the other.
pub open spec fn update_after(responses: Seq<ResponseView>) -> StepView<update::StateView>
    decreases responses.len(),
{
    if responses.len() == 0 {
        update::begun()
    } else {
        update::update_next(update_after(responses.drop_last()).state, responses.last())
    }
}

/// Whether the `i`-th response of an update answers the request that was made
/// then, performed on the `i`-th host and leading to the next.
pub open spec fn update_exchange(responses: Seq<ResponseView>, hosts: Seq<Host>, i: int)
    -> bool {
    &&& update_after(responses.take(i)).request matches Some(request)
    &&& performs(hosts[i], request, responses[i], hosts[i + 1])
}

/// Whether `responses` and `hosts` are a run of an update.
pub open spec fn is_update_run(responses: Seq<ResponseView>, hosts: Seq<Host>) -> bool {
    &&& hosts.len() == responses.len() + 1
    &&& forall|i: int|
        0 <= i < responses.len() ==> #[trigger] update_exchange(responses, hosts, i)
}

/// How far an update has come.
pub open spec fn update_stage(state: update::StateView) -> nat {
    match state {
        update::StateView::Pinging => 0,
        update::StateView::Inspecting => 1,
        update::StateView::Pulling(_) => 2,
        update::StateView::Removing(_) => 3,
        update::StateView::Creating(_) => 4,
        update::StateView::Starting(_) => 5,
        update::StateView::Finished(_) => 6,
    }
}

/// Whether `step` asks what an update asks at its state: a ping, then the
/// inspection of the instance, then the pull of the new image and its events,
/// then the removal of the old instance by force, then the creation of the
/// new one from the configuration that the state holds, then its start, and
/// nothing once it has ended.
pub open spec fn update_asks(step: StepView<update::StateView>) -> bool {
    match step.state {
        update::StateView::Pinging => step.request == Some(RequestView::Ping),
        update::StateView::Inspecting => step.request == Some(
            RequestView::Inspect { name: INSTANCE_NAME@ },
        ),
        update::StateView::Pulling(desired) => {
            ||| step.request == Some(RequestView::Pull { image: desired.image })
            ||| step.request == Some(RequestView::PullNext)
        },
        update::StateView::Removing(_) => step.request == Some(
            RequestView::Remove { name: INSTANCE_NAME@, force: true },
        ),
        update::StateView::Creating(desired) => step.request == Some(
            RequestView::Create { name: INSTANCE_NAME@, config: desired },
        ),
        update::StateView::Starting(_) => step.request == Some(
            RequestView::Start { name: INSTANCE_NAME@ },
        ),
        update::StateView::Finished(_) => step.request is None,
    }
}

/// Whether `now` is `first` with its instance replaced by one in `state` that
/// has the old one's configuration but for the image, which is at the default
/// version.
pub open spec fn replaced(first: Host, now: Host, state: InstanceState) -> bool {
    &&& first.instance matches Some(old)
    &&& now.instance matches Some(new)
    &&& new.config == update_config(old.config, ILLA_BUILDER_VERSION@)
    &&& new.state == state
    &&& now.directories == first.directories
}

/// What an update that stands at `state` has made of the host that was as
/// `first` when it began and is as `now`.
pub open spec fn update_achieved(state: update::StateView, first: Host, now: Host) -> bool {
    match state {
        update::StateView::Pinging | update::StateView::Inspecting => now == first,
        update::StateView::Pulling(desired) | update::StateView::Removing(desired) => {
            &&& now == first
            &&& first.instance matches Some(old)
            &&& desired == update_config(old.config, ILLA_BUILDER_VERSION@)
        },
        update::StateView::Creating(desired) => {
            &&& first.instance matches Some(old)
            &&& desired == update_config(old.config, ILLA_BUILDER_VERSION@)
            &&& now == first.with_instance(None)
        },
        update::StateView::Starting(desired) => {
            &&& first.instance matches Some(old)
            &&& desired == update_config(old.config, ILLA_BUILDER_VERSION@)
            &&& replaced(first, now, InstanceState::Created)
        },
        update::StateView::Finished(OutcomeView::Success(_)) => replaced(
            first,
            now,
            InstanceState::Running,
        ),
        update::StateView::Finished(OutcomeView::Failure(kind, _)) => {
            if kind == ErrorKind::StartFailed {
                replaced(first, now, InstanceState::Created)
            } else if kind == ErrorKind::CreateFailed || kind == ErrorKind::NameCollision {
                first.instance is Some && now == first.with_instance(None)
            } else {
                now == first
            }
        },
    }
}

/// Every response moves an update on, but for the events of the pull, which
/// leave it pulling: an update ends once the pull does, and once ended it
/// stays as it is.
pub proof fn law_update_advances(state: update::StateView, response: ResponseView)
    ensures
        ({
            let next = update::update_next(state, response).state;
            if state is Finished || (state is Pulling && response is PullEvent) {
                next == state
            } else {
                update_stage(next) > update_stage(state)
            }
        }),
{
}

/// What an update asks is settled by the state it is in, at its first step
/// and after every response. With `law_update_advances` this fixes the order
/// of its requests: the pull comes before the removal, and the removal before
/// the creation.
pub proof fn law_update_asks_in_order(state: update::StateView, response: ResponseView)
    ensures
        update_asks(update::begun()),
        update_asks(update::update_next(state, response)),
{
}

/// A run of an update without its last exchange is a run of an update.
proof fn lemma_update_run_shortens(responses: Seq<ResponseView>, hosts: Seq<Host>)
    requires
        is_update_run(responses, hosts),
        responses.len() > 0,
    ensures
        is_update_run(responses.drop_last(), hosts.drop_last()),
        update_exchange(responses, hosts, responses.len() - 1),
        responses.take(responses.len() - 1) == responses.drop_last(),
{
    let shorter = responses.drop_last();
    let fewer = hosts.drop_last();
    assert forall|i: int| 0 <= i < shorter.len() implies #[trigger] update_exchange(
        shorter,
        fewer,
        i,
    ) by {
        assert(update_exchange(responses, hosts, i));
        assert(shorter.take(i) =~= responses.take(i));
    }
    assert(update_exchange(responses, hosts, responses.len() - 1));
    assert(responses.take(responses.len() - 1) =~= shorter);
}

/// Along every run of an update the host is what the update has made of it
/// so far. An update changes nothing before the new image is there. At the
/// end of a run that succeeded the instance is replaced and runs. A run that
/// failed to create the new instance has left none; a run that failed to
/// start it has left it created; a run that failed before has left the old
/// instance as it was.
pub proof fn law_update_achieves(responses: Seq<ResponseView>, hosts: Seq<Host>)
    requires
        is_update_run(responses, hosts),
    ensures
        update_achieved(update_after(responses).state, hosts[0], hosts.last()),
    decreases responses.len(),
{
    if responses.len() > 0 {
        lemma_update_run_shortens(responses, hosts);
        law_update_achieves(responses.drop_last(), hosts.drop_last());
    }
}

/// An update that succeeds keeps the configuration of the instance but for
/// the version of its image: the mounts and the port bindings, and with them
/// the environment and the labels, are those of the old instance, and the
/// image is the old one's repository at the default version. The directories
/// of the host are untouched.
pub proof fn law_update_preserves_configuration(responses: Seq<ResponseView>, hosts: Seq<Host>)
    requires
        is_update_run(responses, hosts),
        update_after(responses).state matches update::StateView::Finished(
            OutcomeView::Success(_),
        ),
    ensures
        hosts[0].instance matches Some(old) && hosts.last().instance matches Some(new) && {
            &&& new.config.mounts == old.config.mounts
            &&& new.config.ports == old.config.ports
            &&& new.config.env == old.config.env
            &&& new.config.labels == old.config.labels
            &&& new.config.image == retagged(old.config.image, ILLA_BUILDER_VERSION@)
            &&& repository_of(new.config.image) == repository_of(old.config.image)
            &&& tag_of(new.config.image) == ILLA_BUILDER_VERSION@
            &&& new.state == InstanceState::Running
        },
        hosts.last().directories == hosts[0].directories,
{
    law_update_achieves(responses, hosts);
    lemma_default_version_is_plain();
    lemma_retagged_keeps_repository(hosts[0].instance->0.config.image, ILLA_BUILDER_VERSION@);
}

/// An update without an instance ends when the inspection fails, with the
/// host as it was.
pub proof fn law_update_without_instance(responses: Seq<ResponseView>, hosts: Seq<Host>)
    requires
        is_update_run(responses, hosts),
        hosts[0].instance is None,
        update_after(responses).request is None,
    ensures
        update_after(responses).state matches update::StateView::Finished(
            OutcomeView::Failure(kind, _),
        ) && (kind == ErrorKind::EngineUnavailable || kind == ErrorKind::NotFound),
        hosts.last() == hosts[0],
    decreases responses.len(),
{
    law_update_achieves(responses, hosts);
    if responses.len() > 0 {
        lemma_update_run_shortens(responses, hosts);
        law_update_achieves(responses.drop_last(), hosts.drop_last());
        let before = update_after(responses.drop_last()).state;
        if before is Pinging {
        } else if before is Inspecting {
        } else {
        }
    }
}

/// What an engine that does all it is asked answers to an update of an
/// instance with configuration `observed`: the ping, the inspection, then
/// `events` of the pull and its end, the removal, the creation under `id`, and
/// the start.
pub open spec fn update_smoothly(observed: ConfigView, events: Seq<ResponseView>, id: Seq<char>)
    -> Seq<ResponseView> {
    seq![ResponseView::Done, ResponseView::Inspected(observed)] + events + seq![
        ResponseView::Done,
        ResponseView::Done,
        ResponseView::Created { id },
        ResponseView::Done,
    ]
}

/// One more response leads one step on.
proof fn lemma_update_after_push(responses: Seq<ResponseView>, response: ResponseView)
    ensures
        update_after(responses.push(response)) == update::update_next(
            update_after(responses).state,
            response,
        ),
{
    assert(responses.push(response).drop_last() =~= responses);
}

/// An update stays with the pull for as long as events of it come in.
proof fn lemma_update_keeps_pulling(observed: ConfigView, events: Seq<ResponseView>)
    requires
        forall|i: int| 0 <= i < events.len() ==> events[i] is PullEvent,
    ensures
        update_after(seq![ResponseView::Done, ResponseView::Inspected(observed)] + events).state
            == update::StateView::Pulling(update_config(observed, ILLA_BUILDER_VERSION@)),
    decreases events.len(),
{
    let inspected = seq![ResponseView::Done, ResponseView::Inspected(observed)];
    if events.len() == 0 {
        let ping = Seq::<ResponseView>::empty().push(ResponseView::Done);
        assert(inspected + events =~= ping.push(ResponseView::Inspected(observed)));
        lemma_update_after_push(Seq::empty(), ResponseView::Done);
        lemma_update_after_push(ping, ResponseView::Inspected(observed));
    } else {
        lemma_update_keeps_pulling(observed, events.drop_last());
        assert(inspected + events =~= (inspected + events.drop_last()).push(events.last()));
        lemma_update_after_push(inspected + events.drop_last(), events.last());
    }
}

/// On an engine that does all it is asked, an update of an instance succeeds,
/// however many events the pull reports, and tells where the application is
/// to be found.
pub proof fn law_update_succeeds(observed: ConfigView, events: Seq<ResponseView>, id: Seq<char>)
    requires
        forall|i: int| 0 <= i < events.len() ==> events[i] is PullEvent,
    ensures
        update_after(update_smoothly(observed, events, id)) == update::finished(
            OutcomeView::Success(
                update::started(update_config(observed, ILLA_BUILDER_VERSION@)),
            ),
        ),
{
    let pulled = seq![ResponseView::Done, ResponseView::Inspected(observed)] + events;
    let created = ResponseView::Created { id };
    lemma_update_keeps_pulling(observed, events);
    lemma_update_after_push(pulled, ResponseView::Done);
    lemma_update_after_push(pulled.push(ResponseView::Done), ResponseView::Done);
    lemma_update_after_push(pulled.push(ResponseView::Done).push(ResponseView::Done), created);
    lemma_update_after_push(
        pulled.push(ResponseView::Done).push(ResponseView::Done).push(created),
        ResponseView::Done,
    );
    assert(update_smoothly(observed, events, id) =~= pulled.push(ResponseView::Done).push(
        ResponseView::Done,
    ).push(created).push(ResponseView::Done));
}

} // verus!
