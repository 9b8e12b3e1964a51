//! What a deploy achieves.

use crate::command::deploy;
use crate::config::{deploy_config, DeployOptionsView, INSTANCE_NAME};
use crate::engine::{
    engine_unavailable, ErrorKind, InstanceState, OutcomeView, RequestView, ResponseView,
    StepView,
};
use crate::model::{performs, Host};
use crate::text::decimal;
use vstd::prelude::*;

verus! {

/// The step that a deploy with `options` on this host stands at once it has
/// been handed `responses`, one after the other.
pub open spec fn deploy_after(options: DeployOptionsView, responses: Seq<ResponseView>)
    -> StepView<deploy::StateView>
    decreases responses.len(),
{
    if responses.len() == 0 {
        deploy::begun()
    } else {
        deploy::deploy_next(
            options,
            deploy_after(options, responses.drop_last()).state,
            responses.last(),
        )
    }
}

/// Whether the `i`-th response of a deploy answers the request that the
/// deploy made then, performed on the `i`-th host and leading to the next.
pub open spec fn deploy_exchange(
    options: DeployOptionsView,
    responses: Seq<ResponseView>,
    hosts: Seq<Host>,
    i: int,
) -> bool {
    &&& deploy_after(options, responses.take(i)).request matches Some(request)
    &&& performs(hosts[i], request, responses[i], hosts[i + 1])
}

/// Whether `responses` and `hosts` are a run of a deploy with `options`.
pub open spec fn is_deploy_run(
    options: DeployOptionsView,
    responses: Seq<ResponseView>,
    hosts: Seq<Host>,
) -> bool {
    &&& hosts.len() == responses.len() + 1
    &&& forall|i: int|
        0 <= i < responses.len() ==> #[trigger] deploy_exchange(options, responses, hosts, i)
}

/// How far a deploy has come: the number of requests whose answer has moved
/// it on, at most.
pub open spec fn deploy_stage(state: deploy::StateView) -> nat {
    match state {
        deploy::StateView::Pinging => 0,
        deploy::StateView::Pulling => 1,
        deploy::StateView::PreparingData => 2,
        deploy::StateView::Creating => 3,
        deploy::StateView::Starting => 4,
        deploy::StateView::Finished(_) => 5,
    }
}

/// Whether `step` asks what a deploy asks at its state: a ping, then the
/// pull of the image and its events, then the host directory, then the
/// creation of the instance from the configuration that the options ask for,
/// then its start, and nothing once it has ended.
pub open spec fn deploy_asks(options: DeployOptionsView, step: StepView<deploy::StateView>)
    -> bool {
    match step.state {
        deploy::StateView::Pinging => step.request == Some(RequestView::Ping),
        deploy::StateView::Pulling => {
            ||| step.request == Some(RequestView::Pull { image: options.image() })
            ||| step.request == Some(RequestView::PullNext)
        },
        deploy::StateView::PreparingData => step.request == Some(
            RequestView::PrepareData { path: options.mount },
        ),
        deploy::StateView::Creating => step.request == Some(
            RequestView::Create { name: INSTANCE_NAME@, config: deploy_config(options) },
        ),
        deploy::StateView::Starting => step.request == Some(
            RequestView::Start { name: INSTANCE_NAME@ },
        ),
        deploy::StateView::Finished(_) => step.request is None,
    }
}

/// What a deploy that stands at `state` has made of the host that was as
/// `first` when it began and is as `now`.
pub open spec fn deploy_achieved(
    options: DeployOptionsView,
    state: deploy::StateView,
    first: Host,
    now: Host,
) -> bool {
    match state {
        deploy::StateView::Pinging
        | deploy::StateView::Pulling
        | deploy::StateView::PreparingData => now == first,
        deploy::StateView::Creating => now.instance == first.instance,
        deploy::StateView::Starting => {
            &&& first.instance is None
            &&& now.instance matches Some(instance)
            &&& instance.config == deploy_config(options)
            &&& instance.state == InstanceState::Created
        },
        deploy::StateView::Finished(OutcomeView::Success(_)) => {
            &&& first.instance is None
            &&& now.instance matches Some(instance)
            &&& instance.config == deploy_config(options)
            &&& instance.state == InstanceState::Running
        },
        deploy::StateView::Finished(OutcomeView::Failure(kind, _)) => {
            if kind == ErrorKind::StartFailed {
                &&& first.instance is None
                &&& now.instance matches Some(instance)
                &&& instance.config == deploy_config(options)
                &&& instance.state == InstanceState::Created
            } else if kind == ErrorKind::EngineUnavailable || kind == ErrorKind::PullFailed {
                now == first
            } else {
                now.instance == first.instance
            }
        },
    }
}

/// Every response moves a deploy on, but for the events of the pull, which
/// leave it pulling: a deploy ends once the pull does, and once ended it
/// stays as it is.
pub proof fn law_deploy_advances(
    options: DeployOptionsView,
    state: deploy::StateView,
    response: ResponseView,
)
    ensures
        ({
            let next = deploy::deploy_next(options, state, response).state;
            if state is Finished || (state is Pulling && response is PullEvent) {
                next == state
            } else {
                deploy_stage(next) > deploy_stage(state)
            }
        }),
{
}

/// What a deploy asks is settled by the state it is in, at its first step and
/// after every response. With `law_deploy_advances` this fixes the order of
/// its requests.
pub proof fn law_deploy_asks_in_order(
    options: DeployOptionsView,
    state: deploy::StateView,
    response: ResponseView,
)
    ensures
        deploy_asks(options, deploy::begun()),
        deploy_asks(options, deploy::deploy_next(options, state, response)),
{
}

/// A deploy whose ping finds no engine ends at once with that failure, and
/// asks for nothing more whatever it is handed then: no request to create or
/// to start a container is ever made.
pub proof fn law_deploy_without_engine(options: DeployOptionsView, responses: Seq<ResponseView>)
    requires
        responses.len() >= 1,
        !(responses[0] is Done),
    ensures
        deploy_after(options, responses) == deploy::finished(engine_unavailable()),
        forall|i: int|
            0 <= i <= responses.len() ==> {
                let request = #[trigger] deploy_after(options, responses.take(i)).request;
                !(request matches Some(RequestView::Create { .. })) && !(request matches Some(
                    RequestView::Start { .. },
                ))
            },
    decreases responses.len(),
{
    if responses.len() == 1 {
        assert(responses.drop_last().len() == 0);
    } else {
        let shorter = responses.drop_last();
        law_deploy_without_engine(options, shorter);
    }
    assert forall|i: int| 0 <= i <= responses.len() implies {
        let request = #[trigger] deploy_after(options, responses.take(i)).request;
        !(request matches Some(RequestView::Create { .. })) && !(request matches Some(
            RequestView::Start { .. },
        ))
    } by {
        if i == 0 {
            assert(responses.take(0).len() == 0);
        } else if i == responses.len() {
            assert(responses.take(i) =~= responses);
        } else {
            let shorter = responses.drop_last();
            assert(shorter.take(i) =~= responses.take(i));
        }
    }
}

/// A run of a deploy without its last exchange is a run of a deploy.
proof fn lemma_deploy_run_shortens(
    options: DeployOptionsView,
    responses: Seq<ResponseView>,
    hosts: Seq<Host>,
)
    requires
        is_deploy_run(options, responses, hosts),
        responses.len() > 0,
    ensures
        is_deploy_run(options, responses.drop_last(), hosts.drop_last()),
        deploy_exchange(options, responses, hosts, responses.len() - 1),
        responses.take(responses.len() - 1) == responses.drop_last(),
{
    let shorter = responses.drop_last();
    let fewer = hosts.drop_last();
    assert forall|i: int| 0 <= i < shorter.len() implies #[trigger] deploy_exchange(
        options,
        shorter,
        fewer,
        i,
    ) by {
        assert(deploy_exchange(options, responses, hosts, i));
        assert(shorter.take(i) =~= responses.take(i));
    }
    assert(deploy_exchange(options, responses, hosts, responses.len() - 1));
    assert(responses.take(responses.len() - 1) =~= shorter);
}

/// Along every run of a deploy the host is what the deploy has made of it so
/// far. At the end of a run that succeeded, the name was free before and the
/// instance now runs with the configuration that the options ask for. A run
/// that failed to start the instance has left it created; a run that failed
/// before has left no container behind, and one that found no engine or could
/// not pull the image has left the host as it was.
pub proof fn law_deploy_achieves(
    options: DeployOptionsView,
    responses: Seq<ResponseView>,
    hosts: Seq<Host>,
)
    requires
        is_deploy_run(options, responses, hosts),
    ensures
        deploy_achieved(
            options,
            deploy_after(options, responses).state,
            hosts[0],
            hosts.last(),
        ),
    decreases responses.len(),
{
    if responses.len() > 0 {
        lemma_deploy_run_shortens(options, responses, hosts);
        law_deploy_achieves(options, responses.drop_last(), hosts.drop_last());
    }
}

/// What an engine that does all it is asked answers to a deploy: the ping,
/// then `events` of the pull and its end, then the host directory, the
/// creation under `id`, and the start.
pub open spec fn deploy_smoothly(events: Seq<ResponseView>, id: Seq<char>) -> Seq<ResponseView> {
    seq![ResponseView::Done] + events + seq![
        ResponseView::Done,
        ResponseView::Done,
        ResponseView::Created { id },
        ResponseView::Done,
    ]
}

/// One more response leads one step on.
proof fn lemma_deploy_after_push(
    options: DeployOptionsView,
    responses: Seq<ResponseView>,
    response: ResponseView,
)
    ensures
        deploy_after(options, responses.push(response)) == deploy::deploy_next(
            options,
            deploy_after(options, responses).state,
            response,
        ),
{
    assert(responses.push(response).drop_last() =~= responses);
}

/// A deploy stays with the pull for as long as events of it come in.
proof fn lemma_deploy_keeps_pulling(options: DeployOptionsView, events: Seq<ResponseView>)
    requires
        forall|i: int| 0 <= i < events.len() ==> events[i] is PullEvent,
    ensures
        deploy_after(options, seq![ResponseView::Done] + events).state
            == deploy::StateView::Pulling,
    decreases events.len(),
{
    let ping = seq![ResponseView::Done];
    if events.len() == 0 {
        assert(ping + events =~= Seq::<ResponseView>::empty().push(ResponseView::Done));
        lemma_deploy_after_push(options, Seq::empty(), ResponseView::Done);
    } else {
        lemma_deploy_keeps_pulling(options, events.drop_last());
        assert(ping + events =~= (ping + events.drop_last()).push(events.last()));
        lemma_deploy_after_push(options, ping + events.drop_last(), events.last());
    }
}

/// On an engine that does all it is asked, a deploy succeeds, however many
/// events the pull reports, and tells where the application is to be found.
pub proof fn law_deploy_succeeds(
    options: DeployOptionsView,
    events: Seq<ResponseView>,
    id: Seq<char>,
)
    requires
        forall|i: int| 0 <= i < events.len() ==> events[i] is PullEvent,
    ensures
        deploy_after(options, deploy_smoothly(events, id)) == deploy::finished(
            OutcomeView::Success(deploy::STARTED@ + decimal(options.port as nat)),
        ),
{
    let pulled = seq![ResponseView::Done] + events;
    let created = ResponseView::Created { id };
    lemma_deploy_keeps_pulling(options, events);
    lemma_deploy_after_push(options, pulled, ResponseView::Done);
    lemma_deploy_after_push(options, pulled.push(ResponseView::Done), ResponseView::Done);
    lemma_deploy_after_push(
        options,
        pulled.push(ResponseView::Done).push(ResponseView::Done),
        created,
    );
    lemma_deploy_after_push(
        options,
        pulled.push(ResponseView::Done).push(ResponseView::Done).push(created),
        ResponseView::Done,
    );
    assert(deploy_smoothly(events, id) =~= pulled.push(ResponseView::Done).push(
        ResponseView::Done,
    ).push(created).push(ResponseView::Done));
}

} // verus!
