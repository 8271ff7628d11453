use vstd::prelude::*;
use crate::endpoint::EndpointView;
use crate::error::DeviceErrorView;
use crate::session::{
    dispatch_action, dispatch_actions, io_completion, request_data, request_endpoint, with_disconnect,
    with_notification, CommandView, DispatchActionView, HardwareEventView, SessionEngineView,
};

verus! {

/// Law: concurrent writes to distinct mapped endpoints are
/// independent. Every such command dispatches as a platform write on
/// its endpoint's bound handle — none fails at lookup — and each
/// command's completion is determined by its own platform outcome
/// alone: success exactly when the platform accepted that write, the
/// platform's diagnostic otherwise. So when the platform accepts
/// every write, all of them complete with success, regardless of
/// completion order; and a platform failure on exactly one leaves
/// every other completion unaffected.
pub proof fn lemma_concurrent_writes_independent(
    endpoints: Map<EndpointView, u64>,
    commands: Seq<CommandView>,
    outcomes: Seq<Result<(), Seq<char>>>,
)
    requires
        outcomes.len() == commands.len(),
        forall|i: int| 0 <= i < commands.len() ==> (#[trigger] commands[i].request) is Write,
        forall|i: int| 0 <= i < commands.len() ==> endpoints.contains_key(
            request_endpoint(#[trigger] commands[i].request),
        ),
        forall|i: int, j: int| 0 <= i < j < commands.len() ==> request_endpoint(commands[i].request)
            != request_endpoint(commands[j].request),
    ensures
        forall|i: int| 0 <= i < commands.len() ==> #[trigger] dispatch_action(endpoints, commands[i])
            == (DispatchActionView::IssueWrite {
            ticket: commands[i].ticket,
            handle: endpoints[request_endpoint(commands[i].request)],
            data: request_data(commands[i].request),
        }),
        forall|i: int| 0 <= i < outcomes.len() ==> (io_completion(#[trigger] outcomes[i]) is Ok
            <==> outcomes[i] is Ok),
        forall|i: int| 0 <= i < outcomes.len() ==> ((#[trigger] outcomes[i]) matches Err(message)
            ==> io_completion(outcomes[i]) == Err::<(), DeviceErrorView>(
            DeviceErrorView::DeviceCommunication(message),
        )),
{
}

/// Law: a command targeting an endpoint the map does not bind fails
/// only its own completion, with an unknown-endpoint error naming
/// that endpoint; the dispatch of every other command of the batch is
/// exactly what it would have been anyway, since each command's
/// action is a function of the immutable map and that command alone.
pub proof fn lemma_unknown_endpoint_is_isolated(
    endpoints: Map<EndpointView, u64>,
    commands: Seq<CommandView>,
    i: int,
)
    requires
        0 <= i < commands.len(),
        !endpoints.contains_key(request_endpoint(commands[i].request)),
    ensures
        dispatch_action(endpoints, commands[i]) == (DispatchActionView::Fail {
            ticket: commands[i].ticket,
            error: DeviceErrorView::UnknownEndpoint(request_endpoint(commands[i].request)),
        }),
        forall|j: int| 0 <= j < commands.len() ==> dispatch_actions(endpoints, commands)[j]
            == dispatch_action(endpoints, #[trigger] commands[j]),
{
}

/// Law: a subscriber registered before two notification payloads
/// arrive on one endpoint observes exactly those two notifications,
/// in payload order, and nothing else.
pub proof fn lemma_notifications_observed_in_order(
    state: SessionEngineView,
    endpoint: EndpointView,
    first: Seq<u8>,
    second: Seq<u8>,
)
    ensures
        with_notification(with_notification(state, endpoint, first), endpoint, second).events.skip(
            state.events.len() as int,
        ) == seq![
            HardwareEventView::Notification(state.device_id, endpoint, first),
            HardwareEventView::Notification(state.device_id, endpoint, second),
        ],
{
    assert(with_notification(with_notification(state, endpoint, first), endpoint, second).events.skip(
        state.events.len() as int,
    ) =~= seq![
        HardwareEventView::Notification(state.device_id, endpoint, first),
        HardwareEventView::Notification(state.device_id, endpoint, second),
    ]);
}

/// Law: one disconnect signal reaches every active subscriber exactly
/// once — whatever position in the broadcast log a subscriber had
/// reached, the tail it has yet to see gains exactly one Disconnected
/// event carrying the session's device identifier — and the rest of
/// the session state is unchanged, so no in-flight completion is
/// resolved by it.
pub proof fn lemma_disconnect_reaches_every_subscriber(state: SessionEngineView, position: int)
    requires
        0 <= position <= state.events.len(),
    ensures
        with_disconnect(state).events.skip(position) == state.events.skip(position).push(
            HardwareEventView::Disconnected(state.device_id),
        ),
        with_disconnect(state).endpoints == state.endpoints,
        with_disconnect(state).closed == state.closed,
        with_disconnect(state).device_id == state.device_id,
{
    assert(with_disconnect(state).events.skip(position) =~= state.events.skip(position).push(
        HardwareEventView::Disconnected(state.device_id),
    ));
}

} // verus!
