use vstd::prelude::*;
use crate::endpoint::{Endpoint, EndpointView};
use crate::endpoint_map::EndpointMap;
use crate::error::{DeviceError, DeviceErrorView};

verus! {

/// An event of one live session, broadcast to every subscriber: the
/// device signalled disconnection, or a subscribed characteristic
/// delivered a notification payload.
#[derive(Debug)]
pub enum HardwareEvent {
    Disconnected(String),
    Notification(String, Endpoint, Vec<u8>),
}

/// The mathematical value of a [`HardwareEvent`].
pub enum HardwareEventView {
    Disconnected(Seq<char>),
    Notification(Seq<char>, EndpointView, Seq<u8>),
}

impl View for HardwareEvent {
    type V = HardwareEventView;

    open spec fn view(&self) -> HardwareEventView {
        match self {
            HardwareEvent::Disconnected(device_id) => HardwareEventView::Disconnected(device_id@),
            HardwareEvent::Notification(device_id, endpoint, payload) => HardwareEventView::Notification(
                device_id@,
                endpoint@,
                payload@,
            ),
        }
    }
}

impl Clone for HardwareEvent {
    fn clone(&self) -> (other: Self)
        ensures
            other@ == self@,
    {
        match self {
            HardwareEvent::Disconnected(device_id) => HardwareEvent::Disconnected(device_id.clone()),
            HardwareEvent::Notification(device_id, endpoint, payload) => HardwareEvent::Notification(
                device_id.clone(),
                endpoint.clone(),
                vstd::slice::slice_to_vec(payload.as_slice()),
            ),
        }
    }
}

/// The views of an event sequence.
pub open spec fn event_views(events: Seq<HardwareEvent>) -> Seq<HardwareEventView> {
    events.map_values(|e: HardwareEvent| e@)
}

/// The operation one command asks of the session.
#[derive(Debug)]
pub enum CommandRequest {
    Write(Endpoint, Vec<u8>),
    Read(Endpoint),
    Subscribe(Endpoint),
    Unsubscribe(Endpoint),
}

/// The mathematical value of a [`CommandRequest`].
pub enum CommandRequestView {
    Write(EndpointView, Seq<u8>),
    Read(EndpointView),
    Subscribe(EndpointView),
    Unsubscribe(EndpointView),
}

impl View for CommandRequest {
    type V = CommandRequestView;

    open spec fn view(&self) -> CommandRequestView {
        match self {
            CommandRequest::Write(endpoint, data) => CommandRequestView::Write(endpoint@, data@),
            CommandRequest::Read(endpoint) => CommandRequestView::Read(endpoint@),
            CommandRequest::Subscribe(endpoint) => CommandRequestView::Subscribe(endpoint@),
            CommandRequest::Unsubscribe(endpoint) => CommandRequestView::Unsubscribe(endpoint@),
        }
    }
}

/// The endpoint a request targets.
pub open spec fn request_endpoint(request: CommandRequestView) -> EndpointView {
    match request {
        CommandRequestView::Write(endpoint, _) => endpoint,
        CommandRequestView::Read(endpoint) => endpoint,
        CommandRequestView::Subscribe(endpoint) => endpoint,
        CommandRequestView::Unsubscribe(endpoint) => endpoint,
    }
}

/// The bytes a write request carries.
pub open spec fn request_data(request: CommandRequestView) -> Seq<u8> {
    match request {
        CommandRequestView::Write(_, data) => data,
        _ => Seq::empty(),
    }
}

/// One command sent into the session's queue: the requested operation
/// plus the ticket of the single-resolution completion it must
/// fulfill, unique to this command instance.
#[derive(Debug)]
pub struct Command {
    pub ticket: u64,
    pub request: CommandRequest,
}

/// The mathematical value of a [`Command`].
pub struct CommandView {
    pub ticket: u64,
    pub request: CommandRequestView,
}

impl View for Command {
    type V = CommandView;

    open spec fn view(&self) -> CommandView {
        CommandView { ticket: self.ticket, request: self.request@ }
    }
}

/// What the dispatch loop does with one dequeued command: start the
/// matching platform I/O as an independent sub-task on the resolved
/// characteristic handle, or — when the target endpoint is absent
/// from the endpoint map — fail exactly that command's completion.
#[derive(Debug)]
pub enum DispatchAction {
    IssueWrite { ticket: u64, handle: u64, data: Vec<u8> },
    IssueRead { ticket: u64, handle: u64, endpoint: Endpoint },
    IssueSubscribe { ticket: u64, handle: u64, endpoint: Endpoint },
    IssueUnsubscribe { ticket: u64, handle: u64 },
    Fail { ticket: u64, error: DeviceError },
}

/// The mathematical value of a [`DispatchAction`].
pub enum DispatchActionView {
    IssueWrite { ticket: u64, handle: u64, data: Seq<u8> },
    IssueRead { ticket: u64, handle: u64, endpoint: EndpointView },
    IssueSubscribe { ticket: u64, handle: u64, endpoint: EndpointView },
    IssueUnsubscribe { ticket: u64, handle: u64 },
    Fail { ticket: u64, error: DeviceErrorView },
}

impl View for DispatchAction {
    type V = DispatchActionView;

    open spec fn view(&self) -> DispatchActionView {
        match self {
            DispatchAction::IssueWrite { ticket, handle, data } => DispatchActionView::IssueWrite {
                ticket: *ticket,
                handle: *handle,
                data: data@,
            },
            DispatchAction::IssueRead { ticket, handle, endpoint } => DispatchActionView::IssueRead {
                ticket: *ticket,
                handle: *handle,
                endpoint: endpoint@,
            },
            DispatchAction::IssueSubscribe { ticket, handle, endpoint } => DispatchActionView::IssueSubscribe {
                ticket: *ticket,
                handle: *handle,
                endpoint: endpoint@,
            },
            DispatchAction::IssueUnsubscribe { ticket, handle } => DispatchActionView::IssueUnsubscribe {
                ticket: *ticket,
                handle: *handle,
            },
            DispatchAction::Fail { ticket, error } => DispatchActionView::Fail {
                ticket: *ticket,
                error: error@,
            },
        }
    }
}

/// The views of an action sequence.
pub open spec fn action_views(actions: Seq<DispatchAction>) -> Seq<DispatchActionView> {
    actions.map_values(|a: DispatchAction| a@)
}

/// What dispatching one command does, as a function of the (immutable)
/// endpoint map and that command alone: a command whose endpoint the
/// map binds starts its platform I/O on the bound handle; any other
/// command fails its own completion with an unknown-endpoint error.
pub open spec fn dispatch_action(endpoints: Map<EndpointView, u64>, command: CommandView) -> DispatchActionView {
    let endpoint = request_endpoint(command.request);
    if !endpoints.contains_key(endpoint) {
        DispatchActionView::Fail {
            ticket: command.ticket,
            error: DeviceErrorView::UnknownEndpoint(endpoint),
        }
    } else {
        match command.request {
            CommandRequestView::Write(endpoint, data) => DispatchActionView::IssueWrite {
                ticket: command.ticket,
                handle: endpoints[endpoint],
                data,
            },
            CommandRequestView::Read(endpoint) => DispatchActionView::IssueRead {
                ticket: command.ticket,
                handle: endpoints[endpoint],
                endpoint,
            },
            CommandRequestView::Subscribe(endpoint) => DispatchActionView::IssueSubscribe {
                ticket: command.ticket,
                handle: endpoints[endpoint],
                endpoint,
            },
            CommandRequestView::Unsubscribe(endpoint) => DispatchActionView::IssueUnsubscribe {
                ticket: command.ticket,
                handle: endpoints[endpoint],
            },
        }
    }
}

/// The actions a command sequence dispatches to, pointwise.
pub open spec fn dispatch_actions(
    endpoints: Map<EndpointView, u64>,
    commands: Seq<CommandView>,
) -> Seq<DispatchActionView> {
    commands.map_values(|c: CommandView| dispatch_action(endpoints, c))
}

/// The mathematical state of one live session.
#[verifier::ext_equal]
pub struct SessionEngineView {
    pub device_id: Seq<char>,
    pub endpoints: Map<EndpointView, u64>,
    pub events: Seq<HardwareEventView>,
    pub closed: bool,
}

/// The state after a subscribed characteristic delivers one
/// notification payload: exactly that notification is appended to the
/// broadcast log; nothing else changes.
pub open spec fn with_notification(
    state: SessionEngineView,
    endpoint: EndpointView,
    payload: Seq<u8>,
) -> SessionEngineView {
    SessionEngineView {
        events: state.events.push(
            HardwareEventView::Notification(state.device_id, endpoint, payload),
        ),
        ..state
    }
}

/// The state after the platform signals disconnection: exactly one
/// Disconnected event, carrying the session's device identifier, is
/// appended to the broadcast log; nothing else changes — in
/// particular no in-flight completion is resolved by it.
pub open spec fn with_disconnect(state: SessionEngineView) -> SessionEngineView {
    SessionEngineView {
        events: state.events.push(HardwareEventView::Disconnected(state.device_id)),
        ..state
    }
}

/// The live state of one connected device: the session owns the
/// resolved endpoint map and the broadcast log of session events, and
/// its dispatch loop alone touches the physical connection. Created
/// once per successfully connected device; no further state
/// transitions after creation besides the event log growing and the
/// queue closing.
#[derive(Debug)]
pub struct SessionEngine {
    device_id: String,
    endpoints: EndpointMap,
    events: Vec<HardwareEvent>,
    closed: bool,
}

impl View for SessionEngine {
    type V = SessionEngineView;

    closed spec fn view(&self) -> SessionEngineView {
        SessionEngineView {
            device_id: self.device_id@,
            endpoints: self.endpoints@,
            events: event_views(self.events@),
            closed: self.closed,
        }
    }
}

/// An independent subscription onto one session's broadcast log. It
/// starts at the current end of the log, so a subscriber sees exactly
/// the events emitted after it subscribed and misses earlier ones; a
/// slow subscriber never blocks the session or other subscribers.
#[derive(Debug)]
pub struct EventSubscription {
    position: usize,
}

impl View for EventSubscription {
    type V = int;

    closed spec fn view(&self) -> int {
        self.position as int
    }
}

impl EventSubscription {
    /// The next event this subscriber has not yet seen, if any has
    /// been broadcast; `None` once it has caught up with the log.
    pub fn next<'a>(&mut self, engine: &'a SessionEngine) -> (event: Option<&'a HardwareEvent>)
        requires
            0 <= old(self)@ <= engine@.events.len(),
        ensures
            old(self)@ < engine@.events.len() ==> (event matches Some(e) && e@ == engine@.events[old(
                self,
            )@] && final(self)@ == old(self)@ + 1),
            old(self)@ == engine@.events.len() ==> event is None && final(self)@ == old(self)@,
    {
        if self.position < engine.event_count() {
            let event = engine.event_at(self.position);
            self.position = self.position + 1;
            Some(event)
        } else {
            None
        }
    }
}

impl SessionEngine {
    /// The session created once the startup handshake has resolved
    /// the endpoint map: its broadcast log is empty and its queue
    /// open.
    pub fn new(device_id: String, endpoints: EndpointMap) -> (engine: SessionEngine)
        ensures
            engine@ == (SessionEngineView {
                device_id: device_id@,
                endpoints: endpoints@,
                events: Seq::empty(),
                closed: false,
            }),
    {
        let engine = SessionEngine { device_id, endpoints, events: Vec::new(), closed: false };
        proof {
            assert(event_views(engine.events@) =~= Seq::<HardwareEventView>::empty());
        }
        engine
    }

    /// The identifier of the device this session is connected to.
    pub fn device_id(&self) -> (id: &String)
        ensures
            id@ == self@.device_id,
    {
        &self.device_id
    }

    /// The number of events broadcast so far.
    pub fn event_count(&self) -> (n: usize)
        ensures
            n == self@.events.len(),
    {
        self.events.len()
    }

    /// The event at one position of the broadcast log.
    pub fn event_at(&self, i: usize) -> (event: &HardwareEvent)
        requires
            i < self@.events.len(),
        ensures
            event@ == self@.events[i as int],
    {
        &self.events[i]
    }

    /// A new independent subscription, seeing every event emitted
    /// after this point and none before.
    pub fn subscribe_events(&self) -> (subscription: EventSubscription)
        ensures
            subscription@ == self@.events.len(),
    {
        EventSubscription { position: self.events.len() }
    }

    /// Serialized dispatch of one dequeued command: looks the target
    /// endpoint up in the (immutable) endpoint map and starts the
    /// matching platform I/O, or fails exactly that command's
    /// completion with an unknown-endpoint error when the map lacks
    /// the endpoint — the session itself and every other command are
    /// unaffected, as the engine is not even mutated.
    pub fn dispatch(&self, command: Command) -> (action: DispatchAction)
        ensures
            action@ == dispatch_action(self@.endpoints, command@),
    {
        let ticket = command.ticket;
        match command.request {
            CommandRequest::Write(endpoint, data) => match self.endpoints.get(&endpoint) {
                Some(handle) => DispatchAction::IssueWrite { ticket, handle, data },
                None => DispatchAction::Fail {
                    ticket,
                    error: DeviceError::UnknownEndpoint(endpoint),
                },
            },
            CommandRequest::Read(endpoint) => match self.endpoints.get(&endpoint) {
                Some(handle) => DispatchAction::IssueRead { ticket, handle, endpoint },
                None => DispatchAction::Fail {
                    ticket,
                    error: DeviceError::UnknownEndpoint(endpoint),
                },
            },
            CommandRequest::Subscribe(endpoint) => match self.endpoints.get(&endpoint) {
                Some(handle) => DispatchAction::IssueSubscribe { ticket, handle, endpoint },
                None => DispatchAction::Fail {
                    ticket,
                    error: DeviceError::UnknownEndpoint(endpoint),
                },
            },
            CommandRequest::Unsubscribe(endpoint) => match self.endpoints.get(&endpoint) {
                Some(handle) => DispatchAction::IssueUnsubscribe { ticket, handle },
                None => DispatchAction::Fail {
                    ticket,
                    error: DeviceError::UnknownEndpoint(endpoint),
                },
            },
        }
    }

    /// Bridges one value-changed callback of a subscribed
    /// characteristic into the broadcast log: exactly one notification
    /// event, tagged with the session's device identifier and the
    /// subscribed endpoint and carrying the payload bytes, is
    /// appended; nothing else changes.
    pub fn handle_notification(&mut self, endpoint: Endpoint, payload: Vec<u8>)
        ensures
            final(self)@ == with_notification(old(self)@, endpoint@, payload@),
    {
        let ghost endpoint_view = endpoint@;
        let ghost payload_view = payload@;
        let ghost before = event_views(self.events@);
        let event = HardwareEvent::Notification(self.device_id.clone(), endpoint, payload);
        let ghost event_view = event@;
        self.events.push(event);
        proof {
            assert(event_views(self.events@) =~= before.push(event_view));
            assert(self@ =~= with_notification(old(self)@, endpoint_view, payload_view));
        }
    }

    /// The one disconnect callback registered at session startup:
    /// broadcasts exactly one Disconnected event to the log; the
    /// endpoint map, queue state and everything else are unchanged,
    /// so no in-flight completion is resolved by it.
    pub fn handle_disconnect(&mut self)
        ensures
            final(self)@ == with_disconnect(old(self)@),
    {
        let ghost before = event_views(self.events@);
        let event = HardwareEvent::Disconnected(self.device_id.clone());
        let ghost event_view = event@;
        self.events.push(event);
        proof {
            assert(event_views(self.events@) =~= before.push(event_view));
            assert(self@ =~= with_disconnect(old(self)@));
        }
    }

    /// Runs the dispatch loop over a queue of arrivals: commands are
    /// dequeued in submission order and each is dispatched as an
    /// independent sub-task action; the loop stops at the queue's
    /// close — a clean shutdown, not an error. It exits without
    /// emitting any event, and arrivals behind the close are never
    /// served.
    pub fn run_to_close(&mut self, inputs: Vec<LoopInput>) -> (actions: Vec<DispatchAction>)
        requires
            !old(self)@.closed,
        ensures
            action_views(actions@) == dispatch_actions(
                old(self)@.endpoints,
                commands_before_close(input_views(inputs@)),
            ),
            final(self)@ == (SessionEngineView {
                closed: queue_closes(input_views(inputs@)),
                ..old(self)@
            }),
    {
        let ghost iviews = input_views(inputs@);
        let mut queue = inputs;
        let mut actions: Vec<DispatchAction> = Vec::new();
        let ghost mut k: int = 0;
        proof {
            assert(iviews.skip(0) =~= iviews);
            assert(action_views(actions@) =~= Seq::<DispatchActionView>::empty());
            assert(action_views(actions@) + dispatch_actions(
                old(self)@.endpoints,
                commands_before_close(iviews),
            ) =~= dispatch_actions(old(self)@.endpoints, commands_before_close(iviews)));
        }
        while queue.len() > 0
            invariant
                0 <= k <= iviews.len(),
                iviews == input_views(inputs@),
                input_views(queue@) == iviews.skip(k),
                self@ == old(self)@,
                dispatch_actions(old(self)@.endpoints, commands_before_close(iviews)) == action_views(
                    actions@,
                ) + dispatch_actions(
                    old(self)@.endpoints,
                    commands_before_close(iviews.skip(k)),
                ),
                queue_closes(iviews) == queue_closes(iviews.skip(k)),
            decreases queue.len(),
        {
            let ghost remaining = input_views(queue@);
            let input = queue.remove(0);
            proof {
                assert(remaining[0] == input@);
                assert(input_views(queue@) =~= remaining.drop_first());
                assert(remaining.drop_first() =~= iviews.skip(k + 1));
            }
            match input {
                LoopInput::Closed => {
                    self.closed = true;
                    proof {
                        assert(commands_before_close(iviews.skip(k)) =~= Seq::<CommandView>::empty());
                        assert(dispatch_actions(
                            old(self)@.endpoints,
                            commands_before_close(iviews.skip(k)),
                        ) =~= Seq::<DispatchActionView>::empty());
                        assert(action_views(actions@) + Seq::<DispatchActionView>::empty()
                            =~= action_views(actions@));
                        assert(queue_closes(iviews.skip(k)));
                        assert(self@ =~= (SessionEngineView {
                            closed: queue_closes(iviews),
                            ..old(self)@
                        }));
                    }
                    return actions;
                },
                LoopInput::Incoming(command) => {
                    let ghost cview = command@;
                    let ghost done = action_views(actions@);
                    let action = self.dispatch(command);
                    actions.push(action);
                    proof {
                        let endpoints = old(self)@.endpoints;
                        assert(action_views(actions@) =~= done.push(action@));
                        assert(commands_before_close(iviews.skip(k)) == seq![cview]
                            + commands_before_close(iviews.skip(k + 1)));
                        assert(dispatch_actions(
                            endpoints,
                            seq![cview] + commands_before_close(iviews.skip(k + 1)),
                        ) =~= seq![dispatch_action(endpoints, cview)] + dispatch_actions(
                            endpoints,
                            commands_before_close(iviews.skip(k + 1)),
                        ));
                        assert(done + (seq![dispatch_action(endpoints, cview)] + dispatch_actions(
                            endpoints,
                            commands_before_close(iviews.skip(k + 1)),
                        )) =~= done.push(action@) + dispatch_actions(
                            endpoints,
                            commands_before_close(iviews.skip(k + 1)),
                        ));
                        k = k + 1;
                    }
                },
            }
        }
        proof {
            assert(iviews.skip(k) =~= Seq::<LoopInputView>::empty());
            assert(commands_before_close(iviews.skip(k)) =~= Seq::<CommandView>::empty());
            assert(dispatch_actions(
                old(self)@.endpoints,
                commands_before_close(iviews.skip(k)),
            ) =~= Seq::<DispatchActionView>::empty());
            assert(action_views(actions@) + Seq::<DispatchActionView>::empty() =~= action_views(
                actions@,
            ));
            assert(!queue_closes(iviews));
            assert(self@ =~= (SessionEngineView { closed: queue_closes(iviews), ..old(self)@ }));
        }
        actions
    }
}

/// The value a successful read fulfills its completion with: the
/// bytes the platform returned, tagged with the requested endpoint.
#[derive(Debug)]
pub struct Reading {
    pub endpoint: Endpoint,
    pub data: Vec<u8>,
}

/// The mathematical value of a [`Reading`].
pub struct ReadingView {
    pub endpoint: EndpointView,
    pub data: Seq<u8>,
}

impl View for Reading {
    type V = ReadingView;

    open spec fn view(&self) -> ReadingView {
        ReadingView { endpoint: self.endpoint@, data: self.data@ }
    }
}

/// The view of a platform outcome carrying no value but a diagnostic
/// on failure.
pub open spec fn outcome_view(outcome: Result<(), String>) -> Result<(), Seq<char>> {
    match outcome {
        Ok(_) => Ok(()),
        Err(message) => Err(message@),
    }
}

/// The view of a platform outcome carrying bytes, or a diagnostic on
/// failure.
pub open spec fn bytes_outcome_view(outcome: Result<Vec<u8>, String>) -> Result<Seq<u8>, Seq<char>> {
    match outcome {
        Ok(bytes) => Ok(bytes@),
        Err(message) => Err(message@),
    }
}

/// The view of a completion carrying no value.
pub open spec fn completion_view(completion: Result<(), DeviceError>) -> Result<(), DeviceErrorView> {
    match completion {
        Ok(_) => Ok(()),
        Err(error) => Err(error@),
    }
}

/// The view of a read completion.
pub open spec fn reading_completion_view(
    completion: Result<Reading, DeviceError>,
) -> Result<ReadingView, DeviceErrorView> {
    match completion {
        Ok(reading) => Ok(reading@),
        Err(error) => Err(error@),
    }
}

/// What a write, subscribe or unsubscribe completion is fulfilled
/// with, as a function of that command's own platform outcome alone:
/// success when the platform accepted the call, otherwise the
/// platform's diagnostic wrapped in a communication error.
pub open spec fn io_completion(outcome: Result<(), Seq<char>>) -> Result<(), DeviceErrorView> {
    match outcome {
        Ok(_) => Ok(()),
        Err(message) => Err(DeviceErrorView::DeviceCommunication(message)),
    }
}

/// What a read completion is fulfilled with: on success, the returned
/// bytes tagged with the requested endpoint; on failure, the
/// platform's diagnostic wrapped in a communication error.
pub open spec fn read_completion(
    endpoint: EndpointView,
    outcome: Result<Seq<u8>, Seq<char>>,
) -> Result<ReadingView, DeviceErrorView> {
    match outcome {
        Ok(bytes) => Ok(ReadingView { endpoint, data: bytes }),
        Err(message) => Err(DeviceErrorView::DeviceCommunication(message)),
    }
}

/// Fulfills a write, subscribe or unsubscribe command's completion
/// from its own platform outcome. A failure is recovered into this
/// command's completion only: it never aborts the session or any
/// other in-flight command.
pub fn complete_io(outcome: Result<(), String>) -> (completion: Result<(), DeviceError>)
    ensures
        completion_view(completion) == io_completion(outcome_view(outcome)),
{
    match outcome {
        Ok(_) => Ok(()),
        Err(message) => Err(DeviceError::DeviceCommunication(message)),
    }
}

/// Fulfills a read command's completion from its own platform
/// outcome: the returned bytes are copied into a reading tagged with
/// the requested endpoint.
pub fn complete_read(endpoint: Endpoint, outcome: Result<Vec<u8>, String>) -> (completion: Result<
    Reading,
    DeviceError,
>)
    ensures
        reading_completion_view(completion) == read_completion(endpoint@, bytes_outcome_view(outcome)),
{
    match outcome {
        Ok(data) => Ok(Reading { endpoint, data }),
        Err(message) => Err(DeviceError::DeviceCommunication(message)),
    }
}

/// One arrival at the dispatch loop: the next command of the queue,
/// or the closing of the queue once every facade handle referencing
/// the session has been dropped.
#[derive(Debug)]
pub enum LoopInput {
    Incoming(Command),
    Closed,
}

/// The mathematical value of a [`LoopInput`].
pub enum LoopInputView {
    Incoming(CommandView),
    Closed,
}

impl View for LoopInput {
    type V = LoopInputView;

    open spec fn view(&self) -> LoopInputView {
        match self {
            LoopInput::Incoming(command) => LoopInputView::Incoming(command@),
            LoopInput::Closed => LoopInputView::Closed,
        }
    }
}

/// The views of an arrival sequence.
pub open spec fn input_views(inputs: Seq<LoopInput>) -> Seq<LoopInputView> {
    inputs.map_values(|i: LoopInput| i@)
}

/// The commands the loop serves: those arriving before the queue
/// closes, in submission order.
pub open spec fn commands_before_close(inputs: Seq<LoopInputView>) -> Seq<CommandView>
    decreases inputs.len(),
{
    if inputs.len() == 0 {
        Seq::empty()
    } else {
        match inputs.first() {
            LoopInputView::Closed => Seq::empty(),
            LoopInputView::Incoming(command) => seq![command] + commands_before_close(
                inputs.drop_first(),
            ),
        }
    }
}

/// Whether the queue closes somewhere in an arrival sequence.
pub open spec fn queue_closes(inputs: Seq<LoopInputView>) -> bool
    decreases inputs.len(),
{
    if inputs.len() == 0 {
        false
    } else {
        inputs.first() is Closed || queue_closes(inputs.drop_first())
    }
}

} // verus!
