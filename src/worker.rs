use vstd::prelude::*;

use crate::channel::{transform_result, ChannelDefinition, TransformKind};
use crate::transform::asay_record;
use crate::json::JsonValue;
use crate::message::{MessageView, OutboundMessage};

verus! {

/// Why a channel worker stopped.
#[derive(Debug, Clone, Copy, PartialEq, Eq, Structural)]
pub enum TerminationReason {
    /// No subscription-capable connection could be had from the broker.
    ConnectionUnavailable,
    /// The broker refused the subscription.
    SubscribeFailed,
    /// The payload stream ended.
    StreamClosed,
}

/// Where a channel worker stands.
#[derive(Debug, Clone, Copy, PartialEq, Eq, Structural)]
pub enum WorkerState {
    /// Setting up its subscription.
    Starting,
    /// Subscribed, and no event consumed yet.
    Subscribed,
    /// Consuming its payload stream.
    Listening,
    /// Stopped for good.
    Terminated(TerminationReason),
}

/// What happened outside since the worker's last action.
#[derive(Debug)]
pub enum WorkerEvent {
    /// No connection could be had from the broker.
    ConnectFailed,
    /// The subscribe call failed.
    SubscribeFailed,
    /// The subscription is in place.
    Subscribed,
    /// A poll of the stream yielded no item.
    NoItem,
    /// An item arrived whose payload could not be extracted.
    ExtractFailed,
    /// A payload arrived: its JSON document, or `None` where it is not JSON.
    Payload(Option<JsonValue>),
    /// The last message was delivered.
    Delivered,
    /// Delivering the last message failed.
    DeliveryFailed,
    /// The stream ended.
    StreamClosed,
}

/// What the worker asks to be done next.
#[derive(Debug, Clone, PartialEq, Eq)]
pub enum WorkerAction {
    /// Acquire a connection and subscribe to this topic.
    Subscribe(String),
    /// Wait for the next item of the stream.
    Poll,
    /// Send a message to a destination.
    Deliver(u64, OutboundMessage),
    /// Nothing: the event did not fit the worker's state.
    Idle,
    /// End the worker.
    Stop,
}

/// An action as mathematical values.
pub enum ActionView {
    Subscribe(Seq<char>),
    Poll,
    Deliver(u64, MessageView),
    Idle,
    Stop,
}

impl View for WorkerAction {
    type V = ActionView;

    open spec fn view(&self) -> ActionView {
        match self {
            WorkerAction::Subscribe(t) => ActionView::Subscribe(t@),
            WorkerAction::Poll => ActionView::Poll,
            WorkerAction::Deliver(d, m) => ActionView::Deliver(*d, m@),
            WorkerAction::Idle => ActionView::Idle,
            WorkerAction::Stop => ActionView::Stop,
        }
    }
}

/// Whether a worker in this state consumes its stream.
pub open spec fn is_live(s: WorkerState) -> bool {
    s is Subscribed || s is Listening
}

/// The state a worker moves to on an event.
pub open spec fn next_state(s: WorkerState, e: WorkerEvent) -> WorkerState {
    match s {
        WorkerState::Starting => match e {
            WorkerEvent::ConnectFailed => WorkerState::Terminated(
                TerminationReason::ConnectionUnavailable,
            ),
            WorkerEvent::SubscribeFailed => WorkerState::Terminated(
                TerminationReason::SubscribeFailed,
            ),
            WorkerEvent::Subscribed => WorkerState::Subscribed,
            _ => s,
        },
        WorkerState::Subscribed | WorkerState::Listening => match e {
            WorkerEvent::NoItem | WorkerEvent::ExtractFailed | WorkerEvent::Payload(_)
            | WorkerEvent::Delivered | WorkerEvent::DeliveryFailed => WorkerState::Listening,
            WorkerEvent::StreamClosed => WorkerState::Terminated(TerminationReason::StreamClosed),
            _ => s,
        },
        WorkerState::Terminated(_) => s,
    }
}

/// The action a worker of channel `def` takes on an event.
pub open spec fn next_action(def: ChannelDefinition, s: WorkerState, e: WorkerEvent) -> ActionView {
    match s {
        WorkerState::Starting => match e {
            WorkerEvent::ConnectFailed | WorkerEvent::SubscribeFailed => ActionView::Stop,
            WorkerEvent::Subscribed => ActionView::Poll,
            _ => ActionView::Idle,
        },
        WorkerState::Subscribed | WorkerState::Listening => match e {
            WorkerEvent::NoItem | WorkerEvent::ExtractFailed | WorkerEvent::Delivered
            | WorkerEvent::DeliveryFailed => ActionView::Poll,
            WorkerEvent::Payload(p) => match transform_result(def.transform, p) {
                Some(m) => ActionView::Deliver(def.output_destination, m),
                None => ActionView::Poll,
            },
            WorkerEvent::StreamClosed => ActionView::Stop,
            _ => ActionView::Idle,
        },
        WorkerState::Terminated(_) => ActionView::Stop,
    }
}

/// The worker that runs one channel: it subscribes to the channel's topic once,
/// then consumes payloads in order, delivering what its transform yields.
pub struct ChannelWorker {
    pub definition: ChannelDefinition,
    pub state: WorkerState,
}

impl ChannelWorker {
    /// A worker for a channel, with its first action: subscribing to the topic.
    pub fn start(definition: ChannelDefinition) -> (r: (ChannelWorker, WorkerAction))
        ensures
            r.0.definition == definition,
            r.0.state == WorkerState::Starting,
            r.1@ == ActionView::Subscribe(definition.subscription_topic@),
    {
        let topic = definition.subscription_topic.clone();
        (ChannelWorker { definition, state: WorkerState::Starting }, WorkerAction::Subscribe(topic))
    }

    /// The worker's current state.
    pub fn state(&self) -> (r: WorkerState)
        ensures
            r == self.state,
    {
        self.state
    }

    /// Whether the worker has stopped for good.
    pub fn is_terminated(&self) -> (r: bool)
        ensures
            r == self.state is Terminated,
    {
        match self.state {
            WorkerState::Terminated(_) => true,
            _ => false,
        }
    }

    /// Takes one event and says what to do next.
    ///
    /// Failures tied to one payload (a payload that cannot be extracted or
    /// decoded, a failed delivery) are skipped and the worker polls again; only
    /// a failed setup or the end of the stream stops it. It never subscribes
    /// a second time.
    pub fn step(&mut self, event: WorkerEvent) -> (a: WorkerAction)
        ensures
            final(self).definition == old(self).definition,
            final(self).state == next_state(old(self).state, event),
            a@ == next_action(old(self).definition, old(self).state, event),
            !(a is Subscribe),
    {
        match self.state {
            WorkerState::Starting => match event {
                WorkerEvent::ConnectFailed => {
                    self.state = WorkerState::Terminated(TerminationReason::ConnectionUnavailable);
                    WorkerAction::Stop
                },
                WorkerEvent::SubscribeFailed => {
                    self.state = WorkerState::Terminated(TerminationReason::SubscribeFailed);
                    WorkerAction::Stop
                },
                WorkerEvent::Subscribed => {
                    self.state = WorkerState::Subscribed;
                    WorkerAction::Poll
                },
                _ => WorkerAction::Idle,
            },
            WorkerState::Subscribed | WorkerState::Listening => match event {
                WorkerEvent::NoItem | WorkerEvent::ExtractFailed | WorkerEvent::Delivered
                | WorkerEvent::DeliveryFailed => {
                    self.state = WorkerState::Listening;
                    WorkerAction::Poll
                },
                WorkerEvent::Payload(p) => {
                    self.state = WorkerState::Listening;
                    match self.definition.transform.apply(&p) {
                        Some(m) => WorkerAction::Deliver(self.definition.output_destination, m),
                        None => WorkerAction::Poll,
                    }
                },
                WorkerEvent::StreamClosed => {
                    self.state = WorkerState::Terminated(TerminationReason::StreamClosed);
                    WorkerAction::Stop
                },
                _ => WorkerAction::Idle,
            },
            WorkerState::Terminated(_) => WorkerAction::Stop,
        }
    }
}


/// The state a worker reaches through a sequence of events.
pub open spec fn run(s: WorkerState, events: Seq<WorkerEvent>) -> WorkerState
    decreases events.len(),
{
    if events.len() == 0 {
        s
    } else {
        run(next_state(s, events[0]), events.drop_first())
    }
}

/// The states two workers reach when the events of a schedule arrive in turn,
/// each tagged `true` for the first worker and `false` for the second.
pub open spec fn run_pair(
    first: WorkerState,
    second: WorkerState,
    schedule: Seq<(bool, WorkerEvent)>,
) -> (WorkerState, WorkerState)
    decreases schedule.len(),
{
    if schedule.len() == 0 {
        (first, second)
    } else if schedule[0].0 {
        run_pair(next_state(first, schedule[0].1), second, schedule.drop_first())
    } else {
        run_pair(first, next_state(second, schedule[0].1), schedule.drop_first())
    }
}

/// The events of a schedule that go to one worker, in order.
pub open spec fn events_for(schedule: Seq<(bool, WorkerEvent)>, side: bool) -> Seq<WorkerEvent>
    decreases schedule.len(),
{
    if schedule.len() == 0 {
        Seq::empty()
    } else if schedule[0].0 == side {
        seq![schedule[0].1] + events_for(schedule.drop_first(), side)
    } else {
        events_for(schedule.drop_first(), side)
    }
}

proof fn lemma_run_first(s: WorkerState, e: WorkerEvent, rest: Seq<WorkerEvent>)
    ensures
        run(s, seq![e] + rest) == run(next_state(s, e), rest),
{
    let events = seq![e] + rest;
    assert(events[0] == e);
    assert(events.drop_first() =~= rest);
}

/// Two workers progress independently: whatever the interleaving of their
/// events, each ends in the state that its own events alone lead to. A worker
/// that fails, or receives nothing, leaves the other as it would be without it.
pub proof fn lemma_workers_independent(
    first: WorkerState,
    second: WorkerState,
    schedule: Seq<(bool, WorkerEvent)>,
)
    ensures
        run_pair(first, second, schedule).0 == run(first, events_for(schedule, true)),
        run_pair(first, second, schedule).1 == run(second, events_for(schedule, false)),
    decreases schedule.len(),
{
    if schedule.len() > 0 {
        let e = schedule[0].1;
        let rest = schedule.drop_first();
        if schedule[0].0 {
            lemma_workers_independent(next_state(first, e), second, rest);
            lemma_run_first(first, e, events_for(rest, true));
        } else {
            lemma_workers_independent(first, next_state(second, e), rest);
            lemma_run_first(second, e, events_for(rest, false));
        }
    }
}

/// A failed delivery does not stop a worker: it keeps listening, polls again,
/// and handles the next payload exactly as after a successful delivery.
pub proof fn lemma_delivery_failure_not_fatal(
    def: ChannelDefinition,
    s: WorkerState,
    next: Option<JsonValue>,
)
    requires
        is_live(s),
    ensures
        next_state(s, WorkerEvent::DeliveryFailed) == WorkerState::Listening,
        next_action(def, s, WorkerEvent::DeliveryFailed) == ActionView::Poll,
        next_action(def, next_state(s, WorkerEvent::DeliveryFailed), WorkerEvent::Payload(next))
            == next_action(def, next_state(s, WorkerEvent::Delivered), WorkerEvent::Payload(next)),
        next_action(def, next_state(s, WorkerEvent::DeliveryFailed), WorkerEvent::Payload(next))
            == match transform_result(def.transform, next) {
            Some(m) => ActionView::Deliver(def.output_destination, m),
            None => ActionView::Poll,
        },
{
}

/// A payload that is not JSON, or that does not encode a chat line, yields no
/// message on any channel, and the worker keeps listening for the next event.
pub proof fn lemma_malformed_payload_skipped(
    def: ChannelDefinition,
    s: WorkerState,
    payload: Option<JsonValue>,
)
    requires
        is_live(s),
        payload is None || asay_record(payload.unwrap()) is None,
    ensures
        transform_result(def.transform, payload) is None,
        next_state(s, WorkerEvent::Payload(payload)) == WorkerState::Listening,
        next_action(def, s, WorkerEvent::Payload(payload)) == ActionView::Poll,
{
}

/// Every transform other than the chat-line one yields no message, whatever
/// the payload.
pub proof fn lemma_stub_transforms_silent(kind: TransformKind, payload: Option<JsonValue>)
    requires
        kind != TransformKind::Asay,
    ensures
        transform_result(kind, payload) is None,
{
}

} // verus!
