use vstd::prelude::*;
use crate::error::NodeError;

verus! {

/// Where a listening task stands.
#[derive(Debug, Clone, Copy, PartialEq, Eq, Structural)]
pub enum Phase {
    /// Waiting for the transport to open the receive stream.
    Declaring,
    /// Waiting for the next payload.
    Listening,
    /// A decoded message is with the handler.
    Dispatching,
    /// Done: the stream ended or something failed. Nothing follows.
    Finished,
}

/// What the runtime reports to a listening task. `M` is the decoded
/// message, `E` the error of a handler.
pub enum ListenerEvent<M, E> {
    /// The receive stream is open.
    ReceiverDeclared,
    /// The receive stream could not be opened.
    ReceiverFailed { detail: String },
    /// A payload arrived and decoded to a message.
    Decoded(M),
    /// A payload arrived and could not be decoded.
    DecodeFailed { detail: String },
    /// The stream has no more payloads.
    StreamEnded,
    /// The handler accepted the message it was given.
    HandlerDone,
    /// The handler failed on the message it was given.
    HandlerFailed(E),
}

/// Why a listening task ended in failure.
pub enum TaskFailure<E> {
    /// The transport or the codec failed.
    Node(NodeError),
    /// The handler failed.
    Handler(E),
}

/// What a listening task does next.
pub enum ListenerAction<M, E> {
    /// Wait for the next payload.
    AwaitPayload,
    /// Lock the handler and give it this message.
    Dispatch(M),
    /// End the task with this result.
    Finish(Result<(), TaskFailure<E>>),
    /// The event does not belong to this phase; nothing to do.
    Ignore,
}

/// The topic a listening task is bound to, and its phase.
pub ghost struct ListenerView {
    pub topic: Seq<char>,
    pub phase: Phase,
}

/// The decisions of the listening task of one topic: it opens the stream,
/// hands each decoded message to the handler, one at a time, and ends on the
/// first failure or when the stream ends.
pub struct Listener {
    topic: String,
    phase: Phase,
}

impl View for Listener {
    type V = ListenerView;

    closed spec fn view(&self) -> ListenerView {
        ListenerView { topic: self.topic@, phase: self.phase }
    }
}

/// The phase after `event` arrives in `phase`.
pub open spec fn phase_after<M, E>(phase: Phase, event: ListenerEvent<M, E>) -> Phase {
    match (phase, event) {
        (Phase::Declaring, ListenerEvent::ReceiverDeclared) => Phase::Listening,
        (Phase::Declaring, ListenerEvent::ReceiverFailed { .. }) => Phase::Finished,
        (Phase::Listening, ListenerEvent::Decoded(_)) => Phase::Dispatching,
        (Phase::Listening, ListenerEvent::DecodeFailed { .. }) => Phase::Finished,
        (Phase::Listening, ListenerEvent::StreamEnded) => Phase::Finished,
        (Phase::Dispatching, ListenerEvent::HandlerDone) => Phase::Listening,
        (Phase::Dispatching, ListenerEvent::HandlerFailed(_)) => Phase::Finished,
        _ => phase,
    }
}

/// `action` is what the task on `topic` does when `event` arrives in
/// `phase`.
pub open spec fn action_for<M, E>(
    topic: Seq<char>,
    phase: Phase,
    event: ListenerEvent<M, E>,
    action: ListenerAction<M, E>,
) -> bool {
    match (phase, event) {
        (Phase::Declaring, ListenerEvent::ReceiverDeclared) => action is AwaitPayload,
        (Phase::Declaring, ListenerEvent::ReceiverFailed { detail }) => match action {
            ListenerAction::Finish(
                Err(TaskFailure::Node(NodeError::DeclareReceiverError { detail: d })),
            ) => d@ == detail@,
            _ => false,
        },
        (Phase::Listening, ListenerEvent::Decoded(m)) => action == ListenerAction::<
            M,
            E,
        >::Dispatch(m),
        (Phase::Listening, ListenerEvent::DecodeFailed { detail }) => match action {
            ListenerAction::Finish(
                Err(TaskFailure::Node(NodeError::DeserializeError { detail: d, topic: t })),
            ) => d@ == detail@ && t@ == topic,
            _ => false,
        },
        (Phase::Listening, ListenerEvent::StreamEnded) => action matches ListenerAction::Finish(
            Ok(()),
        ),
        (Phase::Dispatching, ListenerEvent::HandlerDone) => action is AwaitPayload,
        (Phase::Dispatching, ListenerEvent::HandlerFailed(e)) => action
            == ListenerAction::<M, E>::Finish(Err(TaskFailure::Handler(e))),
        _ => action is Ignore,
    }
}

impl Listener {
    /// A task for `topic` that has yet to open its stream.
    pub fn new(topic: String) -> (r: Self)
        ensures
            r@.topic == topic@,
            r@.phase == Phase::Declaring,
    {
        Listener { topic, phase: Phase::Declaring }
    }

    /// The topic the listener is bound to.
    pub fn topic(&self) -> (r: &str)
        ensures
            r@ == self@.topic,
    {
        self.topic.as_str()
    }

    /// Where the listener stands.
    pub fn phase(&self) -> (r: Phase)
        ensures
            r == self@.phase,
    {
        self.phase
    }

    /// Whether the task has ended.
    pub fn is_finished(&self) -> (r: bool)
        ensures
            r <==> self@.phase == Phase::Finished,
    {
        self.phase == Phase::Finished
    }

    /// Takes in what the runtime reports and says what to do next.
    pub fn on_event<M, E>(&mut self, event: ListenerEvent<M, E>) -> (r: ListenerAction<M, E>)
        ensures
            final(self)@.topic == old(self)@.topic,
            final(self)@.phase == phase_after(old(self)@.phase, event),
            action_for(old(self)@.topic, old(self)@.phase, event, r),
    {
        match (self.phase, event) {
            (Phase::Declaring, ListenerEvent::ReceiverDeclared) => {
                self.phase = Phase::Listening;
                ListenerAction::AwaitPayload
            },
            (Phase::Declaring, ListenerEvent::ReceiverFailed { detail }) => {
                self.phase = Phase::Finished;
                ListenerAction::Finish(
                    Err(TaskFailure::Node(NodeError::DeclareReceiverError { detail })),
                )
            },
            (Phase::Listening, ListenerEvent::Decoded(m)) => {
                self.phase = Phase::Dispatching;
                ListenerAction::Dispatch(m)
            },
            (Phase::Listening, ListenerEvent::DecodeFailed { detail }) => {
                self.phase = Phase::Finished;
                let topic = self.topic.clone();
                ListenerAction::Finish(
                    Err(TaskFailure::Node(NodeError::DeserializeError { detail, topic })),
                )
            },
            (Phase::Listening, ListenerEvent::StreamEnded) => {
                self.phase = Phase::Finished;
                ListenerAction::Finish(Ok(()))
            },
            (Phase::Dispatching, ListenerEvent::HandlerDone) => {
                self.phase = Phase::Listening;
                ListenerAction::AwaitPayload
            },
            (Phase::Dispatching, ListenerEvent::HandlerFailed(e)) => {
                self.phase = Phase::Finished;
                ListenerAction::Finish(Err(TaskFailure::Handler(e)))
            },
            _ => ListenerAction::Ignore,
        }
    }
}

/// The messages handed to the handler while `events` arrive one after the
/// other, starting in `phase`.
pub open spec fn dispatched<M, E>(phase: Phase, events: Seq<ListenerEvent<M, E>>) -> Seq<M>
    decreases events.len(),
{
    if events.len() == 0 {
        Seq::empty()
    } else {
        let head = match (phase, events[0]) {
            (Phase::Listening, ListenerEvent::Decoded(m)) => seq![m],
            _ => Seq::empty(),
        };
        head + dispatched(phase_after(phase, events[0]), events.drop_first())
    }
}

/// The phase reached once `events` have arrived, starting in `phase`.
pub open spec fn phase_after_all<M, E>(phase: Phase, events: Seq<ListenerEvent<M, E>>) -> Phase
    decreases events.len(),
{
    if events.len() == 0 {
        phase
    } else {
        phase_after_all(phase_after(phase, events[0]), events.drop_first())
    }
}

/// The events of a stream that delivers `msgs`, each decoded and accepted
/// by the handler before the next arrives.
pub open spec fn delivered<M, E>(msgs: Seq<M>) -> Seq<ListenerEvent<M, E>>
    decreases msgs.len(),
{
    if msgs.len() == 0 {
        Seq::empty()
    } else {
        seq![ListenerEvent::Decoded(msgs[0]), ListenerEvent::HandlerDone] + delivered(
            msgs.drop_first(),
        )
    }
}

/// Within one topic, messages reach the handler in the order in which the
/// stream delivers them, each once, and the task is left listening.
pub proof fn lemma_dispatch_keeps_order<M, E>(msgs: Seq<M>)
    ensures
        dispatched(Phase::Listening, delivered::<M, E>(msgs)) == msgs,
        phase_after_all(Phase::Listening, delivered::<M, E>(msgs)) == Phase::Listening,
    decreases msgs.len(),
{
    if msgs.len() > 0 {
        let rest = msgs.drop_first();
        lemma_dispatch_keeps_order::<M, E>(rest);
        let evs = delivered::<M, E>(msgs);
        let tail = delivered::<M, E>(rest);
        assert(evs[0] == ListenerEvent::<M, E>::Decoded(msgs[0]));
        assert(evs.drop_first()[0] == ListenerEvent::<M, E>::HandlerDone);
        assert(evs.drop_first().drop_first() =~= tail);
        assert(dispatched(Phase::Dispatching, evs.drop_first()) =~= dispatched(
            Phase::Listening,
            tail,
        ));
        assert(msgs =~= seq![msgs[0]] + rest);
        assert(phase_after_all(Phase::Dispatching, evs.drop_first()) == phase_after_all(
            Phase::Listening,
            tail,
        ));
    }
}

/// A payload that cannot be decoded ends the task of its topic with a
/// deserialize error that names that topic, after which the task ignores
/// everything. The task of any other topic goes on: a decoded message is
/// still handed to the handler there.
pub proof fn lemma_malformed_payload_ends_only_its_topic<M, E>(
    x: ListenerView,
    y: ListenerView,
    detail: String,
    later: ListenerEvent<M, E>,
    m: M,
    action: ListenerAction<M, E>,
)
    requires
        x.phase == Phase::Listening,
        y.phase == Phase::Listening,
        action_for(x.topic, x.phase, ListenerEvent::<M, E>::DecodeFailed { detail }, action),
    ensures
        phase_after(x.phase, ListenerEvent::<M, E>::DecodeFailed { detail }) == Phase::Finished,
        match action {
            ListenerAction::Finish(
                Err(TaskFailure::Node(NodeError::DeserializeError { detail: d, topic: t })),
            ) => t@ == x.topic && d@ == detail@,
            _ => false,
        },
        phase_after(Phase::Finished, later) == Phase::Finished,
        forall|a: ListenerAction<M, E>| action_for(x.topic, Phase::Finished, later, a) ==> a is Ignore,
        phase_after(y.phase, ListenerEvent::<M, E>::Decoded(m)) == Phase::Dispatching,
        forall|a: ListenerAction<M, E>|
            action_for(y.topic, y.phase, ListenerEvent::<M, E>::Decoded(m), a) ==> a
                == ListenerAction::<M, E>::Dispatch(m),
{
}

} // verus!
