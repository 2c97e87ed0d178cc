//! The connection manager: the state of the one broker connection and the
//! decisions of its reconnect loop.
//!
//! The loop that polls the transport lives outside. It hands every outcome of
//! a poll to [`MqttService::on_poll`] and carries out the actions it gets
//! back, in order. Subscriptions that were acknowledged by the transport are
//! tracked here; nothing a poll brings ever removes one, and each is issued
//! again when the broker acknowledges a connection.

use crate::event::{EventView, MqttEvent};
use crate::keyed::{as_map, put_key, put_value, Keyed};
use vstd::prelude::*;
use vstd::string::*;

verus! {

/// The delay before the first retry, in seconds, and the delay to which a
/// successful connection resets.
pub const BACKOFF_FLOOR_SECS: u64 = 1;

/// No single wait before a retry is longer than this many seconds.
pub const BACKOFF_WAIT_CAP_SECS: u64 = 30;

/// The delay stops doubling at this many seconds.
pub const BACKOFF_CEILING_SECS: u64 = 60;

/// The pause after each subscription that is issued again on request, in milliseconds.
pub const RESUBSCRIBE_PAUSE_MS: u64 = 50;

/// How many events the bus holds for a reader that has fallen behind; older
/// events are lost to that reader alone.
pub const EVENT_BUS_CAPACITY: usize = 256;

/// The delivery guarantee of a publish or a subscription.
#[derive(Debug, Clone, Copy, PartialEq, Eq, Structural)]
pub enum QoS {
    AtMostOnce,
    AtLeastOnce,
    ExactlyOnce,
}

/// Why the transport refused a request.
#[derive(Debug, Clone, Copy, PartialEq, Eq, Structural)]
pub enum ClientError {
    /// The request could not be handed to the event loop.
    Request,
    /// The request could not be handed to the event loop without waiting.
    TryRequest,
}

/// A tracked subscription.
#[derive(Debug, Clone, PartialEq, Eq)]
pub struct Subscription {
    pub topic: String,
    pub qos: QoS,
}

/// What a poll of the transport brought.
#[derive(Debug, Clone, PartialEq, Eq)]
pub enum PollOutcome {
    /// The broker acknowledged the connection.
    ConnAck,
    /// A message arrived.
    Publish { topic: String, payload: Vec<u8> },
    /// The broker acknowledged a publish.
    PubAck(u16),
    /// A disconnect that was asked for went out.
    DisconnectSent,
    /// Anything else the transport reports.
    Other,
    /// The transport failed.
    Failed,
}

/// The outcome of a poll over mathematical values.
pub enum PollView {
    ConnAck,
    Publish { topic: Seq<char>, payload: Seq<u8> },
    PubAck(u16),
    DisconnectSent,
    Other,
    Failed,
}

impl View for PollOutcome {
    type V = PollView;

    open spec fn view(&self) -> PollView {
        match self {
            PollOutcome::ConnAck => PollView::ConnAck,
            PollOutcome::Publish { topic, payload } => PollView::Publish {
                topic: topic@,
                payload: payload@,
            },
            PollOutcome::PubAck(id) => PollView::PubAck(*id),
            PollOutcome::DisconnectSent => PollView::DisconnectSent,
            PollOutcome::Other => PollView::Other,
            PollOutcome::Failed => PollView::Failed,
        }
    }
}

/// What the reconnect loop is to do next.
#[derive(Debug, Clone, PartialEq, Eq)]
pub enum Action {
    /// Put the event on the bus.
    Emit(MqttEvent),
    /// Issue the subscription; a failure is noted and passed over.
    Subscribe { topic: String, qos: QoS },
    /// Wait this many seconds.
    Sleep { secs: u64 },
    /// Replace the transport by a fresh one.
    Rebuild,
}

/// An action over mathematical values.
pub enum ActionView {
    Emit(EventView),
    Subscribe { topic: Seq<char>, qos: QoS },
    Sleep { secs: u64 },
    Rebuild,
}

impl View for Action {
    type V = ActionView;

    open spec fn view(&self) -> ActionView {
        match self {
            Action::Emit(event) => ActionView::Emit(event@),
            Action::Subscribe { topic, qos } => ActionView::Subscribe { topic: topic@, qos: *qos },
            Action::Sleep { secs } => ActionView::Sleep { secs: *secs },
            Action::Rebuild => ActionView::Rebuild,
        }
    }
}

/// The views of a list of actions.
pub open spec fn action_views(actions: Seq<Action>) -> Seq<ActionView> {
    Seq::new(actions.len(), |i: int| actions[i]@)
}

/// The state of the connection over mathematical values.
pub struct ServiceView {
    /// Whether the broker has acknowledged the connection and it has not been lost since.
    pub ready: bool,
    /// The topics of the tracked subscriptions, in the order in which they were first made.
    pub topics: Seq<Seq<char>>,
    /// The delivery guarantee of each tracked subscription.
    pub levels: Seq<QoS>,
    /// The delay before the next retry, in seconds.
    pub backoff: u64,
}

impl ServiceView {
    /// The tracked subscriptions as a map from topic to delivery guarantee.
    pub open spec fn subscription_map(self) -> Map<Seq<char>, QoS> {
        as_map(self.topics, self.levels)
    }

    /// No topic is tracked twice, and the delay is within its bounds.
    pub open spec fn wf(self) -> bool {
        &&& self.topics.no_duplicates()
        &&& self.topics.len() == self.levels.len()
        &&& BACKOFF_FLOOR_SECS <= self.backoff <= BACKOFF_CEILING_SECS
    }
}

/// One subscribe action for each tracked subscription, in order.
pub open spec fn replay(topics: Seq<Seq<char>>, levels: Seq<QoS>) -> Seq<ActionView> {
    Seq::new(topics.len(), |i: int| ActionView::Subscribe { topic: topics[i], qos: levels[i] })
}

/// The smaller of two numbers.
pub open spec fn least(a: int, b: int) -> int {
    if a <= b {
        a
    } else {
        b
    }
}

/// The state after a poll and the actions that the poll calls for.
///
/// - An acknowledged connection makes the service ready, resets the delay to
///   its floor, announces `Connected` and replays every tracked subscription.
/// - A message and an acknowledged publish are announced, whatever the state.
/// - A disconnect that went out makes the service not ready and is announced.
/// - A failure makes the service not ready and is announced; the loop then
///   waits for the delay, capped, and replaces the transport. The delay doubles
///   up to its ceiling.
pub open spec fn step(s: ServiceView, outcome: PollView) -> (ServiceView, Seq<ActionView>) {
    match outcome {
        PollView::ConnAck => (
            ServiceView { ready: true, backoff: BACKOFF_FLOOR_SECS, ..s },
            seq![ActionView::Emit(EventView::Connected)] + replay(s.topics, s.levels),
        ),
        PollView::Publish { topic, payload } => (
            s,
            seq![ActionView::Emit(EventView::Publish { topic, payload })],
        ),
        PollView::PubAck(id) => (s, seq![ActionView::Emit(EventView::PubAck(id))]),
        PollView::DisconnectSent => (
            ServiceView { ready: false, ..s },
            seq![ActionView::Emit(EventView::Disconnected)],
        ),
        PollView::Other => (s, Seq::<ActionView>::empty()),
        PollView::Failed => (
            ServiceView {
                ready: false,
                backoff: least(2 * s.backoff, BACKOFF_CEILING_SECS as int) as u64,
                ..s
            },
            seq![
                ActionView::Emit(EventView::Disconnected),
                ActionView::Sleep {
                    secs: least(s.backoff as int, BACKOFF_WAIT_CAP_SECS as int) as u64,
                },
                ActionView::Rebuild,
            ],
        ),
    }
}

/// The state after a run of polls.
pub open spec fn state_after(s: ServiceView, outcomes: Seq<PollView>) -> ServiceView
    decreases outcomes.len(),
{
    if outcomes.len() == 0 {
        s
    } else {
        step(state_after(s, outcomes.drop_last()), outcomes.last()).0
    }
}

/// The actions that the poll at index `at` of a run calls for.
pub open spec fn actions_at(s: ServiceView, outcomes: Seq<PollView>, at: int) -> Seq<ActionView> {
    step(state_after(s, outcomes.take(at)), outcomes[at]).1
}

/// Whether the connection is down through a failure before the poll at `at`:
/// the transport failed earlier in the run and no connection has been
/// acknowledged since.
pub open spec fn down_before(outcomes: Seq<PollView>, at: int) -> bool {
    exists|k: int|
        0 <= k < at && #[trigger] outcomes[k] is Failed && forall|m: int|
            k < m < at ==> !(#[trigger] outcomes[m] is ConnAck)
}

/// Whether the transport brings no message and no acknowledged publish while
/// the connection is down through a failure.
pub open spec fn quiet_while_down(outcomes: Seq<PollView>) -> bool {
    forall|j: int|
        0 <= j < outcomes.len() && down_before(outcomes, j) ==> !(#[trigger] outcomes[j]
            is Publish) && !(outcomes[j] is PubAck)
}

/// A poll keeps the state well formed and never touches the tracked subscriptions.
pub proof fn lemma_step_keeps_subscriptions(s: ServiceView, outcome: PollView)
    requires
        s.wf(),
    ensures
        step(s, outcome).0.wf(),
        step(s, outcome).0.topics == s.topics,
        step(s, outcome).0.levels == s.levels,
        step(s, outcome).0.subscription_map() == s.subscription_map(),
{
}

/// Whatever the transport does, and however often it fails and reconnects,
/// the tracked subscriptions after the run are those before it.
pub proof fn lemma_subscriptions_survive(s: ServiceView, outcomes: Seq<PollView>)
    requires
        s.wf(),
    ensures
        state_after(s, outcomes).wf(),
        state_after(s, outcomes).topics == s.topics,
        state_after(s, outcomes).levels == s.levels,
        state_after(s, outcomes).subscription_map() == s.subscription_map(),
    decreases outcomes.len(),
{
    if outcomes.len() > 0 {
        lemma_subscriptions_survive(s, outcomes.drop_last());
        lemma_step_keeps_subscriptions(state_after(s, outcomes.drop_last()), outcomes.last());
    }
}

/// Every acknowledged connection of a run replays all the subscriptions that
/// were tracked when the run began: one subscribe action for each, in order,
/// after the `Connected` event.
pub proof fn lemma_reconnect_replays_all(s: ServiceView, outcomes: Seq<PollView>, at: int)
    requires
        s.wf(),
        0 <= at < outcomes.len(),
        outcomes[at] is ConnAck,
    ensures
        actions_at(s, outcomes, at) == seq![ActionView::Emit(EventView::Connected)] + replay(
            s.topics,
            s.levels,
        ),
        actions_at(s, outcomes, at).len() == 1 + s.topics.len(),
        forall|i: int|
            0 <= i < s.topics.len() ==> #[trigger] actions_at(s, outcomes, at)[1 + i]
                == (ActionView::Subscribe { topic: s.topics[i], qos: s.levels[i] }),
{
    lemma_subscriptions_survive(s, outcomes.take(at));
}

/// While the connection is down through a failure the service is not ready.
pub proof fn lemma_not_ready_while_down(s: ServiceView, outcomes: Seq<PollView>, at: int)
    requires
        0 <= at <= outcomes.len(),
        down_before(outcomes, at),
    ensures
        !state_after(s, outcomes.take(at)).ready,
    decreases at,
{
    let k = choose|k: int|
        0 <= k < at && #[trigger] outcomes[k] is Failed && forall|m: int|
            k < m < at ==> !(#[trigger] outcomes[m] is ConnAck);
    let run = outcomes.take(at);
    assert(run.drop_last() == outcomes.take(at - 1));
    assert(run.last() == outcomes[at - 1]);
    if k < at - 1 {
        assert(down_before(outcomes, at - 1));
        lemma_not_ready_while_down(s, outcomes, at - 1);
        assert(!(outcomes[at - 1] is ConnAck));
    }
}

/// While the connection is down through a failure, and the transport brings
/// no message for as long, the only events announced are `Disconnected`, until
/// the `Connected` of the acknowledgment that ends the outage.
pub proof fn lemma_silent_while_down(s: ServiceView, outcomes: Seq<PollView>, at: int, i: int)
    requires
        quiet_while_down(outcomes),
        0 <= at < outcomes.len(),
        down_before(outcomes, at),
        0 <= i < actions_at(s, outcomes, at).len(),
        actions_at(s, outcomes, at)[i] is Emit,
    ensures
        actions_at(s, outcomes, at)[i] == ActionView::Emit(EventView::Disconnected) || (outcomes[at]
            is ConnAck && actions_at(s, outcomes, at)[i] == ActionView::Emit(
            EventView::Connected,
        )),
{
    assert(!(outcomes[at] is Publish) && !(outcomes[at] is PubAck));
}

/// The waits of the reconnect loop are at least the floor and at most the cap.
pub proof fn lemma_wait_is_bounded(s: ServiceView, outcome: PollView, i: int)
    requires
        s.wf(),
        0 <= i < step(s, outcome).1.len(),
        step(s, outcome).1[i] is Sleep,
    ensures
        BACKOFF_FLOOR_SECS <= step(s, outcome).1[i]->secs <= BACKOFF_WAIT_CAP_SECS,
{
}

/// What to do next while the tracked subscriptions are issued again on request.
#[derive(Debug, PartialEq, Eq)]
pub enum ResubscribeStep {
    /// Wait `after_ms` milliseconds, then issue the subscription at `index`
    /// and report how it went.
    Issue { index: usize, topic: String, qos: QoS, after_ms: u64 },
    /// Wait `after_ms` milliseconds; the request is over with `result`.
    Done { result: Result<(), ClientError>, after_ms: u64 },
}

/// A step over mathematical values.
pub enum ResubscribeView {
    Issue { index: int, topic: Seq<char>, qos: QoS, after_ms: u64 },
    Done { result: Result<(), ClientError>, after_ms: u64 },
}

impl View for ResubscribeStep {
    type V = ResubscribeView;

    open spec fn view(&self) -> ResubscribeView {
        match self {
            ResubscribeStep::Issue { index, topic, qos, after_ms } => ResubscribeView::Issue {
                index: *index as int,
                topic: topic@,
                qos: *qos,
                after_ms: *after_ms,
            },
            ResubscribeStep::Done { result, after_ms } => ResubscribeView::Done {
                result: *result,
                after_ms: *after_ms,
            },
        }
    }
}

/// The step that issues the subscription at `index` after a wait, or that ends
/// the request with success when there is none at that index.
pub open spec fn issue_or_finish(s: ServiceView, index: int, after_ms: u64) -> ResubscribeView {
    if 0 <= index < s.topics.len() {
        ResubscribeView::Issue { index, topic: s.topics[index], qos: s.levels[index], after_ms }
    } else {
        ResubscribeView::Done { result: Ok(()), after_ms }
    }
}

/// The step after the subscription at `index` went as `outcome` says: a
/// failure ends the request at once with that failure, and no further
/// subscription is issued; after a success and a pause the next one is.
pub open spec fn after_subscribe(
    s: ServiceView,
    index: int,
    outcome: Result<(), ClientError>,
) -> ResubscribeView {
    match outcome {
        Err(e) => ResubscribeView::Done { result: Err(e), after_ms: 0 },
        Ok(_) => issue_or_finish(s, index + 1, RESUBSCRIBE_PAUSE_MS),
    }
}

/// The state of the one broker connection.
pub struct MqttService {
    ready: bool,
    subscriptions: Keyed<QoS>,
    backoff_secs: u64,
}

impl View for MqttService {
    type V = ServiceView;

    closed spec fn view(&self) -> ServiceView {
        ServiceView {
            ready: self.ready,
            topics: self.subscriptions.keys(),
            levels: self.subscriptions.values(),
            backoff: self.backoff_secs,
        }
    }
}

fn act(actions: &mut Vec<Action>, action: Action)
    ensures
        action_views(final(actions)@) == action_views(old(actions)@).push(action@),
{
    actions.push(action);
    assert(action_views(actions@) =~= action_views(old(actions)@).push(action@));
}

impl MqttService {
    /// No topic is tracked twice, and the delay is within its bounds.
    pub open spec fn wf(&self) -> bool {
        self@.wf()
    }

    /// A service that is not connected, tracks nothing and retries after the
    /// shortest delay.
    pub fn new() -> (r: Self)
        ensures
            r.wf(),
            r@ == (ServiceView {
                ready: false,
                topics: Seq::<Seq<char>>::empty(),
                levels: Seq::<QoS>::empty(),
                backoff: BACKOFF_FLOOR_SECS,
            }),
    {
        MqttService { ready: false, subscriptions: Keyed::new(), backoff_secs: BACKOFF_FLOOR_SECS }
    }

    /// Whether the broker connection was up when last observed.
    pub fn is_ready(&self) -> (r: bool)
        ensures
            r == self@.ready,
    {
        self.ready
    }

    /// The delay before the next retry, in seconds.
    pub fn backoff_secs(&self) -> (r: u64)
        ensures
            r == self@.backoff,
    {
        self.backoff_secs
    }

    /// How many subscriptions are tracked.
    pub fn tracked_len(&self) -> (r: usize)
        requires
            self.wf(),
        ensures
            r == self@.topics.len(),
    {
        self.subscriptions.len()
    }

    /// A copy of the tracked subscriptions, in the order in which they were first made.
    pub fn subscriptions(&self) -> (r: Vec<Subscription>)
        requires
            self.wf(),
        ensures
            r.len() == self@.topics.len(),
            forall|i: int|
                0 <= i < r.len() ==> (#[trigger] r[i]).topic@ == self@.topics[i] && r[i].qos
                    == self@.levels[i],
    {
        let mut out: Vec<Subscription> = Vec::new();
        let mut i: usize = 0;
        while i < self.subscriptions.len()
            invariant
                self.wf(),
                i <= self@.topics.len(),
                out.len() == i,
                forall|j: int|
                    0 <= j < i ==> (#[trigger] out[j]).topic@ == self@.topics[j] && out[j].qos
                        == self@.levels[j],
            decreases self@.topics.len() - i,
        {
            out.push(
                Subscription {
                    topic: self.subscriptions.key(i).clone(),
                    qos: *self.subscriptions.value(i),
                },
            );
            i += 1;
        }
        out
    }

    /// Takes note of how a subscribe call went. A subscription that the
    /// transport accepted is tracked from now on, in place of an earlier one
    /// to the same topic; one that it refused changes nothing. The outcome is
    /// handed back.
    pub fn subscribe(&mut self, topic: &str, qos: QoS, outcome: Result<(), ClientError>) -> (r:
        Result<(), ClientError>)
        requires
            old(self).wf(),
        ensures
            final(self).wf(),
            r == outcome,
            outcome is Err ==> final(self)@ == old(self)@,
            outcome is Ok ==> final(self)@ == (ServiceView {
                topics: put_key(old(self)@.topics, topic@),
                levels: put_value(old(self)@.topics, old(self)@.levels, topic@, qos),
                ..old(self)@
            }),
            outcome is Ok ==> final(self)@.subscription_map() == old(self)@.subscription_map().insert(topic@, qos),
    {
        if outcome.is_ok() {
            self.subscriptions.put(topic, qos);
        }
        outcome
    }

    /// Takes note that a disconnect was asked for: the service is not ready
    /// any more. The tracked subscriptions stay.
    pub fn disconnect(&mut self)
        requires
            old(self).wf(),
        ensures
            final(self).wf(),
            final(self)@ == (ServiceView { ready: false, ..old(self)@ }),
    {
        self.ready = false;
    }

    /// Begins to issue every tracked subscription again, in order.
    pub fn resubscribe_tracked(&self) -> (r: ResubscribeStep)
        requires
            self.wf(),
        ensures
            r@ == issue_or_finish(self@, 0, 0),
    {
        self.issue(0, 0)
    }

    /// Goes on after the subscription at `index` went as `outcome` says.
    pub fn resubscribe_next(&self, index: usize, outcome: Result<(), ClientError>) -> (r:
        ResubscribeStep)
        requires
            self.wf(),
        ensures
            r@ == after_subscribe(self@, index as int, outcome),
    {
        match outcome {
            Err(e) => ResubscribeStep::Done { result: Err(e), after_ms: 0 },
            Ok(_) => {
                if index < self.subscriptions.len() {
                    self.issue(index + 1, RESUBSCRIBE_PAUSE_MS)
                } else {
                    ResubscribeStep::Done { result: Ok(()), after_ms: RESUBSCRIBE_PAUSE_MS }
                }
            },
        }
    }

    fn issue(&self, index: usize, after_ms: u64) -> (r: ResubscribeStep)
        requires
            self.wf(),
        ensures
            r@ == issue_or_finish(self@, index as int, after_ms),
    {
        if index < self.subscriptions.len() {
            ResubscribeStep::Issue {
                index,
                topic: self.subscriptions.key(index).clone(),
                qos: *self.subscriptions.value(index),
                after_ms,
            }
        } else {
            ResubscribeStep::Done { result: Ok(()), after_ms }
        }
    }

    /// Takes in what a poll of the transport brought and returns what the
    /// reconnect loop is to do, in order.
    pub fn on_poll(&mut self, outcome: PollOutcome) -> (r: Vec<Action>)
        requires
            old(self).wf(),
        ensures
            final(self).wf(),
            (final(self)@, action_views(r@)) == step(old(self)@, outcome@),
    {
        let mut actions: Vec<Action> = Vec::new();
        assert(action_views(actions@) == Seq::<ActionView>::empty());
        match outcome {
            PollOutcome::ConnAck => {
                self.ready = true;
                act(&mut actions, Action::Emit(MqttEvent::Connected));
                let mut i: usize = 0;
                while i < self.subscriptions.len()
                    invariant
                        self.wf(),
                        self@ == (ServiceView { ready: true, ..old(self)@ }),
                        i <= self@.topics.len(),
                        action_views(actions@) == seq![ActionView::Emit(EventView::Connected)]
                            + replay(self@.topics, self@.levels).take(i as int),
                    decreases self@.topics.len() - i,
                {
                    let ghost before = action_views(actions@);
                    act(
                        &mut actions,
                        Action::Subscribe {
                            topic: self.subscriptions.key(i).clone(),
                            qos: *self.subscriptions.value(i),
                        },
                    );
                    proof {
                        let all = replay(self@.topics, self@.levels);
                        assert(all.take(i + 1) == all.take(i as int).push(all[i as int]));
                        assert(action_views(actions@) == seq![
                            ActionView::Emit(EventView::Connected),
                        ] + all.take(i + 1));
                    }
                    i += 1;
                }
                proof {
                    let all = replay(self@.topics, self@.levels);
                    assert(all.take(all.len() as int) == all);
                }
                self.backoff_secs = BACKOFF_FLOOR_SECS;
            },
            PollOutcome::Publish { topic, payload } => {
                act(&mut actions, Action::Emit(MqttEvent::Publish { topic, payload }));
            },
            PollOutcome::PubAck(id) => {
                act(&mut actions, Action::Emit(MqttEvent::PubAck(id)));
            },
            PollOutcome::DisconnectSent => {
                self.ready = false;
                act(&mut actions, Action::Emit(MqttEvent::Disconnected));
            },
            PollOutcome::Other => {},
            PollOutcome::Failed => {
                self.ready = false;
                act(&mut actions, Action::Emit(MqttEvent::Disconnected));
                let wait = if self.backoff_secs < BACKOFF_WAIT_CAP_SECS {
                    self.backoff_secs
                } else {
                    BACKOFF_WAIT_CAP_SECS
                };
                act(&mut actions, Action::Sleep { secs: wait });
                let doubled = self.backoff_secs * 2;
                self.backoff_secs = if doubled < BACKOFF_CEILING_SECS {
                    doubled
                } else {
                    BACKOFF_CEILING_SECS
                };
                act(&mut actions, Action::Rebuild);
                assert(action_views(actions@) == seq![
                    ActionView::Emit(EventView::Disconnected),
                    ActionView::Sleep { secs: wait },
                    ActionView::Rebuild,
                ]);
            },
        }
        actions
    }
}

} // verus!
