//! The event loop: one reaction to each thing that reaches the node, in the
//! order of arrival, until the command source is closed.
//!
//! The loop itself waits on nothing. The program around it races the network
//! layer against the command source, hands whichever resolved first to
//! `EventLoop::step`, and carries out the reaction it gets back. Where both
//! are ready at once, the race decides; the loop handles what it is given.

use crate::address::PeerAddress;
use crate::behaviour::Behaviour;
use crate::behaviour::BehaviourView;
use crate::behaviour::Publication;
use crate::behaviour::PublicationView;
use crate::behaviour::PublishError;
use crate::command::Command;
use crate::command::CommandView;
use crate::event::NetworkEvent;
use crate::event::NetworkEventView;
use crate::record::dial_failed;
use crate::record::observation;
use crate::record::publish_failed;
use crate::record::sender_dropped;
use crate::record::LogRecord;
use crate::record::LogRecordView;
use vstd::prelude::*;
use vstd::string::StrSliceExecFns;

verus! {

/// The topic that chat messages are published on.
pub const CHAT_TOPIC: &'static str = "workshop-chat";

/// The second topic that the node subscribes to at startup.
pub const COMMUNITY_TOPIC: &'static str = "universal-connectivity";

/// What one race of the two sources resolved to.
#[derive(Clone, Debug, PartialEq, Eq)]
pub enum Input {
    /// The network layer had an event.
    Network(NetworkEvent),
    /// The operator had a command.
    Command(Command),
    /// The command source is closed: no command will ever arrive again.
    Closed,
}

/// The mathematical content of an `Input`.
pub enum InputView {
    Network(NetworkEventView),
    Command(CommandView),
    Closed,
}

impl View for Input {
    type V = InputView;

    open spec fn view(&self) -> InputView {
        match self {
            Input::Network(event) => InputView::Network(event@),
            Input::Command(command) => InputView::Command(command@),
            Input::Closed => InputView::Closed,
        }
    }
}

impl DeepView for Input {
    type V = InputView;

    open spec fn deep_view(&self) -> InputView {
        self@
    }
}

/// The one side effect that a reaction asks for.
#[derive(Clone, Debug, PartialEq, Eq)]
pub enum Effect {
    /// Nothing to do.
    Idle,
    /// Dial the address.
    Dial(PeerAddress),
    /// Hand the publication to the gossip handler.
    Publish(Publication),
    /// Leave the loop and release the network layer.
    Stop,
}

/// The mathematical content of an `Effect`.
pub enum EffectView {
    Idle,
    Dial(Seq<u8>),
    Publish(PublicationView),
    Stop,
}

impl View for Effect {
    type V = EffectView;

    open spec fn view(&self) -> EffectView {
        match self {
            Effect::Idle => EffectView::Idle,
            Effect::Dial(address) => EffectView::Dial(address@),
            Effect::Publish(publication) => EffectView::Publish(publication@),
            Effect::Stop => EffectView::Stop,
        }
    }
}

/// What the loop does about one input: at most one log record and one effect.
#[derive(Clone, Debug, PartialEq, Eq)]
pub struct Reaction {
    pub log: Option<LogRecord>,
    pub effect: Effect,
}

/// The mathematical content of a `Reaction`.
pub struct ReactionView {
    pub log: Option<LogRecordView>,
    pub effect: EffectView,
}

impl View for Reaction {
    type V = ReactionView;

    open spec fn view(&self) -> ReactionView {
        ReactionView {
            log: match self.log {
                Some(record) => Some(record@),
                None => None,
            },
            effect: self.effect@,
        }
    }
}

impl DeepView for Reaction {
    type V = ReactionView;

    open spec fn deep_view(&self) -> ReactionView {
        self@
    }
}

/// The words a refused publication is logged with.
pub open spec fn refusal(error: PublishError) -> Seq<char> {
    match error {
        PublishError::GossipDisabled => "gossip is disabled"@,
        PublishError::NotSubscribed => "not subscribed to the topic"@,
    }
}

/// The reaction to a command. A dial is passed on as it is. A message is
/// published on the chat topic where the aggregate accepts it; where it does
/// not, the refusal is logged and nothing else happens.
pub open spec fn command_reaction(behaviour: BehaviourView, command: CommandView) -> ReactionView {
    match command {
        CommandView::Dial(address) => ReactionView {
            log: None,
            effect: EffectView::Dial(address),
        },
        CommandView::Publish(message) => match behaviour.publish_check(CHAT_TOPIC@) {
            Ok(_) => ReactionView {
                log: None,
                effect: EffectView::Publish(
                    PublicationView {
                        topic: CHAT_TOPIC@,
                        payload: vstd::utf8::encode_utf8(message),
                    },
                ),
            },
            Err(error) => ReactionView {
                log: Some(publish_failed(refusal(error))),
                effect: EffectView::Idle,
            },
        },
    }
}

/// The reaction of a running loop to `input`.
pub open spec fn reaction(behaviour: BehaviourView, input: InputView) -> ReactionView {
    match input {
        InputView::Network(event) => ReactionView {
            log: observation(event),
            effect: EffectView::Idle,
        },
        InputView::Command(command) => command_reaction(behaviour, command),
        InputView::Closed => ReactionView { log: Some(sender_dropped()), effect: EffectView::Stop },
    }
}

/// How an effect that the loop asked for ended, as far as the loop cares.
#[derive(Clone, Debug, PartialEq, Eq)]
pub enum Outcome {
    /// The effect was carried out.
    Done,
    /// The dial could not be made; the text says why.
    DialFailed(String),
    /// The gossip handler refused the message; the text says why.
    PublishFailed(String),
}

/// The mathematical content of an `Outcome`.
pub enum OutcomeView {
    Done,
    DialFailed(Seq<char>),
    PublishFailed(Seq<char>),
}

impl View for Outcome {
    type V = OutcomeView;

    open spec fn view(&self) -> OutcomeView {
        match self {
            Outcome::Done => OutcomeView::Done,
            Outcome::DialFailed(cause) => OutcomeView::DialFailed(cause@),
            Outcome::PublishFailed(cause) => OutcomeView::PublishFailed(cause@),
        }
    }
}

/// What is logged of an effect's outcome: a warning for each failure,
/// nothing for success.
pub open spec fn aftermath(outcome: OutcomeView) -> Option<LogRecordView> {
    match outcome {
        OutcomeView::Done => None,
        OutcomeView::DialFailed(cause) => Some(dial_failed(cause)),
        OutcomeView::PublishFailed(cause) => Some(publish_failed(cause)),
    }
}

/// The reaction of a loop that has already stopped: none.
pub open spec fn no_reaction() -> ReactionView {
    ReactionView { log: None, effect: EffectView::Idle }
}

/// The aggregate as the loop holds it once startup is done: subscribed to
/// the compiled-in topics.
pub open spec fn started(behaviour: BehaviourView) -> BehaviourView {
    behaviour.subscribed_to(CHAT_TOPIC@).subscribed_to(COMMUNITY_TOPIC@)
}

/// The event loop's state: the aggregate it owns, and whether it has stopped.
#[derive(Clone, Debug, PartialEq, Eq)]
pub struct EventLoop {
    behaviour: Behaviour,
    stopped: bool,
}

/// The mathematical content of an `EventLoop`.
pub struct EventLoopView {
    pub behaviour: BehaviourView,
    pub stopped: bool,
}

impl View for EventLoop {
    type V = EventLoopView;

    closed spec fn view(&self) -> EventLoopView {
        EventLoopView { behaviour: self.behaviour@, stopped: self.stopped }
    }
}

impl EventLoop {
    /// Takes ownership of the aggregate, subscribes it to the compiled-in
    /// topics and enters the running state.
    pub fn start(behaviour: Behaviour) -> (event_loop: EventLoop)
        ensures
            event_loop@ == (EventLoopView { behaviour: started(behaviour@), stopped: false }),
    {
        let mut behaviour = behaviour;
        let _ = behaviour.subscribe(CHAT_TOPIC);
        let _ = behaviour.subscribe(COMMUNITY_TOPIC);
        EventLoop { behaviour, stopped: false }
    }

    /// The aggregate that the loop owns.
    pub fn behaviour(&self) -> (behaviour: &Behaviour)
        ensures
            behaviour@ == self@.behaviour,
    {
        &self.behaviour
    }

    /// Whether the loop has stopped.
    pub fn is_stopped(&self) -> (stopped: bool)
        ensures
            stopped == self@.stopped,
    {
        self.stopped
    }

    /// Takes note of how an effect ended. A failed dial or publication is
    /// logged and nothing more: the loop stays as it is and goes on.
    pub fn settle(&self, outcome: &Outcome) -> (record: Option<LogRecord>)
        ensures
            record is Some <==> aftermath(outcome@) is Some,
            record matches Some(r) ==> Some(r@) == aftermath(outcome@),
    {
        match outcome {
            Outcome::Done => None,
            Outcome::DialFailed(cause) => Some(LogRecord::dial_failed(cause.as_str())),
            Outcome::PublishFailed(cause) => Some(LogRecord::publish_failed(cause.as_str())),
        }
    }

    /// The reaction to a command.
    fn dispatch(&self, command: Command) -> (reaction: Reaction)
        ensures
            reaction@ == command_reaction(self@.behaviour, command@),
    {
        match command {
            Command::Dial(address) => Reaction { log: None, effect: Effect::Dial(address) },
            Command::Publish(message) => {
                let payload = message.as_str().as_bytes_vec();
                match self.behaviour.publish(CHAT_TOPIC, payload) {
                    Ok(publication) => Reaction {
                        log: None,
                        effect: Effect::Publish(publication),
                    },
                    Err(PublishError::GossipDisabled) => Reaction {
                        log: Some(LogRecord::publish_failed("gossip is disabled")),
                        effect: Effect::Idle,
                    },
                    Err(PublishError::NotSubscribed) => Reaction {
                        log: Some(LogRecord::publish_failed("not subscribed to the topic")),
                        effect: Effect::Idle,
                    },
                }
            },
        }
    }

    /// Handles one input to completion. A running loop gives the reaction
    /// that belongs to the input and stops exactly on `Input::Closed`; a
    /// stopped loop stays stopped and does nothing.
    pub fn step(&mut self, input: Input) -> (reaction: Reaction)
        ensures
            final(self)@.behaviour == old(self)@.behaviour,
            final(self)@.stopped == (old(self)@.stopped || input@ is Closed),
            reaction@ == if old(self)@.stopped {
                no_reaction()
            } else {
                self::reaction(old(self)@.behaviour, input@)
            },
    {
        if self.stopped {
            return Reaction { log: None, effect: Effect::Idle };
        }
        match input {
            Input::Network(event) => Reaction {
                log: LogRecord::observe(&event),
                effect: Effect::Idle,
            },
            Input::Command(command) => self.dispatch(command),
            Input::Closed => {
                self.stopped = true;
                Reaction { log: Some(LogRecord::sender_dropped()), effect: Effect::Stop }
            },
        }
    }
}

/// How many of `inputs` the loop handles: all of them up to and including
/// the first `Closed`, or all of them where there is none.
pub open spec fn handled(inputs: Seq<InputView>) -> nat
    decreases inputs.len(),
{
    if inputs.len() == 0 {
        0
    } else if inputs.first() is Closed {
        1
    } else {
        1 + handled(inputs.drop_first())
    }
}

/// Whether the command source is seen to close somewhere in `inputs`.
pub open spec fn closes(inputs: Seq<InputView>) -> bool {
    exists|i: int| 0 <= i < inputs.len() && inputs[i] is Closed
}

/// The reactions of a loop that holds `behaviour` to `inputs`, one for each
/// input it handles, in the order of the inputs.
pub open spec fn trace(behaviour: BehaviourView, inputs: Seq<InputView>) -> Seq<ReactionView> {
    Seq::new(handled(inputs), |i: int| reaction(behaviour, inputs[i]))
}

/// Where no `Closed` stands before position `k`, the loop handles the first
/// `k` inputs, and the one at `k` too if there is one.
pub proof fn lemma_handled_prefix(inputs: Seq<InputView>, k: int)
    requires
        0 <= k <= inputs.len(),
        forall|j: int| 0 <= j < k ==> !(inputs[j] is Closed),
        k < inputs.len() ==> inputs[k] is Closed,
    ensures
        handled(inputs) == if k < inputs.len() {
            k + 1
        } else {
            k
        },
    decreases k,
{
    if k > 0 {
        let rest = inputs.drop_first();
        assert(!(inputs[0] is Closed));
        assert forall|j: int| 0 <= j < k - 1 implies !(rest[j] is Closed) by {
            assert(rest[j] == inputs[j + 1]);
        }
        lemma_handled_prefix(rest, k - 1);
    }
}

/// The loop leaves only on closure: a reaction asks to stop exactly when its
/// input is the closure of the command source.
pub proof fn law_only_closure_stops(behaviour: BehaviourView, input: InputView)
    ensures
        reaction(behaviour, input).effect is Stop <==> input is Closed,
{
}

/// Each input is handled exactly once and in the order of arrival, and the
/// loop ends if and only if the command source closes.
///
/// The trace holds one reaction for each input of a leading stretch of
/// `inputs`, the reaction at each place being the one to the input at that
/// place. The stretch is all of `inputs` where the source never closes. Where
/// it closes, the stretch ends with the first closure: nothing before it is a
/// closure, only the last reaction asks to stop, and nothing after it is
/// handled.
pub proof fn law_handled_once_in_order(behaviour: BehaviourView, inputs: Seq<InputView>)
    ensures
        trace(behaviour, inputs).len() == handled(inputs) <= inputs.len(),
        forall|i: int|
            0 <= i < handled(inputs) ==> #[trigger] trace(behaviour, inputs)[i] == reaction(
                behaviour,
                inputs[i],
            ),
        forall|i: int| 0 <= i < handled(inputs) - 1 ==> !(#[trigger] inputs[i] is Closed),
        forall|i: int|
            0 <= i < handled(inputs) - 1 ==> !(#[trigger] trace(
                behaviour,
                inputs,
            )[i].effect is Stop),
        closes(inputs) ==> handled(inputs) >= 1 && inputs[handled(inputs) - 1] is Closed && trace(
            behaviour,
            inputs,
        ).last().effect is Stop,
        !closes(inputs) ==> handled(inputs) == inputs.len() && forall|i: int|
            0 <= i < inputs.len() ==> !(#[trigger] trace(behaviour, inputs)[i].effect is Stop),
    decreases inputs.len(),
{
    if inputs.len() > 0 && !(inputs.first() is Closed) {
        let rest = inputs.drop_first();
        law_handled_once_in_order(behaviour, rest);
        assert forall|i: int| 0 <= i < handled(inputs) - 1 implies !(#[trigger] inputs[i] is Closed) by {
            if i > 0 {
                assert(inputs[i] == rest[i - 1]);
            }
        }
        if closes(inputs) {
            let k = choose|k: int| 0 <= k < inputs.len() && inputs[k] is Closed;
            assert(rest[k - 1] is Closed);
            assert(closes(rest));
            assert(inputs[handled(inputs) - 1] == rest[handled(rest) - 1]);
        } else {
            assert forall|i: int| 0 <= i < rest.len() implies !(rest[i] is Closed) by {
                assert(rest[i] == inputs[i + 1]);
            }
            assert(!closes(rest));
        }
    } else if inputs.len() > 0 {
        assert(inputs[0] is Closed);
    }
    assert forall|i: int| 0 <= i < handled(inputs) implies (#[trigger] trace(
        behaviour,
        inputs,
    )[i].effect is Stop <==> inputs[i] is Closed) by {
        law_only_closure_stops(behaviour, inputs[i]);
    }
}

/// Closing the command source always ends the loop, whatever came before.
///
/// Let `before` hold any network events and commands, a dial among them or
/// not. Once the closure follows them, the loop handles `before`, then the
/// closure, and stops there: nothing of `after` is handled.
pub proof fn law_closure_ends_loop(
    behaviour: BehaviourView,
    before: Seq<InputView>,
    after: Seq<InputView>,
)
    requires
        forall|i: int| 0 <= i < before.len() ==> !(before[i] is Closed),
    ensures
        closes(before.push(InputView::Closed) + after),
        handled(before.push(InputView::Closed) + after) == before.len() + 1,
        trace(behaviour, before.push(InputView::Closed) + after).last().effect is Stop,
{
    let inputs = before.push(InputView::Closed) + after;
    let k = before.len() as int;
    assert(inputs[k] is Closed);
    assert forall|j: int| 0 <= j < k implies !(inputs[j] is Closed) by {
        assert(inputs[j] == before[j]);
    }
    lemma_handled_prefix(inputs, k);
}

/// A message is published only where the node is subscribed to its topic.
///
/// Before startup a fresh aggregate refuses every topic. After startup it
/// accepts exactly the compiled-in topics, provided it holds the gossip
/// handler. Whether any peer is connected plays no part in either.
pub proof fn law_publish_after_startup(gossip: bool, topic: Seq<char>)
    ensures
        (BehaviourView { gossip, topics: Seq::empty() }).publish_check(topic) is Err,
        started(BehaviourView { gossip, topics: Seq::empty() }).publish_check(topic) is Ok <==> gossip
            && (topic == CHAT_TOPIC@ || topic == COMMUNITY_TOPIC@),
{
    let fresh = BehaviourView { gossip, topics: Seq::<Seq<char>>::empty() };
    let first = fresh.subscribed_to(CHAT_TOPIC@);
    let second = first.subscribed_to(COMMUNITY_TOPIC@);
    if gossip {
        assert(first.topics =~= seq![CHAT_TOPIC@]);
        assert(first.topics[0] == CHAT_TOPIC@);
        if first.is_subscribed(COMMUNITY_TOPIC@) {
            assert(second.topics[0] == CHAT_TOPIC@);
        } else {
            assert(second.topics =~= seq![CHAT_TOPIC@, COMMUNITY_TOPIC@]);
            assert(second.topics[0] == CHAT_TOPIC@);
            assert(second.topics[1] == COMMUNITY_TOPIC@);
        }
    }
}

/// After startup every message the operator sends is handed to the gossip
/// handler on the chat topic, whatever the aggregate was subscribed to
/// before, as long as it holds that handler.
pub proof fn law_started_loop_publishes(behaviour: BehaviourView, message: Seq<char>)
    requires
        behaviour.gossip,
    ensures
        reaction(started(behaviour), InputView::Command(CommandView::Publish(message)))
            == (ReactionView {
            log: None,
            effect: EffectView::Publish(
                PublicationView { topic: CHAT_TOPIC@, payload: vstd::utf8::encode_utf8(message) },
            ),
        }),
{
    let first = behaviour.subscribed_to(CHAT_TOPIC@);
    if behaviour.is_subscribed(CHAT_TOPIC@) {
    } else {
        assert(first.topics.last() == CHAT_TOPIC@);
    }
    assert(first.is_subscribed(CHAT_TOPIC@));
    let k = choose|k: int| 0 <= k < first.topics.len() && first.topics[k] == CHAT_TOPIC@;
    let second = first.subscribed_to(COMMUNITY_TOPIC@);
    assert(second.topics[k] == CHAT_TOPIC@);
}

/// What a whole run of the loop leaves behind.
#[derive(Clone, Debug, PartialEq, Eq)]
pub struct Run {
    /// The reactions, one for each input handled, in order.
    pub reactions: Vec<Reaction>,
    /// Whether the loop stopped, which it does when the command source closes.
    pub stopped: bool,
}

/// Runs the event loop over `inputs`, the outcomes of successive races in
/// their order of arrival: subscribes `behaviour` to the compiled-in topics,
/// then handles one input after another until the command source is closed.
pub fn run(behaviour: Behaviour, inputs: Vec<Input>) -> (outcome: Run)
    ensures
        outcome.reactions.deep_view() == trace(started(behaviour@), inputs.deep_view()),
        outcome.stopped == closes(inputs.deep_view()),
{
    broadcast use vstd::std_specs::vec::axiom_spec_into_iter;

    let ghost views = inputs.deep_view();
    let ghost all = inputs@;
    let ghost aggregate = started(behaviour@);
    assert(views.len() == all.len());
    assert forall|j: int| 0 <= j < all.len() implies views[j] == all[j]@ by {}
    let mut event_loop = EventLoop::start(behaviour);
    let mut reactions: Vec<Reaction> = Vec::new();
    for input in iter: inputs.into_iter()
        invariant
            iter.seq() == all,
            views.len() == all.len(),
            forall|j: int| 0 <= j < all.len() ==> views[j] == all[j]@,
            event_loop@.behaviour == aggregate,
            reactions.len() <= iter.index(),
            !event_loop@.stopped ==> reactions.len() == iter.index() && forall|j: int|
                0 <= j < iter.index() ==> !(views[j] is Closed),
            event_loop@.stopped ==> reactions.len() == handled(views) && closes(views),
            forall|j: int|
                0 <= j < reactions.len() ==> (#[trigger] reactions[j])@ == reaction(
                    aggregate,
                    views[j],
                ),
    {
        if !event_loop.is_stopped() {
            let ghost n = reactions.len() as int;
            let reaction = event_loop.step(input);
            reactions.push(reaction);
            proof {
                if views[n] is Closed {
                    lemma_handled_prefix(views, n);
                }
            }
        }
    }
    proof {
        if !event_loop@.stopped {
            lemma_handled_prefix(views, views.len() as int);
        }
    }
    assert(reactions.deep_view() =~= trace(aggregate, views));
    Run { reactions, stopped: event_loop.is_stopped() }
}

} // verus!
