//! The order in which the command topics are subscribed, with retries.

use vstd::prelude::*;

use crate::config::Config;

verus! {

/// How long a failed subscription waits before it is tried again.
pub const SUBSCRIBE_RETRY_MS: u64 = 500;

/// A topic that carries commands.
#[derive(Clone, Copy, Debug, PartialEq, Eq, Structural)]
pub enum CommandTopic {
    Speed,
    Switch,
}

/// What the subscribing side does next.
#[derive(Clone, Copy, Debug, PartialEq, Eq, Structural)]
pub enum Subscriber {
    /// Try to subscribe to the topic.
    Subscribe(CommandTopic),
    /// Wait for `SUBSCRIBE_RETRY_MS` before the topic is tried again.
    Wait(CommandTopic),
    /// Tell the device that both topics are subscribed.
    Announce,
    /// Nothing is left to do.
    Done,
}

impl CommandTopic {
    /// The name of the topic under the given settings.
    pub fn name(self, config: &Config) -> (name: &'static str)
        ensures
            name@ == match self {
                CommandTopic::Speed => config.topic_speed@,
                CommandTopic::Switch => config.topic_switch@,
            },
    {
        match self {
            CommandTopic::Speed => config.topic_speed,
            CommandTopic::Switch => config.topic_switch,
        }
    }
}

impl Subscriber {
    /// The step behind this one. Only a subscription can fail.
    pub open spec fn after(self, succeeded: bool) -> Subscriber {
        match self {
            Subscriber::Subscribe(topic) => if !succeeded {
                Subscriber::Wait(topic)
            } else if topic == CommandTopic::Speed {
                Subscriber::Subscribe(CommandTopic::Switch)
            } else {
                Subscriber::Announce
            },
            Subscriber::Wait(topic) => Subscriber::Subscribe(topic),
            Subscriber::Announce => Subscriber::Done,
            Subscriber::Done => Subscriber::Done,
        }
    }

    /// The step behind some steps with the given outcomes, from the start.
    pub open spec fn run(outcomes: Seq<bool>) -> Subscriber
        decreases outcomes.len(),
    {
        if outcomes.len() == 0 {
            Subscriber::Subscribe(CommandTopic::Speed)
        } else {
            Subscriber::run(outcomes.drop_last()).after(outcomes.last())
        }
    }

    /// The first step: the speed topic.
    pub fn new() -> (subscriber: Subscriber)
        ensures
            subscriber == Subscriber::run(Seq::<bool>::empty()),
            subscriber == Subscriber::Subscribe(CommandTopic::Speed),
    {
        Subscriber::Subscribe(CommandTopic::Speed)
    }

    /// Goes on to the next step. `succeeded` is the outcome of a subscription; the other steps do
    /// not look at it.
    pub fn advance(&mut self, succeeded: bool)
        ensures
            *final(self) == old(self).after(succeeded),
    {
        *self = match *self {
            Subscriber::Subscribe(topic) => if !succeeded {
                Subscriber::Wait(topic)
            } else {
                match topic {
                    CommandTopic::Speed => Subscriber::Subscribe(CommandTopic::Switch),
                    CommandTopic::Switch => Subscriber::Announce,
                }
            },
            Subscriber::Wait(topic) => Subscriber::Subscribe(topic),
            Subscriber::Announce => Subscriber::Done,
            Subscriber::Done => Subscriber::Done,
        };
    }
}

/// Whether `topic` was subscribed at step `i`.
pub open spec fn subscribed_at(outcomes: Seq<bool>, i: int, topic: CommandTopic) -> bool {
    &&& 0 <= i < outcomes.len()
    &&& Subscriber::run(outcomes.take(i)) == Subscriber::Subscribe(topic)
    &&& outcomes[i]
}

/// A subscription stays one when more steps follow.
proof fn lemma_subscribed_before(outcomes: Seq<bool>, i: int, topic: CommandTopic)
    requires
        outcomes.len() > 0,
        subscribed_at(outcomes.drop_last(), i, topic),
    ensures
        subscribed_at(outcomes, i, topic),
{
    assert(outcomes.drop_last().take(i) =~= outcomes.take(i));
    assert(outcomes.drop_last()[i] == outcomes[i]);
}

/// A subscription that fails is tried again on the same topic, after a wait, for as long as it
/// fails.
pub proof fn law_failed_subscription_is_retried(topic: CommandTopic, outcome: bool)
    ensures
        Subscriber::Subscribe(topic).after(false) == Subscriber::Wait(topic),
        Subscriber::Subscribe(topic).after(false).after(outcome) == Subscriber::Subscribe(topic),
{
}

/// The switch topic is tried only once the speed topic is subscribed.
pub proof fn law_speed_topic_comes_first(outcomes: Seq<bool>)
    requires
        Subscriber::run(outcomes) == Subscriber::Subscribe(CommandTopic::Switch)
            || Subscriber::run(outcomes) == Subscriber::Wait(CommandTopic::Switch),
    ensures
        exists|i: int| subscribed_at(outcomes, i, CommandTopic::Speed),
    decreases outcomes.len(),
{
    let before = outcomes.drop_last();
    assert(before =~= outcomes.take(outcomes.len() - 1));
    if Subscriber::run(before) == Subscriber::Subscribe(CommandTopic::Speed) {
        assert(subscribed_at(outcomes, outcomes.len() - 1, CommandTopic::Speed));
    } else {
        law_speed_topic_comes_first(before);
        let i = choose|i: int| subscribed_at(before, i, CommandTopic::Speed);
        lemma_subscribed_before(outcomes, i, CommandTopic::Speed);
    }
}

/// The device is told only once both topics are subscribed, the speed topic first.
pub proof fn law_announced_only_when_subscribed(outcomes: Seq<bool>)
    requires
        Subscriber::run(outcomes) is Announce || Subscriber::run(outcomes) is Done,
    ensures
        exists|i: int, j: int|
            i < j && #[trigger] subscribed_at(outcomes, i, CommandTopic::Speed)
                && #[trigger] subscribed_at(outcomes, j, CommandTopic::Switch),
    decreases outcomes.len(),
{
    let before = outcomes.drop_last();
    assert(before =~= outcomes.take(outcomes.len() - 1));
    if Subscriber::run(before) == Subscriber::Subscribe(CommandTopic::Switch) {
        law_speed_topic_comes_first(before);
        let i = choose|i: int| subscribed_at(before, i, CommandTopic::Speed);
        lemma_subscribed_before(outcomes, i, CommandTopic::Speed);
        assert(subscribed_at(outcomes, outcomes.len() - 1, CommandTopic::Switch));
    } else {
        law_announced_only_when_subscribed(before);
        let (i, j) = choose|i: int, j: int|
            i < j && #[trigger] subscribed_at(before, i, CommandTopic::Speed)
                && #[trigger] subscribed_at(before, j, CommandTopic::Switch);
        lemma_subscribed_before(outcomes, i, CommandTopic::Speed);
        lemma_subscribed_before(outcomes, j, CommandTopic::Switch);
    }
}

/// The device is told once at most: whatever follows the announcement, nothing is left to do.
pub proof fn law_announced_once(outcomes: Seq<bool>, later: Seq<bool>)
    requires
        Subscriber::run(outcomes) is Announce,
        later.len() > 0,
    ensures
        Subscriber::run(outcomes + later) is Done,
    decreases later.len(),
{
    let before = outcomes + later.drop_last();
    assert((outcomes + later).drop_last() =~= before);
    if later.len() == 1 {
        assert(before =~= outcomes);
    } else {
        law_announced_once(outcomes, later.drop_last());
    }
}

/// Every step and what comes behind it: a granted speed topic leads to the switch topic, a granted
/// switch topic to the announcement, a refused topic to a wait and from there back to the same
/// topic, and the announcement to the end, whatever the outcome is there.
pub proof fn law_every_step_in_full(topic: CommandTopic, outcome: bool)
    ensures
        Subscriber::Subscribe(CommandTopic::Speed).after(true) == Subscriber::Subscribe(
            CommandTopic::Switch,
        ),
        Subscriber::Subscribe(CommandTopic::Switch).after(true) == Subscriber::Announce,
        Subscriber::Subscribe(topic).after(false) == Subscriber::Wait(topic),
        Subscriber::Wait(topic).after(outcome) == Subscriber::Subscribe(topic),
        Subscriber::Announce.after(outcome) == Subscriber::Done,
        Subscriber::Done.after(outcome) == Subscriber::Done,
{
}

/// The steps begin with the speed topic and follow one another.
pub proof fn law_steps_follow_one_another(outcomes: Seq<bool>, outcome: bool)
    ensures
        Subscriber::run(Seq::<bool>::empty()) == Subscriber::Subscribe(CommandTopic::Speed),
        Subscriber::run(outcomes.push(outcome)) == Subscriber::run(outcomes).after(outcome),
{
    assert(outcomes.push(outcome).drop_last() =~= outcomes);
}

/// A topic is subscribed at a step exactly if that step tried it and was granted.
pub proof fn law_what_subscribed_means(outcomes: Seq<bool>, i: int, topic: CommandTopic)
    ensures
        subscribed_at(outcomes, i, topic) <==> 0 <= i < outcomes.len() && outcomes[i]
            && Subscriber::run(outcomes.take(i)) == Subscriber::Subscribe(topic),
{
}

} // verus!
