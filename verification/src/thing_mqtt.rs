use vstd::prelude::*;

use crate::thing_protocol::{lemma_topic_name_dispatches, topic_of, topic_text, Topic};

verus! {

/// The topics that a thing subscribes to, in the order of subscription.
pub open spec fn subscribed() -> Seq<Topic> {
    seq![Topic::Registry, Topic::ThingInput]
}

pub fn subscription_topics() -> (topics: Vec<Topic>)
    ensures
        topics@ == subscribed(),
{
    let mut topics = Vec::new();
    topics.push(Topic::Registry);
    topics.push(Topic::ThingInput);
    topics
}

/// Every message received on a subscribed topic reaches a handler: the
/// name of each subscribed topic is routed back to that topic.
pub proof fn lemma_subscriptions_are_routed()
    ensures
        forall|i: int| 0 <= i < subscribed().len()
            ==> topic_of(topic_text(#[trigger] subscribed()[i])) == Some(subscribed()[i]),
{
    lemma_topic_name_dispatches(Topic::Registry);
    lemma_topic_name_dispatches(Topic::ThingInput);
}

} // verus!
