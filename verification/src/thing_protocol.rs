use vstd::prelude::*;

verus! {

/// The MQTT topics that a thing listens and publishes on.
#[derive(PartialEq, Eq, Structural, Clone, Copy, Debug)]
pub enum Topic {
    /// Registration of things and their names.
    Registry,
    /// Input for things (lamp commands) and their measurements.
    ThingInput,
}

/// The name of a topic on the broker.
pub open spec fn topic_text(topic: Topic) -> Seq<char> {
    match topic {
        Topic::Registry => "registry"@,
        Topic::ThingInput => "thing_input"@,
    }
}

/// The topic that a received message's topic name stands for, if any.
pub open spec fn topic_of(name: Seq<char>) -> Option<Topic> {
    if name == "registry"@ {
        Some(Topic::Registry)
    } else if name == "thing_input"@ {
        Some(Topic::ThingInput)
    } else {
        None
    }
}

pub fn topic_name(topic: Topic) -> (name: &'static str)
    ensures
        name@ == topic_text(topic),
{
    match topic {
        Topic::Registry => "registry",
        Topic::ThingInput => "thing_input",
    }
}

/// Routes a received message by its topic name: to the registry handler,
/// to the thing-input handler, or nowhere (an unknown topic).
pub fn dispatch_topic(name: &str) -> (topic: Option<Topic>)
    ensures
        topic == topic_of(name@),
{
    let name = name.to_owned();
    if name == "registry".to_owned() {
        Some(Topic::Registry)
    } else if name == "thing_input".to_owned() {
        Some(Topic::ThingInput)
    } else {
        None
    }
}

/// Every topic is routed back to itself from its name.
pub proof fn lemma_topic_name_dispatches(topic: Topic)
    ensures
        topic_of(topic_text(topic)) == Some(topic),
{
    reveal_strlit("registry");
    reveal_strlit("thing_input");
    assert("registry"@ != "thing_input"@) by {
        assert("registry"@.len() != "thing_input"@.len());
    }
}

} // verus!
