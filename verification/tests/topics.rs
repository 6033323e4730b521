use esp_thing::thing_mqtt::subscription_topics;
use esp_thing::thing_protocol::{dispatch_topic, topic_name, Topic};

#[test]
fn topic_names() {
    assert_eq!(topic_name(Topic::Registry), "registry");
    assert_eq!(topic_name(Topic::ThingInput), "thing_input");
}

#[test]
fn dispatch_by_topic_name() {
    assert_eq!(dispatch_topic("registry"), Some(Topic::Registry));
    assert_eq!(dispatch_topic("thing_input"), Some(Topic::ThingInput));
    assert_eq!(dispatch_topic("thing_inputs"), None);
    assert_eq!(dispatch_topic(""), None);
    assert_eq!(dispatch_topic("Registry"), None);
}

#[test]
fn subscribed_topics_are_routed() {
    let topics = subscription_topics();
    assert_eq!(topics, vec![Topic::Registry, Topic::ThingInput]);
    for t in topics {
        assert_eq!(dispatch_topic(topic_name(t)), Some(t));
    }
}
