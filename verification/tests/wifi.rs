use esp_thing::wifi::{access_point_channel, find_channel, link_ready, AccessPoint};

fn ap(ssid: &str, channel: u8) -> AccessPoint {
    AccessPoint { ssid: ssid.to_string(), channel }
}

#[test]
fn first_matching_access_point_gives_the_channel() {
    let aps = vec![ap("Other", 3), ap("Internet", 6), ap("Internet", 11)];
    assert_eq!(find_channel(&aps, "Internet"), Some(6));
    assert_eq!(find_channel(&aps, "Missing"), None);
    assert_eq!(find_channel(&Vec::new(), "Internet"), None);
}

#[test]
fn access_point_channel_defaults_to_one() {
    assert_eq!(access_point_channel(Some(6)), 6);
    assert_eq!(access_point_channel(None), 1);
}

#[test]
fn link_needs_connection_and_address() {
    assert!(link_ready(true, [192, 168, 1, 20]));
    assert!(!link_ready(true, [0, 0, 0, 0]));
    assert!(!link_ready(false, [192, 168, 1, 20]));
    assert!(link_ready(true, [0, 0, 0, 1]));
}
