use esp_thing::lamp::{Duties, RGB};
use esp_thing::thing::{humidity_from_sample, id_from_uuid, Thing};

#[test]
fn id_is_the_decimal_uuid() {
    assert_eq!(id_from_uuid(0), "0");
    assert_eq!(id_from_uuid(7), "7");
    assert_eq!(id_from_uuid(10), "10");
    assert_eq!(id_from_uuid(1234567890), "1234567890");
    assert_eq!(id_from_uuid(u128::MAX), u128::MAX.to_string());
    assert_eq!(id_from_uuid(u128::MAX), "340282366920938463463374607431768211455");
}

#[test]
fn ids_of_different_uuids_differ() {
    assert_ne!(id_from_uuid(12), id_from_uuid(120));
    assert_ne!(id_from_uuid(1), id_from_uuid(10));
}

#[test]
fn new_thing_has_id_and_no_name() {
    let thing = Thing::new(42, RGB::new(10, 10, 10));
    assert_eq!(thing.get_id(), "42");
    assert!(!thing.is_registered());
}

#[test]
fn named_thing_is_registered() {
    let mut thing = Thing::new(42, RGB::new(10, 10, 10));
    thing.set_name("kitchen".to_string());
    assert!(thing.is_registered());
    thing.set_name(String::new());
    assert!(!thing.is_registered());
}

#[test]
fn humidity_is_in_range() {
    let thing = Thing::new(1, RGB::new(1, 1, 1));
    for _ in 0..200 {
        let h = thing.get_humidity();
        assert!((45..55).contains(&h));
    }
    assert_eq!(humidity_from_sample(0), 45);
    assert_eq!(humidity_from_sample(9), 54);
}

#[test]
fn lamp_commands_on_thing() {
    let mut thing = Thing::new(5, RGB::new(255, 510, 765));
    assert_eq!(thing.set_lamp_rgb(100, 100, 100), None);
    assert_eq!(thing.set_lamp_state(true), Some(Duties { red: 100, green: 200, blue: 300 }));
    assert_eq!(thing.set_lamp_rgb(255, 0, 255), Some(Duties { red: 255, green: 0, blue: 765 }));
    assert_eq!(thing.set_lamp_state(false), Some(Duties { red: 0, green: 0, blue: 0 }));
    assert_eq!(thing.set_lamp_state(false), None);
}

#[test]
fn lamp_checks_on_thing() {
    let mut thing = Thing::new(5, RGB::new(u32::MAX, 1, 1));
    assert!(thing.accepts_lamp_rgb(9, 9, 9));
    assert!(!thing.lamp_can_show(9, 9, 9));
    thing.set_lamp_rgb(9, 9, 9);
    assert!(!thing.accepts_lamp_state(true));
    assert!(thing.accepts_lamp_state(false));
}
