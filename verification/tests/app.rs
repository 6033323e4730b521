use esp_thing::app::{
    accepts_event, handle_event, register_device, start_up, LampRGB, LampRGBDescription, LampState,
    LampStateDescription, Message, RegistryType, SetName, SetNameDescription, ThingInputType,
    Topics,
};
use esp_thing::lamp::{Duties, RGB};
use esp_thing::thing::Thing;
use esp_thing::thing_protocol::Topic;

fn thing() -> Thing {
    Thing::new(77, RGB::new(255, 255, 255))
}

fn set_name(id: &str, name: &str) -> Topics {
    Topics::Registry(RegistryType::SetNameType(SetNameDescription {
        set_name: SetName { id: id.to_string(), name: name.to_string() },
    }))
}

fn lamp_rgb(id: &str, r: u32, g: u32, b: u32) -> Topics {
    Topics::ThingInput(ThingInputType::LampRGB(LampRGBDescription {
        lamp_rgb: LampRGB { id: id.to_string(), r, g, b },
    }))
}

fn lamp_state(id: &str, state: bool) -> Topics {
    Topics::ThingInput(ThingInputType::LampState(LampStateDescription {
        lamp_state: LampState { id: id.to_string(), state },
    }))
}

#[test]
fn registration_request_carries_the_id() {
    let p = register_device(&thing());
    assert_eq!(p.topic, Topic::Registry);
    assert!(matches!(p.message, Message::RequestRegistration { ref id } if id == "77"));
}

#[test]
fn start_up_registers_and_lights_the_lamp() {
    let mut t = thing();
    let r = start_up(&mut t);
    assert_eq!(r.publications.len(), 1);
    assert!(matches!(r.publications[0].message, Message::RequestRegistration { ref id } if id == "77"));
    assert_eq!(r.duties, Some(Duties { red: 100, green: 100, blue: 100 }));
}

#[test]
fn timer_is_silent_until_named() {
    let mut t = thing();
    let r = handle_event(Topics::Timer(10), &mut t);
    assert!(r.publications.is_empty());
    assert_eq!(r.duties, None);
}

#[test]
fn set_name_for_own_id_registers() {
    let mut t = thing();
    let r = handle_event(set_name("77", "hall"), &mut t);
    assert!(r.publications.is_empty());
    assert!(t.is_registered());
    let r = handle_event(Topics::Timer(10), &mut t);
    assert_eq!(r.publications.len(), 2);
    assert_eq!(r.publications[0].topic, Topic::ThingInput);
    assert!(matches!(r.publications[0].message, Message::MeasurementTemperature { ref id } if id == "77"));
    assert_eq!(r.publications[1].topic, Topic::ThingInput);
    match &r.publications[1].message {
        Message::MeasurementHumidity { id, humidity } => {
            assert_eq!(id, "77");
            assert!((45..55).contains(humidity));
        }
        _ => panic!("expected a humidity report"),
    }
}

#[test]
fn set_name_for_other_id_is_ignored() {
    let mut t = thing();
    handle_event(set_name("78", "hall"), &mut t);
    assert!(!t.is_registered());
    handle_event(Topics::Registry(RegistryType::Other), &mut t);
    assert!(!t.is_registered());
}

#[test]
fn lamp_input_for_own_id_acts() {
    let mut t = thing();
    let r = handle_event(lamp_rgb("77", 10, 20, 30), &mut t);
    assert_eq!(r.duties, None);
    let r = handle_event(lamp_state("77", true), &mut t);
    assert_eq!(r.duties, Some(Duties { red: 10, green: 20, blue: 30 }));
    let r = handle_event(lamp_rgb("77", 1, 2, 3), &mut t);
    assert_eq!(r.duties, Some(Duties { red: 1, green: 2, blue: 3 }));
    let r = handle_event(lamp_state("77", false), &mut t);
    assert_eq!(r.duties, Some(Duties { red: 0, green: 0, blue: 0 }));
    assert!(r.publications.is_empty());
}

#[test]
fn lamp_input_for_other_id_is_ignored() {
    let mut t = thing();
    let r = handle_event(lamp_state("7", true), &mut t);
    assert_eq!(r.duties, None);
    let r = handle_event(lamp_rgb("770", 1, 2, 3), &mut t);
    assert_eq!(r.duties, None);
    let r = handle_event(Topics::ThingInput(ThingInputType::Other), &mut t);
    assert_eq!(r.duties, None);
}

#[test]
fn overflowing_lamp_input_is_refused_by_the_check() {
    let mut t = Thing::new(77, RGB::new(u32::MAX, 1, 1));
    assert!(accepts_event(&lamp_rgb("77", 2, 0, 0), &t));
    handle_event(lamp_rgb("77", 2, 0, 0), &mut t);
    assert!(!accepts_event(&lamp_state("77", true), &t));
    assert!(accepts_event(&lamp_state("78", true), &t));
    assert!(accepts_event(&Topics::Timer(1), &t));
}
