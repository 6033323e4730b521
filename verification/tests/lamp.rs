use esp_thing::lamp::{Duties, Led, RGB};

#[test]
fn led_duty_formula() {
    let mut led = Led::new(1000);
    assert_eq!(led.on(), 0);
    led.set_value(255);
    assert_eq!(led.on(), 1000);
    led.set_value(100);
    assert_eq!(led.on(), 392);
    assert_eq!(led.off(), 0);
}

#[test]
fn led_fits_with_detects_overflow() {
    let led = Led::new(u32::MAX);
    assert!(led.fits_with(1));
    assert!(!led.fits_with(2));
    assert!(Led::new(8191).fits_with(255));
}

#[test]
fn new_lamp_is_dark() {
    let rgb = RGB::new(255, 255, 255);
    assert!(!rgb.is_on());
}

#[test]
fn on_lights_the_colour_once() {
    let mut rgb = RGB::new(1023, 1023, 510);
    assert_eq!(rgb.set(255, 0, 51), None);
    assert_eq!(rgb.on(), Some(Duties { red: 1023, green: 0, blue: 102 }));
    assert!(rgb.is_on());
    assert_eq!(rgb.on(), None);
}

#[test]
fn off_darkens_once() {
    let mut rgb = RGB::new(100, 100, 100);
    assert_eq!(rgb.off(), None);
    rgb.on();
    assert_eq!(rgb.off(), Some(Duties { red: 0, green: 0, blue: 0 }));
    assert_eq!(rgb.off(), None);
    assert!(!rgb.is_on());
}

#[test]
fn set_while_lit_shows_at_once() {
    let mut rgb = RGB::new(255, 255, 255);
    rgb.on();
    assert_eq!(rgb.set(10, 20, 30), Some(Duties { red: 10, green: 20, blue: 30 }));
}

#[test]
fn colour_survives_off_and_on() {
    let mut rgb = RGB::new(510, 510, 510);
    rgb.set(255, 128, 1);
    rgb.on();
    rgb.off();
    assert_eq!(rgb.on(), Some(Duties { red: 510, green: 256, blue: 2 }));
}

#[test]
fn can_show_and_can_light() {
    let mut rgb = RGB::new(u32::MAX, 1, 1);
    assert!(rgb.can_light());
    assert!(rgb.can_show(1, 255, 255));
    assert!(!rgb.can_show(2, 0, 0));
    rgb.set(3, 0, 0);
    assert!(!rgb.can_light());
}
