use vstd::prelude::*;

verus! {

/// The largest channel value; a channel at this value is driven at its
/// maximal duty.
pub const FULL_VALUE: u32 = 255;

/// Whether the lamp is lit.
#[derive(PartialEq, Eq, Structural, Clone, Copy, Debug)]
pub enum State {
    On,
    Off,
}

/// One colour channel of the lamp: the value it was given and the maximal
/// duty that its PWM driver accepts.
#[derive(PartialEq, Eq, Structural, Clone, Copy, Debug)]
pub struct Led {
    pub value: u32,
    pub max_duty: u32,
}

/// The duties that the three PWM drivers are to be set to.
#[derive(PartialEq, Eq, Structural, Clone, Copy, Debug)]
pub struct Duties {
    pub red: u32,
    pub green: u32,
    pub blue: u32,
}

/// The duty that drives a channel of maximal duty `max_duty` at `value`
/// out of `FULL_VALUE`.
pub open spec fn duty(max_duty: u32, value: u32) -> int {
    (max_duty * value) / (FULL_VALUE as int)
}

/// The duty of a channel can be computed in 32 bits.
pub open spec fn led_fits(led: Led) -> bool {
    led.max_duty * led.value <= u32::MAX
}

impl Led {
    pub fn new(max_duty: u32) -> (led: Led)
        ensures
            led == (Led { value: 0, max_duty }),
    {
        Led { value: 0, max_duty }
    }

    pub fn set_value(&mut self, value: u32)
        ensures
            *final(self) == (Led { value, ..*old(self) }),
    {
        self.value = value;
    }

    /// The duty of the channel at `value` can be computed in 32 bits.
    pub fn fits_with(&self, value: u32) -> (b: bool)
        ensures
            b == led_fits(Led { value, ..*self }),
    {
        self.max_duty.checked_mul(value).is_some()
    }

    /// The duty that lights the channel at its value.
    pub fn on(&self) -> (d: u32)
        requires
            led_fits(*self),
        ensures
            d == duty(self.max_duty, self.value),
    {
        self.max_duty * self.value / FULL_VALUE
    }

    /// The duty that darkens the channel.
    pub fn off(&self) -> (d: u32)
        ensures
            d == 0,
    {
        0
    }
}

/// What the lamp is: lit or not, and its three channels.
pub struct RgbView {
    pub on: bool,
    pub red: Led,
    pub green: Led,
    pub blue: Led,
}

/// All three channels can be lit without overflow.
pub open spec fn lamp_fits(v: RgbView) -> bool {
    led_fits(v.red) && led_fits(v.green) && led_fits(v.blue)
}

/// The duties that light the lamp in the colour of its channels.
pub open spec fn lit_duties(v: RgbView) -> Duties {
    Duties {
        red: duty(v.red.max_duty, v.red.value) as u32,
        green: duty(v.green.max_duty, v.green.value) as u32,
        blue: duty(v.blue.max_duty, v.blue.value) as u32,
    }
}

/// The duties of a dark lamp.
pub open spec fn dark_duties() -> Duties {
    Duties { red: 0, green: 0, blue: 0 }
}

/// Switching on: a dark lamp becomes lit and its drivers get the duties of
/// its colour; a lit lamp stays as it is and nothing is sent to the drivers.
pub open spec fn lamp_on(v: RgbView) -> (RgbView, Option<Duties>) {
    if v.on {
        (v, None)
    } else {
        (RgbView { on: true, ..v }, Some(lit_duties(v)))
    }
}

/// Switching off: a lit lamp becomes dark and its drivers get zero duties;
/// a dark lamp stays as it is.
pub open spec fn lamp_off(v: RgbView) -> (RgbView, Option<Duties>) {
    if v.on {
        (RgbView { on: false, ..v }, Some(dark_duties()))
    } else {
        (v, None)
    }
}

/// The lamp with new channel values, its state and maximal duties kept.
pub open spec fn with_values(v: RgbView, red: u32, green: u32, blue: u32) -> RgbView {
    RgbView {
        on: v.on,
        red: Led { value: red, ..v.red },
        green: Led { value: green, ..v.green },
        blue: Led { value: blue, ..v.blue },
    }
}

/// Setting the colour: the values are kept in any case; a lit lamp shows
/// the new colour at once, a dark lamp shows it when it is next switched on.
pub open spec fn lamp_set(v: RgbView, red: u32, green: u32, blue: u32) -> (RgbView, Option<Duties>) {
    let w = with_values(v, red, green, blue);
    if w.on {
        (w, Some(lit_duties(w)))
    } else {
        (w, None)
    }
}

/// The RGB lamp: three channels that are lit together or not at all.
pub struct RGB {
    state: State,
    red: Led,
    green: Led,
    blue: Led,
}

impl View for RGB {
    type V = RgbView;

    closed spec fn view(&self) -> RgbView {
        RgbView { on: self.state == State::On, red: self.red, green: self.green, blue: self.blue }
    }
}

impl RGB {
    /// A dark lamp whose channels have the given maximal duties and value 0.
    pub fn new(red_max_duty: u32, green_max_duty: u32, blue_max_duty: u32) -> (rgb: RGB)
        ensures
            rgb@ == (RgbView {
                on: false,
                red: Led { value: 0, max_duty: red_max_duty },
                green: Led { value: 0, max_duty: green_max_duty },
                blue: Led { value: 0, max_duty: blue_max_duty },
            }),
    {
        RGB {
            state: State::Off,
            red: Led::new(red_max_duty),
            green: Led::new(green_max_duty),
            blue: Led::new(blue_max_duty),
        }
    }

    /// The lamp can show the colour `red`, `green`, `blue` without overflow.
    pub fn can_show(&self, red: u32, green: u32, blue: u32) -> (b: bool)
        ensures
            b == lamp_fits(with_values(self@, red, green, blue)),
    {
        self.red.fits_with(red) && self.green.fits_with(green) && self.blue.fits_with(blue)
    }

    /// The lamp can be lit in its present colour without overflow.
    pub fn can_light(&self) -> (b: bool)
        ensures
            b == lamp_fits(self@),
    {
        self.can_show(self.red.value, self.green.value, self.blue.value)
    }

    pub fn is_on(&self) -> (on: bool)
        ensures
            on == self@.on,
    {
        match self.state {
            State::On => true,
            State::Off => false,
        }
    }

    fn lit(&self) -> (d: Duties)
        requires
            lamp_fits(self@),
        ensures
            d == lit_duties(self@),
    {
        Duties { red: self.red.on(), green: self.green.on(), blue: self.blue.on() }
    }

    pub fn on(&mut self) -> (d: Option<Duties>)
        requires
            !old(self)@.on ==> lamp_fits(old(self)@),
        ensures
            (final(self)@, d) == lamp_on(old(self)@),
    {
        match self.state {
            State::Off => {
                self.state = State::On;
                Some(self.lit())
            },
            State::On => None,
        }
    }

    pub fn off(&mut self) -> (d: Option<Duties>)
        ensures
            (final(self)@, d) == lamp_off(old(self)@),
    {
        match self.state {
            State::On => {
                self.state = State::Off;
                Some(Duties { red: self.red.off(), green: self.green.off(), blue: self.blue.off() })
            },
            State::Off => None,
        }
    }

    fn update(&self) -> (d: Option<Duties>)
        requires
            self@.on ==> lamp_fits(self@),
        ensures
            d == (if self@.on { Some(lit_duties(self@)) } else { None }),
    {
        match self.state {
            State::On => Some(self.lit()),
            State::Off => None,
        }
    }

    pub fn set(&mut self, red: u32, green: u32, blue: u32) -> (d: Option<Duties>)
        requires
            old(self)@.on ==> lamp_fits(with_values(old(self)@, red, green, blue)),
        ensures
            (final(self)@, d) == lamp_set(old(self)@, red, green, blue),
    {
        self.red.set_value(red);
        self.green.set_value(green);
        self.blue.set_value(blue);
        self.update()
    }
}

/// A channel value between 0 and `FULL_VALUE` gives a duty between 0 and
/// the channel's maximal duty: 0 darkens it and `FULL_VALUE` drives it fully.
pub proof fn lemma_duty_within_max(max_duty: u32, value: u32)
    requires
        value <= FULL_VALUE,
    ensures
        0 <= duty(max_duty, value) <= max_duty,
        value == 0 ==> duty(max_duty, value) == 0,
        value == FULL_VALUE ==> duty(max_duty, value) == max_duty,
{
    assert(0 <= max_duty * value <= max_duty * 255) by (nonlinear_arith)
        requires
            value <= 255,
    ;
    assert(max_duty * 255 / 255 == max_duty) by (nonlinear_arith);
    assert((max_duty * value) / 255 <= (max_duty * 255) / 255) by (nonlinear_arith)
        requires
            0 <= max_duty * value <= max_duty * 255,
    ;
}

/// Switching on twice is switching on once: the second call sends nothing.
pub proof fn lemma_on_idempotent(v: RgbView)
    ensures
        lamp_on(lamp_on(v).0) == (lamp_on(v).0, None::<Duties>),
        lamp_on(v).0.on,
{
}

/// Switching off twice is switching off once: the second call sends nothing.
pub proof fn lemma_off_idempotent(v: RgbView)
    ensures
        lamp_off(lamp_off(v).0) == (lamp_off(v).0, None::<Duties>),
        !lamp_off(v).0.on,
{
}

/// A lamp that was switched on and is switched off gets zero duties.
pub proof fn lemma_off_after_on_darkens(v: RgbView)
    ensures
        lamp_off(lamp_on(v).0).1 == Some(dark_duties()),
{
}

/// Switching off keeps the colour: switching on again shows the colour the
/// lamp had before.
pub proof fn lemma_off_then_on_restores_colour(v: RgbView)
    ensures
        lamp_on(lamp_off(v).0).1 == Some(lit_duties(v)),
{
}

/// A colour set on a dark lamp is remembered and shown when it is switched on.
pub proof fn lemma_colour_set_while_dark_is_shown_on(v: RgbView, red: u32, green: u32, blue: u32)
    requires
        !v.on,
    ensures
        lamp_set(v, red, green, blue).1 == None::<Duties>,
        lamp_on(lamp_set(v, red, green, blue).0).1 == Some(lit_duties(with_values(v, red, green, blue))),
{
}

/// A colour set on a lit lamp is shown at once, and the lamp stays lit.
pub proof fn lemma_colour_set_while_lit_is_shown(v: RgbView, red: u32, green: u32, blue: u32)
    requires
        v.on,
    ensures
        lamp_set(v, red, green, blue).1 == Some(lit_duties(with_values(v, red, green, blue))),
        lamp_set(v, red, green, blue).0.on,
{
}

/// Switching on: the lamp is lit afterwards with its channels unchanged; a
/// dark lamp sends the duties of its channel values, a lit one sends nothing.
pub proof fn lemma_on_lights(v: RgbView)
    ensures
        lamp_on(v).0.on,
        lamp_on(v).0.red == v.red,
        lamp_on(v).0.green == v.green,
        lamp_on(v).0.blue == v.blue,
        v.on ==> lamp_on(v).1 == None::<Duties>,
        !v.on ==> lamp_on(v).1 == Some(Duties {
            red: duty(v.red.max_duty, v.red.value) as u32,
            green: duty(v.green.max_duty, v.green.value) as u32,
            blue: duty(v.blue.max_duty, v.blue.value) as u32,
        }),
{
}

/// Switching off: the lamp is dark afterwards with its channels unchanged;
/// a lit lamp sends zero duties, a dark one sends nothing.
pub proof fn lemma_off_darkens(v: RgbView)
    ensures
        !lamp_off(v).0.on,
        lamp_off(v).0.red == v.red,
        lamp_off(v).0.green == v.green,
        lamp_off(v).0.blue == v.blue,
        v.on ==> lamp_off(v).1 == Some(Duties { red: 0, green: 0, blue: 0 }),
        !v.on ==> lamp_off(v).1 == None::<Duties>,
{
}

/// Setting the colour stores the new channel values whatever the lamp's
/// state, keeps the state and the maximal duties, and sends the duties of
/// the new values exactly when the lamp is lit.
pub proof fn lemma_set_stores_colour(v: RgbView, red: u32, green: u32, blue: u32)
    ensures
        lamp_set(v, red, green, blue).0.on == v.on,
        lamp_set(v, red, green, blue).0.red == (Led { value: red, max_duty: v.red.max_duty }),
        lamp_set(v, red, green, blue).0.green == (Led { value: green, max_duty: v.green.max_duty }),
        lamp_set(v, red, green, blue).0.blue == (Led { value: blue, max_duty: v.blue.max_duty }),
        v.on ==> lamp_set(v, red, green, blue).1 == Some(Duties {
            red: duty(v.red.max_duty, red) as u32,
            green: duty(v.green.max_duty, green) as u32,
            blue: duty(v.blue.max_duty, blue) as u32,
        }),
        !v.on ==> lamp_set(v, red, green, blue).1 == None::<Duties>,
{
}

/// A colour set on a lit lamp is remembered: switching the lamp off and on
/// again shows that colour.
pub proof fn lemma_colour_set_while_lit_survives_off_on(v: RgbView, red: u32, green: u32, blue: u32)
    requires
        v.on,
    ensures
        lamp_on(lamp_off(lamp_set(v, red, green, blue).0).0).1 == Some(Duties {
            red: duty(v.red.max_duty, red) as u32,
            green: duty(v.green.max_duty, green) as u32,
            blue: duty(v.blue.max_duty, blue) as u32,
        }),
{
}

} // verus!
