use vstd::prelude::*;

use crate::lamp::{lamp_fits, lamp_off, lamp_on, lamp_set, with_values, Duties};
use crate::thing::{registered, Thing, ThingView, HUMIDITY_BASE, HUMIDITY_SPREAD};
use crate::thing_protocol::Topic;

verus! {

/// The registry gives the thing with id `id` the name `name`.
pub struct SetName {
    pub id: String,
    pub name: String,
}

pub struct SetNameDescription {
    pub set_name: SetName,
}

/// A message received on the registry topic.
pub enum RegistryType {
    SetNameType(SetNameDescription),
    /// Any other registry message; a thing ignores it.
    Other,
}

/// The thing with id `id` is to show the colour `r`, `g`, `b`.
pub struct LampRGB {
    pub id: String,
    pub r: u32,
    pub g: u32,
    pub b: u32,
}

pub struct LampRGBDescription {
    pub lamp_rgb: LampRGB,
}

/// The lamp of the thing with id `id` is to be switched on or off.
pub struct LampState {
    pub id: String,
    pub state: bool,
}

pub struct LampStateDescription {
    pub lamp_state: LampState,
}

/// A message received on the thing-input topic.
pub enum ThingInputType {
    LampRGB(LampRGBDescription),
    LampState(LampStateDescription),
    /// Any other thing input, such as a measurement; a thing ignores it.
    Other,
}

/// The events that drive a thing.
pub enum Topics {
    Registry(RegistryType),
    ThingInput(ThingInputType),
    /// The periodic timer fired; it carries its period in seconds.
    Timer(u64),
}

/// A message that a thing publishes.
pub enum Message {
    /// The thing asks the registry to register it.
    RequestRegistration { id: String },
    /// The thing reports its temperature; the measured value is added where
    /// the message is encoded.
    MeasurementTemperature { id: String },
    /// The thing reports its humidity.
    MeasurementHumidity { id: String, humidity: u8 },
}

/// A message with the topic it is published on.
pub struct Publication {
    pub topic: Topic,
    pub message: Message,
}

/// What handling an event asks of the outside world: messages to publish,
/// in order, and the duties to set the lamp's drivers to, if they change.
pub struct Reaction {
    pub publications: Vec<Publication>,
    pub duties: Option<Duties>,
}

/// `p` asks the registry to register the thing with id `id`.
pub open spec fn is_registration_request(p: Publication, id: Seq<char>) -> bool {
    &&& p.topic == Topic::Registry
    &&& p.message matches Message::RequestRegistration { id: i } && i@ == id
}

/// `ps` reports the temperature and then the humidity `humidity` of the
/// thing with id `id`, both on the thing-input topic.
pub open spec fn is_measurement_report(ps: Seq<Publication>, id: Seq<char>, humidity: u8) -> bool {
    &&& ps.len() == 2
    &&& ps[0].topic == Topic::ThingInput
    &&& ps[0].message matches Message::MeasurementTemperature { id: i } && i@ == id
    &&& ps[1].topic == Topic::ThingInput
    &&& ps[1].message matches Message::MeasurementHumidity { id: i, humidity: h } && i@ == id
        && h == humidity
}

/// The thing after a registry message: a name given to its own id becomes
/// its name; anything else leaves it as it is.
pub open spec fn after_registry(registry: RegistryType, t: ThingView) -> ThingView {
    match registry {
        RegistryType::SetNameType(d) => if d.set_name.id@ == t.id {
            ThingView { name: d.set_name.name@, ..t }
        } else {
            t
        },
        RegistryType::Other => t,
    }
}

/// The thing after a thing input, with the duties for its drivers: lamp
/// commands for its own id act on its lamp; anything else leaves it as it is.
pub open spec fn after_thing_input(input: ThingInputType, t: ThingView) -> (ThingView, Option<Duties>) {
    match input {
        ThingInputType::LampRGB(d) => if d.lamp_rgb.id@ == t.id {
            let (lamp, duties) = lamp_set(t.lamp, d.lamp_rgb.r, d.lamp_rgb.g, d.lamp_rgb.b);
            (ThingView { lamp, ..t }, duties)
        } else {
            (t, None)
        },
        ThingInputType::LampState(d) => if d.lamp_state.id@ == t.id {
            let (lamp, duties) = if d.lamp_state.state { lamp_on(t.lamp) } else { lamp_off(t.lamp) };
            (ThingView { lamp, ..t }, duties)
        } else {
            (t, None)
        },
        ThingInputType::Other => (t, None),
    }
}

/// A thing input can be handled without overflow of a duty.
pub open spec fn thing_input_admissible(input: ThingInputType, t: ThingView) -> bool {
    match input {
        ThingInputType::LampRGB(d) => d.lamp_rgb.id@ == t.id && t.lamp.on
            ==> lamp_fits(with_values(t.lamp, d.lamp_rgb.r, d.lamp_rgb.g, d.lamp_rgb.b)),
        ThingInputType::LampState(d) => d.lamp_state.id@ == t.id && d.lamp_state.state && !t.lamp.on
            ==> lamp_fits(t.lamp),
        ThingInputType::Other => true,
    }
}

/// An event can be handled without overflow of a duty.
pub open spec fn event_admissible(event: Topics, t: ThingView) -> bool {
    match event {
        Topics::ThingInput(input) => thing_input_admissible(input, t),
        _ => true,
    }
}

/// `after` and `reaction` are what handling `event` on the thing `before`
/// gives. The timer's report carries a humidity in the reported range,
/// drawn at random.
pub open spec fn handled(event: Topics, before: ThingView, after: ThingView, reaction: Reaction) -> bool {
    match event {
        Topics::Registry(registry) => {
            &&& after == after_registry(registry, before)
            &&& reaction.publications@.len() == 0
            &&& reaction.duties is None
        },
        Topics::ThingInput(input) => {
            &&& (after, reaction.duties) == after_thing_input(input, before)
            &&& reaction.publications@.len() == 0
        },
        Topics::Timer(_) => {
            &&& after == before
            &&& reaction.duties is None
            &&& registered(before) ==> (exists|h: u8|
                HUMIDITY_BASE <= h < HUMIDITY_BASE + HUMIDITY_SPREAD
                && is_measurement_report(reaction.publications@, before.id, h))
            &&& !registered(before) ==> reaction.publications@.len() == 0
        },
    }
}

/// The colour value that each channel of the lamp gets at start-up.
pub const START_COLOUR: u32 = 100;

/// Start-up can give the lamp its first colour and light it without
/// overflow of a duty.
pub open spec fn start_admissible(t: ThingView) -> bool {
    lamp_fits(with_values(t.lamp, START_COLOUR, START_COLOUR, START_COLOUR))
}

/// The message that asks the registry to register `thing`.
pub fn register_device(thing: &Thing) -> (p: Publication)
    ensures
        is_registration_request(p, thing@.id),
{
    Publication { topic: Topic::Registry, message: Message::RequestRegistration { id: thing.get_id() } }
}

/// The measurement report of `thing` with the humidity `humidity`.
pub fn measurements(thing: &Thing, humidity: u8) -> (ps: Vec<Publication>)
    ensures
        is_measurement_report(ps@, thing@.id, humidity),
{
    let mut ps = Vec::new();
    ps.push(Publication {
        topic: Topic::ThingInput,
        message: Message::MeasurementTemperature { id: thing.get_id() },
    });
    ps.push(Publication {
        topic: Topic::ThingInput,
        message: Message::MeasurementHumidity { id: thing.get_id(), humidity },
    });
    ps
}

/// On the timer, a registered thing reports its measurements; a thing
/// without a name reports nothing.
fn handle_timer(thing: &Thing) -> (ps: Vec<Publication>)
    ensures
        registered(thing@) ==> (exists|h: u8|
            HUMIDITY_BASE <= h < HUMIDITY_BASE + HUMIDITY_SPREAD
            && is_measurement_report(ps@, thing@.id, h)),
        !registered(thing@) ==> ps@.len() == 0,
{
    if thing.is_registered() {
        let humidity = thing.get_humidity();
        measurements(thing, humidity)
    } else {
        Vec::new()
    }
}

fn set_thing_name(thing: &mut Thing, set_name_description: SetNameDescription)
    ensures
        final(thing)@ == after_registry(RegistryType::SetNameType(set_name_description), old(thing)@),
{
    let SetNameDescription { set_name: SetName { id, name } } = set_name_description;
    if id == thing.get_id() {
        thing.set_name(name);
    }
}

fn handle_registry(registry: RegistryType, thing: &mut Thing)
    ensures
        final(thing)@ == after_registry(registry, old(thing)@),
{
    match registry {
        RegistryType::SetNameType(set_name_description) => set_thing_name(thing, set_name_description),
        RegistryType::Other => {},
    }
}

fn set_lamp_rgb(thing: &mut Thing, lamp_rgb_description: LampRGBDescription) -> (duties: Option<Duties>)
    requires
        thing_input_admissible(ThingInputType::LampRGB(lamp_rgb_description), old(thing)@),
    ensures
        (final(thing)@, duties) == after_thing_input(ThingInputType::LampRGB(lamp_rgb_description), old(thing)@),
{
    let lamp_rgb = lamp_rgb_description.lamp_rgb;
    if lamp_rgb.id == thing.get_id() {
        thing.set_lamp_rgb(lamp_rgb.r, lamp_rgb.g, lamp_rgb.b)
    } else {
        None
    }
}

fn set_lamp_state(thing: &mut Thing, lamp_state_description: LampStateDescription) -> (duties: Option<Duties>)
    requires
        thing_input_admissible(ThingInputType::LampState(lamp_state_description), old(thing)@),
    ensures
        (final(thing)@, duties) == after_thing_input(ThingInputType::LampState(lamp_state_description), old(thing)@),
{
    let lamp_state = lamp_state_description.lamp_state;
    if lamp_state.id == thing.get_id() {
        thing.set_lamp_state(lamp_state.state)
    } else {
        None
    }
}

fn handle_thing_input(thing_input: ThingInputType, thing: &mut Thing) -> (duties: Option<Duties>)
    requires
        thing_input_admissible(thing_input, old(thing)@),
    ensures
        (final(thing)@, duties) == after_thing_input(thing_input, old(thing)@),
{
    match thing_input {
        ThingInputType::LampRGB(it) => set_lamp_rgb(thing, it),
        ThingInputType::LampState(it) => set_lamp_state(thing, it),
        ThingInputType::Other => None,
    }
}

/// What a thing does when it starts: it asks the registry to register
/// it, gives its lamp the colour `START_COLOUR` on every channel and
/// switches the lamp on. Of the two lamp commands the drivers need only the
/// duties of the later one that changes them.
pub fn start_up(thing: &mut Thing) -> (reaction: Reaction)
    requires
        start_admissible(old(thing)@),
    ensures
        reaction.publications@.len() == 1,
        is_registration_request(reaction.publications@[0], old(thing)@.id),
        ({
            let (coloured, set_duties) = lamp_set(old(thing)@.lamp, START_COLOUR, START_COLOUR, START_COLOUR);
            let (lit, on_duties) = lamp_on(coloured);
            &&& final(thing)@ == (ThingView { lamp: lit, ..old(thing)@ })
            &&& reaction.duties == (if on_duties is Some { on_duties } else { set_duties })
        }),
{
    let registration = register_device(thing);
    let set_duties = thing.set_lamp_rgb(START_COLOUR, START_COLOUR, START_COLOUR);
    let on_duties = thing.set_lamp_state(true);
    let duties = match on_duties {
        Some(d) => Some(d),
        None => set_duties,
    };
    let mut publications = Vec::new();
    publications.push(registration);
    Reaction { publications, duties }
}

/// The event can be handled: the exact test of `event_admissible`.
pub fn accepts_event(event: &Topics, thing: &Thing) -> (ok: bool)
    ensures
        ok == event_admissible(*event, thing@),
{
    match event {
        Topics::ThingInput(ThingInputType::LampRGB(d)) => {
            if d.lamp_rgb.id == thing.get_id() {
                thing.accepts_lamp_rgb(d.lamp_rgb.r, d.lamp_rgb.g, d.lamp_rgb.b)
            } else {
                true
            }
        },
        Topics::ThingInput(ThingInputType::LampState(d)) => {
            if d.lamp_state.id == thing.get_id() {
                thing.accepts_lamp_state(d.lamp_state.state)
            } else {
                true
            }
        },
        _ => true,
    }
}

/// Handles one event: a registry message may name the thing, a thing input
/// may act on its lamp, and the timer makes a registered thing report its
/// measurements.
pub fn handle_event(event: Topics, thing: &mut Thing) -> (reaction: Reaction)
    requires
        event_admissible(event, old(thing)@),
    ensures
        handled(event, old(thing)@, final(thing)@, reaction),
{
    let reaction = match event {
        Topics::Registry(it) => {
            handle_registry(it, thing);
            Reaction { publications: Vec::new(), duties: None }
        },
        Topics::ThingInput(it) => {
            let duties = handle_thing_input(it, thing);
            Reaction { publications: Vec::new(), duties }
        },
        Topics::Timer(_) => {
            let publications = handle_timer(thing);
            let reaction = Reaction { publications, duties: None };
            proof {
                if registered(thing@) {
                    let h = choose|h: u8| HUMIDITY_BASE <= h < HUMIDITY_BASE + HUMIDITY_SPREAD
                        && is_measurement_report(publications@, thing@.id, h);
                    assert(is_measurement_report(reaction.publications@, old(thing)@.id, h));
                }
            }
            reaction
        },
    };
    reaction
}

} // verus!

verus! {

/// No event changes a thing's id.
pub proof fn lemma_events_keep_id(event: Topics, before: ThingView, after: ThingView, reaction: Reaction)
    requires
        handled(event, before, after, reaction),
    ensures
        after.id == before.id,
{
}

/// Messages addressed to another id leave the thing as it is and send
/// nothing to the lamp's drivers.
pub proof fn lemma_other_ids_are_ignored(event: Topics, before: ThingView, after: ThingView, reaction: Reaction)
    requires
        handled(event, before, after, reaction),
        match event {
            Topics::Registry(RegistryType::SetNameType(d)) => d.set_name.id@ != before.id,
            Topics::ThingInput(ThingInputType::LampRGB(d)) => d.lamp_rgb.id@ != before.id,
            Topics::ThingInput(ThingInputType::LampState(d)) => d.lamp_state.id@ != before.id,
            _ => false,
        },
    ensures
        after == before,
        reaction.duties is None,
        reaction.publications@.len() == 0,
{
}

/// A thing that the registry gives a non-empty name is registered, and
/// from then on the timer makes it report its measurements.
pub proof fn lemma_named_thing_reports(
    before: ThingView,
    d: SetNameDescription,
    timer: u64,
    after_timer: ThingView,
    reaction: Reaction,
)
    requires
        d.set_name.id@ == before.id,
        d.set_name.name@.len() != 0,
        handled(Topics::Timer(timer), after_registry(RegistryType::SetNameType(d), before), after_timer, reaction),
    ensures
        registered(after_registry(RegistryType::SetNameType(d), before)),
        exists|h: u8|
            HUMIDITY_BASE <= h < HUMIDITY_BASE + HUMIDITY_SPREAD
            && is_measurement_report(reaction.publications@, before.id, h),
{
}

/// A thing without a name publishes nothing on the timer.
pub proof fn lemma_unnamed_thing_is_silent(timer: u64, before: ThingView, after: ThingView, reaction: Reaction)
    requires
        !registered(before),
        handled(Topics::Timer(timer), before, after, reaction),
    ensures
        reaction.publications@.len() == 0,
        after == before,
{
}

} // verus!

verus! {

/// A registry message other than a name leaves the thing unchanged and
/// asks for nothing.
pub proof fn lemma_other_registry_messages_are_ignored(before: ThingView, after: ThingView, reaction: Reaction)
    requires
        handled(Topics::Registry(RegistryType::Other), before, after, reaction),
    ensures
        after == before,
        reaction.duties is None,
        reaction.publications@.len() == 0,
{
}

/// A name for the thing's own id becomes its name; its id and lamp stay.
pub proof fn lemma_set_name_names_thing(before: ThingView, d: SetNameDescription, after: ThingView, reaction: Reaction)
    requires
        handled(Topics::Registry(RegistryType::SetNameType(d)), before, after, reaction),
        d.set_name.id@ == before.id,
    ensures
        after.id == before.id,
        after.name == d.set_name.name@,
        after.lamp == before.lamp,
        registered(after) == (d.set_name.name@.len() != 0),
        reaction.duties is None,
        reaction.publications@.len() == 0,
{
}

/// A thing input that is not a lamp command leaves the thing unchanged and
/// sends nothing to the lamp's drivers.
pub proof fn lemma_other_thing_input_is_ignored(before: ThingView, after: ThingView, reaction: Reaction)
    requires
        handled(Topics::ThingInput(ThingInputType::Other), before, after, reaction),
    ensures
        after == before,
        reaction.duties is None,
        reaction.publications@.len() == 0,
{
}

/// A lamp-state command for the thing's own id leaves the lamp in the
/// commanded state with its channels unchanged; drivers get duties only
/// when the state changes: those of the colour when it is switched on,
/// zero when it is switched off.
pub proof fn lemma_lamp_state_command(before: ThingView, d: LampStateDescription, after: ThingView, reaction: Reaction)
    requires
        handled(Topics::ThingInput(ThingInputType::LampState(d)), before, after, reaction),
        d.lamp_state.id@ == before.id,
    ensures
        after.id == before.id,
        after.name == before.name,
        after.lamp.on == d.lamp_state.state,
        after.lamp.red == before.lamp.red,
        after.lamp.green == before.lamp.green,
        after.lamp.blue == before.lamp.blue,
        d.lamp_state.state == before.lamp.on ==> reaction.duties is None,
        d.lamp_state.state && !before.lamp.on ==> reaction.duties == Some(Duties {
            red: crate::lamp::duty(before.lamp.red.max_duty, before.lamp.red.value) as u32,
            green: crate::lamp::duty(before.lamp.green.max_duty, before.lamp.green.value) as u32,
            blue: crate::lamp::duty(before.lamp.blue.max_duty, before.lamp.blue.value) as u32,
        }),
        !d.lamp_state.state && before.lamp.on ==> reaction.duties == Some(Duties { red: 0, green: 0, blue: 0 }),
        reaction.publications@.len() == 0,
{
}

/// A colour command for the thing's own id stores the colour in the lamp
/// whatever its state; drivers get the new duties only when it is lit.
pub proof fn lemma_lamp_rgb_command(before: ThingView, d: LampRGBDescription, after: ThingView, reaction: Reaction)
    requires
        handled(Topics::ThingInput(ThingInputType::LampRGB(d)), before, after, reaction),
        d.lamp_rgb.id@ == before.id,
    ensures
        after.id == before.id,
        after.name == before.name,
        after.lamp.on == before.lamp.on,
        after.lamp.red == (crate::lamp::Led { value: d.lamp_rgb.r, max_duty: before.lamp.red.max_duty }),
        after.lamp.green == (crate::lamp::Led { value: d.lamp_rgb.g, max_duty: before.lamp.green.max_duty }),
        after.lamp.blue == (crate::lamp::Led { value: d.lamp_rgb.b, max_duty: before.lamp.blue.max_duty }),
        before.lamp.on ==> reaction.duties == Some(Duties {
            red: crate::lamp::duty(before.lamp.red.max_duty, d.lamp_rgb.r) as u32,
            green: crate::lamp::duty(before.lamp.green.max_duty, d.lamp_rgb.g) as u32,
            blue: crate::lamp::duty(before.lamp.blue.max_duty, d.lamp_rgb.b) as u32,
        }),
        !before.lamp.on ==> reaction.duties is None,
        reaction.publications@.len() == 0,
{
}

} // verus!
