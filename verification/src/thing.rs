use vstd::prelude::*;

use crate::lamp::{lamp_fits, lamp_off, lamp_on, lamp_set, with_values, Duties, RgbView, RGB};

verus! {

/// The humidity that is reported at least.
pub const HUMIDITY_BASE: u8 = 45;

/// The number of distinct humidities that are reported.
pub const HUMIDITY_SPREAD: u8 = 10;

/// The decimal digit `d` (for `0 <= d < 10`).
pub open spec fn digit_char(d: int) -> char {
    if d == 0 { '0' }
    else if d == 1 { '1' }
    else if d == 2 { '2' }
    else if d == 3 { '3' }
    else if d == 4 { '4' }
    else if d == 5 { '5' }
    else if d == 6 { '6' }
    else if d == 7 { '7' }
    else if d == 8 { '8' }
    else { '9' }
}

/// The decimal notation of `n`, without leading zeros ("0" for zero).
pub open spec fn decimal(n: nat) -> Seq<char>
    decreases n,
{
    if n < 10 {
        seq![digit_char(n as int)]
    } else {
        decimal(n / 10).push(digit_char((n % 10) as int))
    }
}

/// The value of a decimal digit.
pub open spec fn digit_value(c: char) -> int {
    c as int - '0' as int
}

/// The number that a string of decimal digits denotes.
pub open spec fn decimal_value(s: Seq<char>) -> int
    decreases s.len(),
{
    if s.len() == 0 {
        0
    } else {
        decimal_value(s.drop_last()) * 10 + digit_value(s.last())
    }
}

/// An id is a non-empty string of decimal digits whose first digit is not
/// `0` unless the id is "0", and it denotes the number it was made from.
pub proof fn lemma_decimal_denotes(n: nat)
    ensures
        decimal(n).len() > 0,
        forall|i: int| 0 <= i < decimal(n).len() ==> '0' <= #[trigger] decimal(n)[i] <= '9',
        decimal(n)[0] == '0' ==> n == 0,
        decimal_value(decimal(n)) == n,
        n < 10 <==> decimal(n).len() == 1,
    decreases n,
{
    let s = decimal(n);
    let d = (n % 10) as int;
    assert(digit_value(digit_char(d)) == d);
    if n >= 10 {
        lemma_decimal_denotes(n / 10);
        assert(s.drop_last() =~= decimal(n / 10));
    } else {
        assert(s.drop_last() =~= Seq::<char>::empty());
        assert(decimal_value(s.drop_last()) == 0);
    }
}

/// Different uuids give different ids.
pub proof fn lemma_decimal_injective(n: nat, m: nat)
    requires
        decimal(n) == decimal(m),
    ensures
        n == m,
{
    lemma_decimal_denotes(n);
    lemma_decimal_denotes(m);
}

/// The string that holds the single digit `d`.
fn digit_str(d: u128) -> (s: &'static str)
    requires
        d < 10,
    ensures
        s@ == seq![digit_char(d as int)],
{
    proof {
        reveal_strlit("0");
        reveal_strlit("1");
        reveal_strlit("2");
        reveal_strlit("3");
        reveal_strlit("4");
        reveal_strlit("5");
        reveal_strlit("6");
        reveal_strlit("7");
        reveal_strlit("8");
        reveal_strlit("9");
    }
    if d == 0 { "0" }
    else if d == 1 { "1" }
    else if d == 2 { "2" }
    else if d == 3 { "3" }
    else if d == 4 { "4" }
    else if d == 5 { "5" }
    else if d == 6 { "6" }
    else if d == 7 { "7" }
    else if d == 8 { "8" }
    else { "9" }
}

/// Appends the decimal notation of `n` to `out`.
fn append_decimal(n: u128, out: &mut String)
    ensures
        final(out)@ == old(out)@ + decimal(n as nat),
    decreases n,
{
    if n >= 10 {
        append_decimal(n / 10, out);
    }
    let ghost before = out@;
    out.append(digit_str(n % 10));
    proof {
        if n >= 10 {
            assert(before + seq![digit_char((n % 10) as int)] =~= old(out)@ + decimal(n as nat));
        } else {
            assert(out@ =~= old(out)@ + decimal(n as nat));
        }
    }
}

/// The id of a thing: the decimal notation of its uuid.
pub fn id_from_uuid(uuid: u128) -> (id: String)
    ensures
        id@ == decimal(uuid as nat),
{
    let mut id = String::new();
    append_decimal(uuid, &mut id);
    assert(id@ =~= decimal(uuid as nat));
    id
}

/// A number in `0..bound`, drawn at random.
///
/// Calls `rand::Rng::gen_range` on `rand::thread_rng()`; the contract claims
/// what its documentation promises of every outcome: the number lies in the
/// half-open range. The range is not empty, on which `gen_range` panics;
/// the thread's generator panics where the operating system cannot seed
/// it, which no precondition here can rule out.
#[verifier::external_body]
fn random_below(bound: u8) -> (r: u8)
    requires
        0 < bound,
    ensures
        r < bound,
{
    rand::Rng::gen_range(&mut rand::thread_rng(), 0..bound)
}

/// The humidity that is reported when `sample` was drawn from
/// `0..HUMIDITY_SPREAD`.
pub fn humidity_from_sample(sample: u8) -> (h: u8)
    requires
        sample < HUMIDITY_SPREAD,
    ensures
        h == HUMIDITY_BASE + sample,
{
    HUMIDITY_BASE + sample
}

/// What a thing is: its id, its name (empty until the registry names it)
/// and its lamp.
pub struct ThingView {
    pub id: Seq<char>,
    pub name: Seq<char>,
    pub lamp: RgbView,
}

/// A thing of the registry: a device with an id, a name and an RGB lamp.
pub struct Thing {
    id: String,
    name: String,
    rgb: RGB,
}

impl View for Thing {
    type V = ThingView;

    closed spec fn view(&self) -> ThingView {
        ThingView { id: self.id@, name: self.name@, lamp: self.rgb@ }
    }
}

/// A thing counts as registered once it has a name.
pub open spec fn registered(t: ThingView) -> bool {
    t.name.len() != 0
}

impl Thing {
    /// A thing with the id of `uuid`, no name yet, and the lamp `rgb`.
    pub fn new(uuid: u128, rgb: RGB) -> (thing: Thing)
        ensures
            thing@ == (ThingView { id: decimal(uuid as nat), name: Seq::empty(), lamp: rgb@ }),
    {
        Thing { id: id_from_uuid(uuid), name: String::new(), rgb }
    }

    pub fn get_id(&self) -> (id: String)
        ensures
            id@ == self@.id,
    {
        self.id.clone()
    }

    pub fn set_name(&mut self, name: String)
        ensures
            final(self)@ == (ThingView { name: name@, ..old(self)@ }),
    {
        self.name = name;
    }

    pub fn is_registered(&self) -> (r: bool)
        ensures
            r == registered(self@),
    {
        let empty = String::new();
        proof {
            if self.name@.len() == 0 {
                assert(self.name@ =~= empty@);
            }
        }
        !(self.name == empty)
    }

    /// The humidity to report: a random number in
    /// `HUMIDITY_BASE..HUMIDITY_BASE + HUMIDITY_SPREAD`.
    pub fn get_humidity(&self) -> (h: u8)
        ensures
            HUMIDITY_BASE <= h < HUMIDITY_BASE + HUMIDITY_SPREAD,
    {
        humidity_from_sample(random_below(HUMIDITY_SPREAD))
    }

    /// The lamp can show the colour `r`, `g`, `b` without overflow.
    pub fn lamp_can_show(&self, r: u32, g: u32, b: u32) -> (ok: bool)
        ensures
            ok == lamp_fits(with_values(self@.lamp, r, g, b)),
    {
        self.rgb.can_show(r, g, b)
    }

    /// The lamp can take the colour `r`, `g`, `b` without overflow.
    pub fn accepts_lamp_rgb(&self, r: u32, g: u32, b: u32) -> (ok: bool)
        ensures
            ok == (self@.lamp.on ==> lamp_fits(with_values(self@.lamp, r, g, b))),
    {
        !self.rgb.is_on() || self.rgb.can_show(r, g, b)
    }

    /// The lamp can be switched to `state` without overflow.
    pub fn accepts_lamp_state(&self, state: bool) -> (ok: bool)
        ensures
            ok == (state && !self@.lamp.on ==> lamp_fits(self@.lamp)),
    {
        !state || self.rgb.is_on() || self.rgb.can_light()
    }

    /// Switches the lamp on or off; returns the duties for the drivers, if
    /// they change.
    pub fn set_lamp_state(&mut self, state: bool) -> (d: Option<Duties>)
        requires
            state && !old(self)@.lamp.on ==> lamp_fits(old(self)@.lamp),
        ensures
            final(self)@.id == old(self)@.id,
            final(self)@.name == old(self)@.name,
            (final(self)@.lamp, d) == (if state { lamp_on(old(self)@.lamp) } else { lamp_off(old(self)@.lamp) }),
    {
        if state {
            self.rgb.on()
        } else {
            self.rgb.off()
        }
    }

    /// Gives the lamp a new colour; returns the duties for the drivers if
    /// the lamp is lit.
    pub fn set_lamp_rgb(&mut self, r: u32, g: u32, b: u32) -> (d: Option<Duties>)
        requires
            old(self)@.lamp.on ==> lamp_fits(with_values(old(self)@.lamp, r, g, b)),
        ensures
            final(self)@.id == old(self)@.id,
            final(self)@.name == old(self)@.name,
            (final(self)@.lamp, d) == lamp_set(old(self)@.lamp, r, g, b),
    {
        self.rgb.set(r, g, b)
    }
}

} // verus!
