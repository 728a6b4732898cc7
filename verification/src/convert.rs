use vstd::prelude::*;

use crate::laws::lemma_find_from_none;
use crate::table::GpioPin;
use crate::table::PhysicalPin;
use crate::table::Scheme;
use crate::table::UnmappedPin;
use crate::table::WiringPiPin;
use crate::table::convert_spec;
use crate::table::find_from;
use crate::table::find_row;
use crate::table::is_mapped;
use crate::table::pin_rows;
use crate::table::row_at;
use crate::table::scheme_key;

verus! {

/// Row `i` of the translation table.
fn table_row(i: usize) -> (r: (u8, u8, u8))
    requires
        i < 28,
    ensures
        r == row_at(i as int),
{
    match i {
        0 => (3, 2, 8),
        1 => (5, 3, 9),
        2 => (7, 4, 7),
        3 => (8, 14, 15),
        4 => (10, 15, 16),
        5 => (11, 17, 0),
        6 => (12, 18, 1),
        7 => (13, 27, 2),
        8 => (15, 22, 3),
        9 => (16, 23, 4),
        10 => (18, 24, 5),
        11 => (19, 10, 12),
        12 => (21, 9, 13),
        13 => (22, 25, 6),
        14 => (23, 11, 14),
        15 => (24, 8, 10),
        16 => (26, 7, 11),
        17 => (27, 0, 30),
        18 => (28, 1, 31),
        19 => (29, 5, 21),
        20 => (31, 6, 22),
        21 => (32, 12, 26),
        22 => (33, 13, 23),
        23 => (35, 19, 24),
        24 => (36, 16, 27),
        25 => (37, 26, 25),
        26 => (38, 20, 28),
        _ => (40, 21, 29),
    }
}

/// The identifier `row` carries in scheme `s`.
fn scheme_key_of(row: (u8, u8, u8), s: Scheme) -> (k: u8)
    ensures
        k == scheme_key(row, s),
{
    match s {
        Scheme::Physical => row.0,
        Scheme::Gpio => row.1,
        Scheme::WiringPi => row.2,
    }
}

/// Translate `value` from scheme `from` to scheme `to` by table lookup.
/// Returns `UnmappedPin` exactly when `value` is not a valid identifier in
/// the source scheme.
pub fn convert(value: u8, from: Scheme, to: Scheme) -> (r: Result<u8, UnmappedPin>)
    ensures
        r == convert_spec(value, from, to),
        r is Ok <==> is_mapped(from, value),
{
    let mut i: usize = 0;
    while i < 28
        invariant
            i <= 28,
            find_row(from, value) == find_from(from, value, i as int),
        decreases 28 - i,
    {
        let row = table_row(i);
        proof {
            assert(pin_rows()[i as int] == row_at(i as int));
        }
        if scheme_key_of(row, from) == value {
            return Ok(scheme_key_of(row, to));
        }
        i = i + 1;
    }
    proof {
        lemma_find_from_none(from, value, 0);
    }
    Err(UnmappedPin)
}

/// The GPIO line wired to physical position `pin`, or `UnmappedPin` when
/// that position carries no GPIO signal.
pub fn physical_to_gpio(pin: PhysicalPin) -> (r: Result<GpioPin, UnmappedPin>)
    ensures
        r is Ok <==> is_mapped(Scheme::Physical, pin.0),
        r matches Ok(g) ==> Ok::<u8, UnmappedPin>(g.0) == convert_spec(
            pin.0,
            Scheme::Physical,
            Scheme::Gpio,
        ),
        r is Err ==> r == Err::<GpioPin, UnmappedPin>(UnmappedPin),
{
    match convert(pin.0, Scheme::Physical, Scheme::Gpio) {
        Ok(v) => Ok(GpioPin(v)),
        Err(e) => Err(e),
    }
}

/// The WiringPi index of physical position `pin`, or `UnmappedPin` when
/// that position carries no GPIO signal.
pub fn physical_to_wiring_pi(pin: PhysicalPin) -> (r: Result<WiringPiPin, UnmappedPin>)
    ensures
        r is Ok <==> is_mapped(Scheme::Physical, pin.0),
        r matches Ok(w) ==> Ok::<u8, UnmappedPin>(w.0) == convert_spec(
            pin.0,
            Scheme::Physical,
            Scheme::WiringPi,
        ),
        r is Err ==> r == Err::<WiringPiPin, UnmappedPin>(UnmappedPin),
{
    match convert(pin.0, Scheme::Physical, Scheme::WiringPi) {
        Ok(v) => Ok(WiringPiPin(v)),
        Err(e) => Err(e),
    }
}

/// The physical position of GPIO line `pin`, or `UnmappedPin` when no
/// header contact carries that line.
pub fn gpio_to_physical(pin: GpioPin) -> (r: Result<PhysicalPin, UnmappedPin>)
    ensures
        r is Ok <==> is_mapped(Scheme::Gpio, pin.0),
        r matches Ok(p) ==> Ok::<u8, UnmappedPin>(p.0) == convert_spec(
            pin.0,
            Scheme::Gpio,
            Scheme::Physical,
        ),
        r is Err ==> r == Err::<PhysicalPin, UnmappedPin>(UnmappedPin),
{
    match convert(pin.0, Scheme::Gpio, Scheme::Physical) {
        Ok(v) => Ok(PhysicalPin(v)),
        Err(e) => Err(e),
    }
}

/// The WiringPi index of GPIO line `pin`, or `UnmappedPin` when no header
/// contact carries that line.
pub fn gpio_to_wiring_pi(pin: GpioPin) -> (r: Result<WiringPiPin, UnmappedPin>)
    ensures
        r is Ok <==> is_mapped(Scheme::Gpio, pin.0),
        r matches Ok(w) ==> Ok::<u8, UnmappedPin>(w.0) == convert_spec(
            pin.0,
            Scheme::Gpio,
            Scheme::WiringPi,
        ),
        r is Err ==> r == Err::<WiringPiPin, UnmappedPin>(UnmappedPin),
{
    match convert(pin.0, Scheme::Gpio, Scheme::WiringPi) {
        Ok(v) => Ok(WiringPiPin(v)),
        Err(e) => Err(e),
    }
}

/// The physical position of WiringPi index `pin`, or `UnmappedPin` when the
/// convention assigns that index to no contact.
pub fn wiring_pi_to_physical(pin: WiringPiPin) -> (r: Result<PhysicalPin, UnmappedPin>)
    ensures
        r is Ok <==> is_mapped(Scheme::WiringPi, pin.0),
        r matches Ok(p) ==> Ok::<u8, UnmappedPin>(p.0) == convert_spec(
            pin.0,
            Scheme::WiringPi,
            Scheme::Physical,
        ),
        r is Err ==> r == Err::<PhysicalPin, UnmappedPin>(UnmappedPin),
{
    match convert(pin.0, Scheme::WiringPi, Scheme::Physical) {
        Ok(v) => Ok(PhysicalPin(v)),
        Err(e) => Err(e),
    }
}

/// The GPIO line of WiringPi index `pin`, or `UnmappedPin` when the
/// convention assigns that index to no contact.
pub fn wiring_pi_to_gpio(pin: WiringPiPin) -> (r: Result<GpioPin, UnmappedPin>)
    ensures
        r is Ok <==> is_mapped(Scheme::WiringPi, pin.0),
        r matches Ok(g) ==> Ok::<u8, UnmappedPin>(g.0) == convert_spec(
            pin.0,
            Scheme::WiringPi,
            Scheme::Gpio,
        ),
        r is Err ==> r == Err::<GpioPin, UnmappedPin>(UnmappedPin),
{
    match convert(pin.0, Scheme::WiringPi, Scheme::Gpio) {
        Ok(v) => Ok(GpioPin(v)),
        Err(e) => Err(e),
    }
}

} // verus!
