use vstd::prelude::*;

verus! {

/// The 1-based position of a contact on the 40-pin header.
#[derive(Debug, Clone, Copy, PartialEq, Eq, PartialOrd, Ord, Hash, Structural)]
pub struct PhysicalPin(pub u8);

/// The SoC's internal GPIO line number assigned to a contact.
#[derive(Debug, Clone, Copy, PartialEq, Eq, PartialOrd, Ord, Hash, Structural)]
pub struct GpioPin(pub u8);

/// The index assigned to a contact under the WiringPi numbering convention.
#[derive(Debug, Clone, Copy, PartialEq, Eq, PartialOrd, Ord, Hash, Structural)]
pub struct WiringPiPin(pub u8);

/// The three numbering schemes a conversion can translate between.
#[derive(Debug, Clone, Copy, PartialEq, Eq, Hash, Structural)]
pub enum Scheme {
    Physical,
    Gpio,
    WiringPi,
}

/// The input value does not correspond to any of the 28 table entries in the
/// requested source scheme (a power, ground, or reserved position, or an
/// out-of-range number).
#[derive(Debug, Clone, Copy, PartialEq, Eq, Structural)]
pub struct UnmappedPin;

/// The single source of truth: row `i` of the translation table, as the
/// triple (physical position, GPIO line, WiringPi index). The 28 rows are
/// the signal-carrying contacts of the 40-pin header, hardware-defined and
/// immutable.
pub open spec fn row_at(i: int) -> (u8, u8, u8) {
    if i == 0 {
        (3, 2, 8)
    } else if i == 1 {
        (5, 3, 9)
    } else if i == 2 {
        (7, 4, 7)
    } else if i == 3 {
        (8, 14, 15)
    } else if i == 4 {
        (10, 15, 16)
    } else if i == 5 {
        (11, 17, 0)
    } else if i == 6 {
        (12, 18, 1)
    } else if i == 7 {
        (13, 27, 2)
    } else if i == 8 {
        (15, 22, 3)
    } else if i == 9 {
        (16, 23, 4)
    } else if i == 10 {
        (18, 24, 5)
    } else if i == 11 {
        (19, 10, 12)
    } else if i == 12 {
        (21, 9, 13)
    } else if i == 13 {
        (22, 25, 6)
    } else if i == 14 {
        (23, 11, 14)
    } else if i == 15 {
        (24, 8, 10)
    } else if i == 16 {
        (26, 7, 11)
    } else if i == 17 {
        (27, 0, 30)
    } else if i == 18 {
        (28, 1, 31)
    } else if i == 19 {
        (29, 5, 21)
    } else if i == 20 {
        (31, 6, 22)
    } else if i == 21 {
        (32, 12, 26)
    } else if i == 22 {
        (33, 13, 23)
    } else if i == 23 {
        (35, 19, 24)
    } else if i == 24 {
        (36, 16, 27)
    } else if i == 25 {
        (37, 26, 25)
    } else if i == 26 {
        (38, 20, 28)
    } else {
        (40, 21, 29)
    }
}

/// The translation table as a sequence of 28 rows.
pub open spec fn pin_rows() -> Seq<(u8, u8, u8)> {
    Seq::new(28, |i: int| row_at(i))
}

/// The identifier a row carries in the given scheme.
pub open spec fn scheme_key(row: (u8, u8, u8), s: Scheme) -> u8 {
    match s {
        Scheme::Physical => row.0,
        Scheme::Gpio => row.1,
        Scheme::WiringPi => row.2,
    }
}

/// The identifiers the 28 rows carry in scheme `s`, in table order.
pub open spec fn scheme_keys(s: Scheme) -> Seq<u8> {
    pin_rows().map_values(|row: (u8, u8, u8)| scheme_key(row, s))
}

/// The valid domain of scheme `s`: the set of identifiers some row carries.
pub open spec fn valid_values(s: Scheme) -> Set<u8> {
    scheme_keys(s).to_set()
}

/// `v` is a valid identifier in scheme `s`: some table row carries it.
pub open spec fn is_mapped(s: Scheme, v: u8) -> bool {
    exists|i: int| 0 <= i < 28 && scheme_key(#[trigger] pin_rows()[i], s) == v
}

/// `row` is one of the 28 table rows.
pub open spec fn in_table(row: (u8, u8, u8)) -> bool {
    exists|i: int| 0 <= i < 28 && #[trigger] pin_rows()[i] == row
}

/// Linear search of the table for the row whose key in scheme `s` is `v`,
/// starting at row `i`.
pub open spec fn find_from(s: Scheme, v: u8, i: int) -> Option<(u8, u8, u8)>
    decreases 28 - i,
{
    if i < 0 || i >= 28 {
        None
    } else if scheme_key(pin_rows()[i], s) == v {
        Some(pin_rows()[i])
    } else {
        find_from(s, v, i + 1)
    }
}

/// The table row whose key in scheme `s` is `v`, if any.
pub open spec fn find_row(s: Scheme, v: u8) -> Option<(u8, u8, u8)> {
    find_from(s, v, 0)
}

/// What a conversion returns: the `to`-scheme identifier of the row keyed by
/// `v` in the `from` scheme, or `UnmappedPin` when no row carries `v`.
pub open spec fn convert_spec(v: u8, from: Scheme, to: Scheme) -> Result<u8, UnmappedPin> {
    match find_row(from, v) {
        Some(row) => Ok(scheme_key(row, to)),
        None => Err(UnmappedPin),
    }
}

} // verus!
