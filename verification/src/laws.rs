use vstd::prelude::*;

use crate::table::Scheme;
use crate::table::UnmappedPin;
use crate::table::convert_spec;
use crate::table::find_from;
use crate::table::find_row;
use crate::table::in_table;
use crate::table::is_mapped;
use crate::table::pin_rows;
use crate::table::row_at;
use crate::table::scheme_key;
use crate::table::scheme_keys;
use crate::table::valid_values;

verus! {

/// A failed search starting at row `i` means no row from `i` on carries `v`
/// in scheme `s`.
pub proof fn lemma_find_from_none(s: Scheme, v: u8, i: int)
    requires
        0 <= i <= 28,
        find_from(s, v, i) is None,
    ensures
        forall|j: int| i <= j < 28 ==> scheme_key(#[trigger] pin_rows()[j], s) != v,
    decreases 28 - i,
{
    if i < 28 {
        lemma_find_from_none(s, v, i + 1);
    }
}

/// A successful search returns a table row that carries `v` in scheme `s`.
pub proof fn lemma_find_from_some(s: Scheme, v: u8, i: int)
    requires
        0 <= i <= 28,
        find_from(s, v, i) is Some,
    ensures
        in_table(find_from(s, v, i)->Some_0),
        scheme_key(find_from(s, v, i)->Some_0, s) == v,
    decreases 28 - i,
{
    if i < 28 {
        if scheme_key(pin_rows()[i], s) == v {
            assert(0 <= i < 28 && pin_rows()[i] == find_from(s, v, i)->Some_0);
        } else {
            lemma_find_from_some(s, v, i + 1);
        }
    }
}

/// No two table rows agree in any component: physical positions, GPIO
/// lines, and WiringPi indices are each pairwise distinct.
pub proof fn lemma_rows_distinct()
    ensures
        forall|i: int, j: int|
            0 <= i < 28 && 0 <= j < 28 && i != j ==> (#[trigger] pin_rows()[i]).0 != (
            #[trigger] pin_rows()[j]).0 && pin_rows()[i].1 != pin_rows()[j].1 && pin_rows()[i].2
                != pin_rows()[j].2,
{
    assert forall|i: int, j: int| 0 <= i < 28 && 0 <= j < 28 && i != j implies (
    #[trigger] pin_rows()[i]).0 != (#[trigger] pin_rows()[j]).0 && pin_rows()[i].1
        != pin_rows()[j].1 && pin_rows()[i].2 != pin_rows()[j].2 by {
        assert(pin_rows()[i] == row_at(i));
        assert(pin_rows()[j] == row_at(j));
    }
}

/// Table completeness: the table has exactly 28 rows, within each scheme
/// every row carries a different identifier (no two physical pins share a
/// GPIO line or a WiringPi index), and each scheme's valid domain is a set
/// of exactly 28 values.
pub proof fn lemma_table_complete(s: Scheme)
    ensures
        pin_rows().len() == 28,
        forall|i: int, j: int|
            0 <= i < 28 && 0 <= j < 28 && i != j ==> scheme_key(#[trigger] pin_rows()[i], s)
                != scheme_key(#[trigger] pin_rows()[j], s),
        valid_values(s).finite(),
        valid_values(s).len() == 28,
        forall|v: u8| valid_values(s).contains(v) <==> is_mapped(s, v),
{
    broadcast use vstd::seq_lib::seq_to_set_is_finite;

    lemma_rows_distinct();
    let keys = scheme_keys(s);
    assert forall|i: int, j: int|
        0 <= i < keys.len() && 0 <= j < keys.len() && i != j implies keys[i] != keys[j] by {
        assert(keys[i] == scheme_key(pin_rows()[i], s));
        assert(keys[j] == scheme_key(pin_rows()[j], s));
    }
    assert(keys.no_duplicates());
    keys.unique_seq_to_set();
    assert forall|v: u8| valid_values(s).contains(v) <==> is_mapped(s, v) by {
        if keys.contains(v) {
            let i: int = choose|i: int| 0 <= i < keys.len() && keys[i] == v;
            assert(scheme_key(pin_rows()[i], s) == v);
        }
        if is_mapped(s, v) {
            let i: int = choose|i: int|
                0 <= i < 28 && scheme_key(#[trigger] pin_rows()[i], s) == v;
            assert(keys[i] == v);
        }
    }
}

/// Bijection round trip: converting a valid identifier from scheme `from`
/// to scheme `to` succeeds, and converting the result back returns the
/// original identifier.
pub proof fn lemma_round_trip(from: Scheme, to: Scheme, v: u8)
    requires
        is_mapped(from, v),
    ensures
        convert_spec(v, from, to) is Ok,
        convert_spec(convert_spec(v, from, to)->Ok_0, to, from) == Ok::<u8, UnmappedPin>(v),
{
    if find_row(from, v) is None {
        lemma_find_from_none(from, v, 0);
        assert(false);
    }
    let r = find_row(from, v)->Some_0;
    lemma_find_from_some(from, v, 0);
    let w = scheme_key(r, to);
    let i0: int = choose|i: int| 0 <= i < 28 && #[trigger] pin_rows()[i] == r;
    assert(scheme_key(pin_rows()[i0], to) == w);
    assert(is_mapped(to, w));
    if find_row(to, w) is None {
        lemma_find_from_none(to, w, 0);
        assert(false);
    }
    let r2 = find_row(to, w)->Some_0;
    lemma_find_from_some(to, w, 0);
    let i1: int = choose|i: int| 0 <= i < 28 && #[trigger] pin_rows()[i] == r2;
    lemma_rows_distinct();
    assert(i0 == i1);
    assert(r2 == r);
}

} // verus!
