//! Properties of the library that span several calls or hold of every
//! input, stated over the models its functions' contracts use.
use vstd::prelude::*;

use crate::collections::{has_key, inserted, key_index, keys_unique, lemma_inserted_unique};
use crate::events::{
    has_name, inner_events, names_unique, slot, with_periodic_value, with_value, Event, PeriodicEvent,
};
use crate::controller::fits_kind;
use crate::firmware::first_of_its_name;
use crate::parameters::{kind_id, value_id, value_text, ParameterKind, ParameterValue};
use crate::parse::lemma_decimal_reads_back;
use crate::routing::{
    analysis, argument_ok, candidate, first_candidate, readable, reads_as, route_outcome,
    strip_trailing_slash, Method, PathValue, RouteArguments, RouteConfig, RouteError, RouteTarget,
};
use crate::sensors::{clamp_mtreg, crc8_of, crc_bits, crc_step, lsb_value, msb_value, MTREG_HIGH, MTREG_LOW};
use crate::text::{split_all, SLASH};

verus! {

/// Reading a name right after writing it gives back the value written:
/// after inserting `value` under `key` into entries with unique keys, the
/// entry found under `key` holds `value`.
pub proof fn lemma_read_after_write<V>(entries: Seq<(Seq<char>, V)>, key: Seq<char>, value: V)
    requires
        keys_unique(entries),
    ensures
        has_key(inserted(entries, key, value), key),
        inserted(entries, key, value)[key_index(inserted(entries, key, value), key)].1 == value,
{
    let after = inserted(entries, key, value);
    lemma_inserted_unique(entries, key, value);
    let k = key_index(after, key);
    if has_key(entries, key) {
        let i = key_index(entries, key);
        assert(after[i].0 == key);
        if k != i {
            assert(after[k].0 != after[i].0);
        }
    } else {
        let i = entries.len() as int;
        assert(after[i].0 == key);
        if k != i {
            assert(after[k].0 != after[i].0);
        }
    }
}

/// Writing a name leaves every other name as it was: present with the same
/// value, or absent.
pub proof fn lemma_write_keeps_others<V>(
    entries: Seq<(Seq<char>, V)>,
    key: Seq<char>,
    value: V,
    other: Seq<char>,
)
    requires
        keys_unique(entries),
        other != key,
    ensures
        has_key(inserted(entries, key, value), other) == has_key(entries, other),
        has_key(entries, other) ==> inserted(entries, key, value)[key_index(
            inserted(entries, key, value),
            other,
        )].1 == entries[key_index(entries, other)].1,
{
    let after = inserted(entries, key, value);
    lemma_inserted_unique(entries, key, value);
    if has_key(entries, other) {
        let i = key_index(entries, other);
        assert(after[i] == entries[i]);
        let k = key_index(after, other);
        if k != i {
            assert(after[k].0 != after[i].0);
        }
    }
    if has_key(after, other) {
        let k = key_index(after, other);
        if has_key(entries, key) {
            assert(after[k] == entries[k]);
        } else {
            if k < entries.len() {
                assert(after[k] == entries[k]);
            }
        }
    }
}

/// Writing a name that is already there keeps its place and the number of
/// entries: a repeated parameter replaces the earlier one where it stood.
pub proof fn lemma_rewrite_keeps_place<V>(entries: Seq<(Seq<char>, V)>, key: Seq<char>, value: V)
    requires
        keys_unique(entries),
        has_key(entries, key),
    ensures
        inserted(entries, key, value).len() == entries.len(),
        key_index(inserted(entries, key, value), key) == key_index(entries, key),
        forall|i: int|
            0 <= i < entries.len() ==> (#[trigger] inserted(entries, key, value)[i]).0
                == entries[i].0,
{
    let after = inserted(entries, key, value);
    lemma_inserted_unique(entries, key, value);
    let i = key_index(entries, key);
    let k = key_index(after, key);
    assert(after[i].0 == key);
    if k != i {
        assert(after[k].0 != after[i].0);
    }
}

/// An event added at the position its name was given keeps event names
/// unique, and a second event of that name is then discarded.
pub proof fn lemma_registration_keeps_names_unique<T: Clone + Copy>(
    events: Seq<Event<T>>,
    event: Event<T>,
)
    requires
        names_unique(events),
        slot(events, event.name@) is Some,
    ensures
        names_unique(events.push(event)),
        slot(events.push(event), event.name@) is None,
{
    let after = events.push(event);
    assert(after[events.len() as int] == event);
    assert(has_name(after, event.name@));
    assert forall|i: int, j: int|
        0 <= i < after.len() && 0 <= j < after.len() && i != j implies (#[trigger] after[i]).name@
        != (#[trigger] after[j]).name@ by {
        if i < events.len() && j < events.len() {
            assert(after[i] == events[i]);
            assert(after[j] == events[j]);
        } else if i < events.len() {
            assert(after[i] == events[i]);
            assert(!has_name(events, event.name@));
        } else {
            assert(after[j] == events[j]);
            assert(!has_name(events, event.name@));
        }
    }
}

/// A trailing `/` does not change how a request is routed.
pub proof fn lemma_trailing_slash_ignored(
    main_route: Seq<char>,
    routes: Seq<RouteConfig>,
    method: Method,
    path: Seq<char>,
    result: Result<RouteTarget, RouteError>,
)
    requires
        path.len() == 0 || path.last() != SLASH,
    ensures
        analysis(main_route, routes, method, path.push(SLASH), result) == analysis(
            main_route,
            routes,
            method,
            path,
            result,
        ),
{
    assert(path.push(SLASH).drop_last() == path);
    assert(strip_trailing_slash(path.push(SLASH)) == path);
    assert(strip_trailing_slash(path) == path);
}

/// The segments put back together with the separator between them.
pub open spec fn join(segments: Seq<Seq<char>>, sep: char) -> Seq<char>
    decreases segments.len(),
{
    if segments.len() == 0 {
        Seq::empty()
    } else if segments.len() == 1 {
        segments[0]
    } else {
        join(segments.drop_last(), sep) + seq![sep] + segments.last()
    }
}

proof fn lemma_split_all_nonempty(s: Seq<char>, sep: char)
    ensures
        split_all(s, sep).len() >= 1,
    decreases s.len(),
{
    if s.len() > 0 {
        lemma_split_all_nonempty(s.drop_last(), sep);
    }
}

/// Splitting a text on a separator and joining the segments with it gives
/// the text back.
pub proof fn lemma_split_then_join(s: Seq<char>, sep: char)
    ensures
        join(split_all(s, sep), sep) == s,
    decreases s.len(),
{
    if s.len() == 0 {
        assert(split_all(s, sep) == seq![Seq::<char>::empty()]);
        assert(s =~= Seq::<char>::empty());
    } else {
        let pre = s.drop_last();
        let parts = split_all(pre, sep);
        lemma_split_then_join(pre, sep);
        lemma_split_all_nonempty(pre, sep);
        if s.last() == sep {
            let all = parts.push(Seq::<char>::empty());
            assert(all.drop_last() == parts);
            assert(join(all, sep) == join(parts, sep) + seq![sep] + Seq::<char>::empty());
            assert(join(all, sep) =~= s);
        } else {
            let n = parts.len();
            let all = parts.update(n - 1, parts.last().push(s.last()));
            if n == 1 {
                assert(join(all, sep) == all[0]);
                assert(join(parts, sep) == parts[0]);
                assert(all[0] =~= s);
            } else {
                assert(all.drop_last() =~= parts.drop_last());
                assert(join(all, sep) == join(parts.drop_last(), sep) + seq![sep] + parts.last().push(
                    s.last(),
                ));
                assert(join(parts, sep) == join(parts.drop_last(), sep) + seq![sep] + parts.last());
                assert(join(all, sep) =~= join(parts, sep).push(s.last()));
                assert(s =~= pre.push(s.last()));
            }
        }
    }
}

/// No segment of a split text holds the separator.
pub proof fn lemma_segments_lack_separator(s: Seq<char>, sep: char)
    ensures
        forall|i: int, j: int|
            0 <= i < split_all(s, sep).len() && 0 <= j < split_all(s, sep)[i].len() ==> #[trigger] split_all(
                s,
                sep,
            )[i][j] != sep,
    decreases s.len(),
{
    if s.len() > 0 {
        let pre = s.drop_last();
        lemma_segments_lack_separator(pre, sep);
        lemma_split_all_nonempty(pre, sep);
        let parts = split_all(pre, sep);
        let all = split_all(s, sep);
        if s.last() == sep {
            assert forall|i: int, j: int| 0 <= i < all.len() && 0 <= j < all[i].len() implies #[trigger] all[i][j] != sep by {
                if i < parts.len() {
                    assert(all[i] == parts[i]);
                    assert(parts[i][j] != sep);
                }
            }
        } else {
            let n = parts.len();
            assert forall|i: int, j: int| 0 <= i < all.len() && 0 <= j < all[i].len() implies #[trigger] all[i][j] != sep by {
                if i < n - 1 {
                    assert(all[i] == parts[i]);
                    assert(parts[i][j] != sep);
                } else {
                    assert(all[i] == parts[n - 1].push(s.last()));
                    if j < parts[n - 1].len() {
                        assert(parts[n - 1][j] != sep);
                    }
                }
            }
        }
    }
}

proof fn lemma_crc_bits_on_itself(x: u8, k: nat)
    requires
        k <= 8,
    ensures
        crc_bits(x >> (8 - k) as u8, x >> (8 - k) as u8, k) == 0,
    decreases k,
{
    if k == 0 {
        assert(x >> 8u8 == 0) by (bit_vector);
    } else {
        let s: u8 = (8 - k) as u8;
        let t: u8 = (s + 1) as u8;
        let y = x >> s;
        assert(crc_step(y, y) == y >> 1u8) by (bit_vector);
        assert(y >> 1u8 == x >> t) by (bit_vector)
            requires
                y == x >> s,
                t == s + 1,
                s < 8,
        ;
        assert(t == (8 - (k - 1)) as u8);
        lemma_crc_bits_on_itself(x, (k - 1) as nat);
    }
}

/// Appending the CRC-8 of a byte sequence to it gives a sequence whose
/// CRC-8 is zero: this is what a checked scratchpad ends with.
pub proof fn lemma_crc_of_checked_data_is_zero(data: Seq<u8>)
    ensures
        crc8_of(data.push(crc8_of(data))) == 0,
{
    let c = crc8_of(data);
    assert(data.push(c).drop_last() == data);
    assert(c >> 0u8 == c) by (bit_vector);
    lemma_crc_bits_on_itself(c, 8);
}

/// The eight bits of a byte, sent least significant first, assemble back
/// into the byte.
pub proof fn lemma_bits_assemble_back(byte: u8, bits: Seq<bool>)
    requires
        bits.len() == 8,
        forall|i: int| 0 <= i < 8 ==> bits[i] == ((byte >> i as u8) & 1 == 1),
    ensures
        lsb_value(bits) == byte,
{
    let r = bits.reverse();
    reveal_with_fuel(msb_value, 9);
    assert(r.drop_last().drop_last().drop_last().drop_last().drop_last().drop_last().drop_last().drop_last() =~= Seq::<bool>::empty());
    let b0 = bits[0];
    let b1 = bits[1];
    let b2 = bits[2];
    let b3 = bits[3];
    let b4 = bits[4];
    let b5 = bits[5];
    let b6 = bits[6];
    let b7 = bits[7];
    assert(r.last() == b0);
    assert(r.drop_last().last() == b1);
    assert(r.drop_last().drop_last().last() == b2);
    assert(r.drop_last().drop_last().drop_last().last() == b3);
    assert(r.drop_last().drop_last().drop_last().drop_last().last() == b4);
    assert(r.drop_last().drop_last().drop_last().drop_last().drop_last().last() == b5);
    assert(r.drop_last().drop_last().drop_last().drop_last().drop_last().drop_last().last() == b6);
    assert(r.drop_last().drop_last().drop_last().drop_last().drop_last().drop_last().drop_last().last() == b7);
    assert(b0 == ((byte >> 0u8) & 1 == 1));
    assert(b1 == ((byte >> 1u8) & 1 == 1));
    assert(b2 == ((byte >> 2u8) & 1 == 1));
    assert(b3 == ((byte >> 3u8) & 1 == 1));
    assert(b4 == ((byte >> 4u8) & 1 == 1));
    assert(b5 == ((byte >> 5u8) & 1 == 1));
    assert(b6 == ((byte >> 6u8) & 1 == 1));
    assert(b7 == ((byte >> 7u8) & 1 == 1));
    assert(byte == (if (byte >> 7u8) & 1 == 1 { 128u8 } else { 0u8 }) + (if (byte >> 6u8) & 1 == 1 { 64u8 } else { 0u8 })
        + (if (byte >> 5u8) & 1 == 1 { 32u8 } else { 0u8 }) + (if (byte >> 4u8) & 1 == 1 { 16u8 } else { 0u8 })
        + (if (byte >> 3u8) & 1 == 1 { 8u8 } else { 0u8 }) + (if (byte >> 2u8) & 1 == 1 { 4u8 } else { 0u8 })
        + (if (byte >> 1u8) & 1 == 1 { 2u8 } else { 0u8 }) + (if (byte >> 0u8) & 1 == 1 { 1u8 } else { 0u8 })) by (bit_vector);
}

/// The two instructions that set the measurement time register give back
/// the value stored, which always lies between its limits.
pub proof fn lemma_mtreg_instructions_encode(mtreg: u8, high: u8, low: u8)
    requires
        high == MTREG_HIGH + clamp_mtreg(mtreg) / 32,
        low == MTREG_LOW + clamp_mtreg(mtreg) % 32,
    ensures
        (high - MTREG_HIGH) * 32 + (low - MTREG_LOW) == clamp_mtreg(mtreg),
        31 <= clamp_mtreg(mtreg) <= 254,
        mtreg >= 31 && mtreg <= 254 ==> clamp_mtreg(mtreg) == mtreg,
{
}

/// No two published routes share a name.
pub proof fn lemma_published_names_unique(names: Seq<&str>, i: int, j: int)
    requires
        0 <= i < j < names.len(),
        first_of_its_name(names, j),
    ensures
        names[i]@ != names[j]@,
{
}

/// What a controller writes for a value into a request path, a device reads
/// back as the same value: for every kind that the value fits and every
/// value that is not a floating-point number, the value's text is readable
/// under the kind and reads as the value itself.
pub proof fn lemma_value_text_reads_back(value: ParameterValue, kind: ParameterKind)
    requires
        fits_kind(value, kind),
        value_text(value) is Some,
    ensures
        readable(kind, value_text(value)->0),
        reads_as(kind, value_text(value)->0, PathValue::Ready(value)),
{
    reveal_strlit("true");
    reveal_strlit("false");
    match value {
        ParameterValue::U8(v) => lemma_decimal_reads_back(v as nat, 0xff),
        ParameterValue::U16(v) => lemma_decimal_reads_back(v as nat, 0xffff),
        ParameterValue::U32(v) => lemma_decimal_reads_back(v as nat, 0xffff_ffff),
        ParameterValue::U64(v) => lemma_decimal_reads_back(v as nat, 0xffff_ffff_ffff_ffff),
        _ => {},
    }
}

/// A request path whose parameter segments are the texts of values, each
/// fitting its parameter's kind, is read back parameter by parameter: every
/// parameter has a readable segment, so [`crate::routing::parse_get_parameters`]
/// succeeds, and each segment reads as the value it was written from.
pub proof fn lemma_path_values_read_back(
    params: Seq<(Seq<char>, ParameterKind)>,
    values: Seq<ParameterValue>,
    segments: Seq<Seq<char>>,
)
    requires
        values.len() == params.len(),
        segments.len() >= params.len(),
        forall|i: int|
            0 <= i < params.len() ==> fits_kind(values[i], params[i].1) && #[trigger] value_text(
                values[i],
            ) == Some(segments[i]),
    ensures
        forall|i: int| 0 <= i < params.len() ==> #[trigger] argument_ok(params, segments, i),
        forall|i: int|
            0 <= i < params.len() ==> reads_as(
                params[i].1,
                segments[i],
                PathValue::Ready(#[trigger] values[i]),
            ),
{
    assert forall|i: int| 0 <= i < params.len() implies reads_as(
        params[i].1,
        segments[i],
        PathValue::Ready(#[trigger] values[i]),
    ) && argument_ok(params, segments, i) by {
        assert(value_text(values[i]) == Some(segments[i]));
        lemma_value_text_reads_back(values[i], params[i].1);
    }
    assert forall|i: int| 0 <= i < params.len() implies #[trigger] argument_ok(params, segments, i) by {
        assert(reads_as(params[i].1, segments[i], PathValue::Ready(values[i])));
    }
}

proof fn reveal_carrier_names()
    ensures
        "bool"@.len() == 4 && "u8"@.len() == 2 && "String"@.len() == 6,
        "u16"@.len() == 3 && "u16"@[0] == 'u' && "u16"@[1] == '1',
        "u32"@.len() == 3 && "u32"@[0] == 'u' && "u32"@[1] == '3',
        "u64"@.len() == 3 && "u64"@[0] == 'u' && "u64"@[1] == '6',
        "f32"@.len() == 3 && "f32"@[0] == 'f' && "f32"@[1] == '3',
        "f64"@.len() == 3 && "f64"@[0] == 'f' && "f64"@[1] == '6',
{
    reveal_strlit("bool");
    reveal_strlit("u8");
    reveal_strlit("u16");
    reveal_strlit("u32");
    reveal_strlit("u64");
    reveal_strlit("f32");
    reveal_strlit("f64");
    reveal_strlit("String");
}

/// A value can be sent for a declared parameter exactly when the Rust type
/// of the value is the one that carries the parameter's values: a `f64`
/// value fits a `f64` range, an `u64` value an `u64` range, and no value
/// fits a parameter of another type.
pub proof fn lemma_fits_kind_by_carrier(value: ParameterValue, kind: ParameterKind)
    ensures
        fits_kind(value, kind) <==> value_id(value).carrier_type() == kind_id(kind).carrier_type(),
{
    reveal_carrier_names();
}

/// What a path segment reads as has the type that carries the values of the
/// parameter's kind: a ready value of that very type, or the segment's
/// text handed on as a `f32` text exactly for `f32` parameters and as a
/// `f64` text exactly for `f64` parameters and ranges.
pub proof fn lemma_read_value_has_kind_carrier(kind: ParameterKind, text: Seq<char>, value: PathValue)
    requires
        reads_as(kind, text, value),
    ensures
        match value {
            PathValue::Ready(v) => value_id(v).carrier_type() == kind_id(kind).carrier_type(),
            PathValue::Float32Text(t) => kind_id(kind).carrier_type() == "f32"@ && t@ == text,
            PathValue::Float64Text(t) => kind_id(kind).carrier_type() == "f64"@ && t@ == text,
        },
{
    reveal_carrier_names();
}

proof fn lemma_first_candidate_exists(routes: Seq<RouteConfig>, method: Method, path: Seq<char>, j: int)
    requires
        0 <= j < routes.len(),
        candidate(routes[j], method, path),
    ensures
        exists|k: int| #[trigger] first_candidate(routes, method, path, k),
    decreases j,
{
    if forall|i: int| 0 <= i < j ==> !#[trigger] candidate(routes[i], method, path) {
        assert(first_candidate(routes, method, path, j));
    } else {
        let i = choose|i: int| 0 <= i < j && #[trigger] candidate(routes[i], method, path);
        lemma_first_candidate_exists(routes, method, path, i);
    }
}

/// A request that is routed goes to the first route that serves its method
/// and whose path it names, and that route's parameters decide where the
/// arguments come from: none for a route without parameters, the path for
/// a `GET` route with parameters, the body for any other route with
/// parameters.
pub proof fn lemma_routed_arguments_source(
    main_route: Seq<char>,
    routes: Seq<RouteConfig>,
    method: Method,
    path: Seq<char>,
    target: RouteTarget,
)
    requires
        analysis(main_route, routes, method, path, Ok::<RouteTarget, RouteError>(target)),
    ensures
        target.index < routes.len(),
        candidate(routes[target.index as int], method, strip_trailing_slash(path)),
        forall|j: int|
            0 <= j < target.index ==> !#[trigger] candidate(
                routes[j],
                method,
                strip_trailing_slash(path),
            ),
        target.arguments is NoParameters <==> routes[target.index as int].parameters.entries().len()
            == 0,
        target.arguments is FromPath <==> (routes[target.index as int].parameters.entries().len() > 0
            && method == Method::Get),
        target.arguments is FromBody <==> (routes[target.index as int].parameters.entries().len() > 0
            && method != Method::Get),
{
    let stripped = strip_trailing_slash(path);
    let j = choose|j: int| 0 <= j < routes.len() && #[trigger] candidate(routes[j], method, stripped);
    lemma_first_candidate_exists(routes, method, stripped, j);
    let k = choose|k: int| #[trigger] first_candidate(routes, method, stripped, k);
    let segments = crate::text::split_terminator(stripped, SLASH);
    assert(route_outcome(routes[k], k, method, segments, Ok::<RouteTarget, RouteError>(target)));
    assert(target.index == k);
}

/// A name that no held event has always gets a slot, at the end of the
/// list; a name that some held event has gets none, so each name is
/// registered once and no other name is turned away.
pub proof fn lemma_slot_for_new_names<T: Clone + Copy>(events: Seq<Event<T>>, name: Seq<char>)
    requires
        events.len() <= usize::MAX,
    ensures
        slot(events, name) is None <==> exists|i: int|
            0 <= i < events.len() && (#[trigger] events[i]).name@ == name,
        slot(events, name) matches Some(position) ==> position == events.len(),
{
}

/// The same for periodic events, whose names are those of their events.
pub proof fn lemma_periodic_slot_for_new_names<T: Clone + Copy>(
    events: Seq<PeriodicEvent<T>>,
    name: Seq<char>,
)
    requires
        events.len() <= usize::MAX,
    ensures
        slot(inner_events(events), name) is None <==> exists|i: int|
            0 <= i < events.len() && (#[trigger] events[i]).event.name@ == name,
        slot(inner_events(events), name) matches Some(position) ==> position == events.len(),
{
    let inner = inner_events(events);
    if exists|i: int| 0 <= i < events.len() && (#[trigger] events[i]).event.name@ == name {
        let i = choose|i: int| 0 <= i < events.len() && (#[trigger] events[i]).event.name@ == name;
        assert(inner[i].name@ == name);
    }
    if has_name(inner, name) {
        let i = choose|i: int| 0 <= i < inner.len() && (#[trigger] inner[i]).name@ == name;
        assert(events[i].event.name@ == name);
    }
}

/// Updating the value of the event at a position changes that event's
/// value and nothing else: its name and description stay, and every other
/// event stays as it was.
pub proof fn lemma_value_update_is_local<T: Clone + Copy>(events: Seq<Event<T>>, index: int, value: T)
    requires
        0 <= index < events.len(),
    ensures
        with_value(events, index, value).len() == events.len(),
        with_value(events, index, value)[index].value == value,
        with_value(events, index, value)[index].name == events[index].name,
        with_value(events, index, value)[index].description == events[index].description,
        forall|j: int|
            0 <= j < events.len() && j != index ==> #[trigger] with_value(events, index, value)[j]
                == events[j],
{
}

/// The same for periodic events: the event at the position takes the value,
/// keeping its name, description and interval; every other periodic event
/// stays as it was.
pub proof fn lemma_periodic_value_update_is_local<T: Clone + Copy>(
    events: Seq<PeriodicEvent<T>>,
    index: int,
    value: T,
)
    requires
        0 <= index < events.len(),
    ensures
        with_periodic_value(events, index, value).len() == events.len(),
        with_periodic_value(events, index, value)[index].event.value == value,
        with_periodic_value(events, index, value)[index].event.name == events[index].event.name,
        with_periodic_value(events, index, value)[index].event.description
            == events[index].event.description,
        with_periodic_value(events, index, value)[index].interval == events[index].interval,
        forall|j: int|
            0 <= j < events.len() && j != index ==> #[trigger] with_periodic_value(
                events,
                index,
                value,
            )[j] == events[j],
{
}

} // verus!
