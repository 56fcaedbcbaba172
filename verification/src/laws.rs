//! Properties that hold across the library's operations.
use vstd::prelude::*;

use crate::json::{member, Json};
use crate::plugin::action::action_event_of;
use crate::plugin::dispatch::{lifecycle_event_of, route_of, RouteView};
use crate::plugin::logging::{kept, lines_from, log_lines_of};
use crate::plugin::manifest::absent_from;
use crate::plugin::registry::{registered_uuids, ActionRegistration};
use crate::protocol::commands::{command_json, optional_member, OutgoingCommandView};
use crate::protocol::encoding::{b64_digit, base64_of};
use crate::protocol::payload::{insert_sorted, sorted_resources, text_or_empty};
use crate::protocol::events::{
    controller_from_name, controller_name, device_type_from_number, device_type_number,
    target_from_number, target_number, Controller, DeviceType, EventNames, IncomingMessageView,
    Target,
};
use crate::protocol::registration::{empty_scan, scan_launch_arguments, LaunchScan};
use crate::sample::actions::inspector_delta_of;
use crate::sample::contracts::{inspector_command_of, CounterSettingsView};
use crate::text::{
    ascii_lowercase, begins_with, lemma_lex_asymmetric, lemma_lex_irreflexive, lemma_lex_total,
    lemma_lex_transitive, lex_lt, is_whitespace, trimmed, decimal_digits, decimal_text, digit_char,
    digits_value, all_digits, is_digit, u16_text,
};

verus! {

/// A device family's wire number reads back as that family.
pub proof fn device_type_round_trip(d: DeviceType)
    ensures
        device_type_from_number(device_type_number(d)) == Some(d),
{
}

/// A wire number that names a family is that family's number.
pub proof fn device_type_number_round_trip(n: u32)
    ensures
        device_type_from_number(n) matches Some(d) ==> device_type_number(d) == n,
{
}

/// A controller's wire name reads back as that controller.
pub proof fn controller_round_trip(c: Controller)
    ensures
        controller_from_name(controller_name(c)) == c,
{
    reveal_strlit("Keypad");
    reveal_strlit("Encoder");
    reveal_strlit("Neo");
    assert("Keypad"@.len() == 6 && "Encoder"@.len() == 7 && "Neo"@.len() == 3);
}

/// A target's wire number reads back as that target.
pub proof fn target_round_trip(t: Target)
    ensures
        target_from_number(target_number(t)) == t,
{
}

/// A character of the Base64 alphabet or its padding.
pub open spec fn is_base64_char(c: char) -> bool {
    ||| ('A' <= c && c <= 'Z')
    ||| ('a' <= c && c <= 'z')
    ||| ('0' <= c && c <= '9')
    ||| c == '+'
    ||| c == '/'
    ||| c == '='
}

proof fn lemma_b64_digit_in_alphabet(i: int)
    requires
        0 <= i < 64,
    ensures
        is_base64_char(b64_digit(i)),
{
}

/// Base64 text has four characters for each started group of three bytes, all
/// of them from the Base64 alphabet or `=`.
pub proof fn base64_shape(b: Seq<u8>)
    ensures
        base64_of(b).len() == 4 * ((b.len() + 2) / 3),
        forall|i: int| 0 <= i < base64_of(b).len() ==> is_base64_char(#[trigger] base64_of(b)[i]),
    decreases b.len(),
{
    if b.len() == 0 {
    } else if b.len() == 1 {
        lemma_b64_digit_in_alphabet(b[0] as int / 4);
        lemma_b64_digit_in_alphabet((b[0] as int % 4) * 16);
    } else if b.len() == 2 {
        lemma_b64_digit_in_alphabet(b[0] as int / 4);
        lemma_b64_digit_in_alphabet((b[0] as int % 4) * 16 + b[1] as int / 16);
        lemma_b64_digit_in_alphabet((b[1] as int % 16) * 4);
    } else {
        base64_shape(b.skip(3));
        lemma_b64_digit_in_alphabet(b[0] as int / 4);
        lemma_b64_digit_in_alphabet((b[0] as int % 4) * 16 + b[1] as int / 16);
        lemma_b64_digit_in_alphabet((b[1] as int % 16) * 4 + b[2] as int / 64);
        lemma_b64_digit_in_alphabet(b[2] as int % 64);
        let head = seq![
            b64_digit(b[0] as int / 4),
            b64_digit((b[0] as int % 4) * 16 + b[1] as int / 16),
            b64_digit((b[1] as int % 16) * 4 + b[2] as int / 64),
            b64_digit(b[2] as int % 64),
        ];
        let tail = base64_of(b.skip(3));
        assert(base64_of(b) == head + tail);
        assert forall|i: int| 0 <= i < base64_of(b).len() implies is_base64_char(
            #[trigger] base64_of(b)[i],
        ) by {
            if i < 4 {
                assert(base64_of(b)[i] == head[i]);
            } else {
                assert(base64_of(b)[i] == tail[i - 4]);
            }
        }
    }
}

/// Base64 of a byte string that is whole groups of three, followed by more
/// bytes, is the Base64 of each part, one after the other.
pub proof fn base64_concatenates(a: Seq<u8>, b: Seq<u8>)
    requires
        a.len() % 3 == 0,
    ensures
        base64_of(a + b) == base64_of(a) + base64_of(b),
    decreases a.len(),
{
    if a.len() == 0 {
        assert(a + b =~= b);
        assert(base64_of(a) =~= Seq::<char>::empty());
        assert(Seq::<char>::empty() + base64_of(b) =~= base64_of(b));
    } else {
        let ab = a + b;
        assert(ab[0] == a[0] && ab[1] == a[1] && ab[2] == a[2]);
        assert(ab.skip(3) =~= a.skip(3) + b);
        base64_concatenates(a.skip(3), b);
        let head = seq![
            b64_digit(a[0] as int / 4),
            b64_digit((a[0] as int % 4) * 16 + a[1] as int / 16),
            b64_digit((a[1] as int % 16) * 4 + a[2] as int / 64),
            b64_digit(a[2] as int % 64),
        ];
        assert(base64_of(ab) == head + base64_of(ab.skip(3)));
        assert(base64_of(a) == head + base64_of(a.skip(3)));
        assert(head + (base64_of(a.skip(3)) + base64_of(b)) =~= (head + base64_of(a.skip(3))) + base64_of(b));
    }
}

/// The six-bit value of a Base64 digit.
pub open spec fn b64_value(c: char) -> int {
    if 'A' <= c && c <= 'Z' {
        c as int - 65
    } else if 'a' <= c && c <= 'z' {
        c as int - 97 + 26
    } else if '0' <= c && c <= '9' {
        c as int - 48 + 52
    } else if c == '+' {
        62
    } else {
        63
    }
}

/// Standard Base64 decoding: each group of four characters gives three bytes,
/// or fewer where the group ends in `=` padding.
pub open spec fn base64_decoded(t: Seq<char>) -> Seq<u8>
    decreases t.len(),
{
    if t.len() < 4 {
        Seq::empty()
    } else {
        let v0 = b64_value(t[0]);
        let v1 = b64_value(t[1]);
        let v2 = b64_value(t[2]);
        let v3 = b64_value(t[3]);
        let x = (v0 * 4 + v1 / 16) as u8;
        let y = ((v1 % 16) * 16 + v2 / 4) as u8;
        let z = ((v2 % 4) * 64 + v3) as u8;
        if t[2] == '=' {
            seq![x] + base64_decoded(t.skip(4))
        } else if t[3] == '=' {
            seq![x, y] + base64_decoded(t.skip(4))
        } else {
            seq![x, y, z] + base64_decoded(t.skip(4))
        }
    }
}

proof fn lemma_b64_value(i: int)
    requires
        0 <= i < 64,
    ensures
        b64_value(b64_digit(i)) == i,
        b64_digit(i) != '=',
{
}

proof fn lemma_group_arith(x: int, y: int, z: int)
    requires
        0 <= x < 256,
        0 <= y < 256,
        0 <= z < 256,
    ensures
        (x / 4) * 4 + ((x % 4) * 16 + y / 16) / 16 == x,
        (((x % 4) * 16 + y / 16) % 16) * 16 + ((y % 16) * 4 + z / 64) / 4 == y,
        (((y % 16) * 4 + z / 64) % 4) * 64 + z % 64 == z,
        0 <= x / 4 < 64,
        0 <= (x % 4) * 16 + y / 16 < 64,
        0 <= (y % 16) * 4 + z / 64 < 64,
        0 <= z % 64 < 64,
{
    assert((x / 4) * 4 + ((x % 4) * 16 + y / 16) / 16 == x) by (nonlinear_arith)
        requires 0 <= x < 256, 0 <= y < 256;
    assert((((x % 4) * 16 + y / 16) % 16) * 16 + ((y % 16) * 4 + z / 64) / 4 == y) by (nonlinear_arith)
        requires 0 <= x < 256, 0 <= y < 256, 0 <= z < 256;
    assert((((y % 16) * 4 + z / 64) % 4) * 64 + z % 64 == z) by (nonlinear_arith)
        requires 0 <= y < 256, 0 <= z < 256;
    assert(0 <= (x % 4) * 16 + y / 16 < 64) by (nonlinear_arith)
        requires 0 <= x < 256, 0 <= y < 256;
    assert(0 <= (y % 16) * 4 + z / 64 < 64) by (nonlinear_arith)
        requires 0 <= y < 256, 0 <= z < 256;
}

/// Decoding the Base64 text of any bytes gives those bytes back.
pub proof fn base64_decodes_back(b: Seq<u8>)
    ensures
        base64_decoded(base64_of(b)) == b,
    decreases b.len(),
{
    let t = base64_of(b);
    if b.len() == 0 {
        assert(base64_decoded(t) =~= b);
    } else if b.len() == 1 {
        lemma_group_arith(b[0] as int, 0, 0);
        lemma_b64_value(b[0] as int / 4);
        lemma_b64_value((b[0] as int % 4) * 16);
        assert(t.skip(4) =~= Seq::<char>::empty());
        assert(base64_decoded(t.skip(4)) =~= Seq::<u8>::empty());
        assert(base64_decoded(t) =~= b);
    } else if b.len() == 2 {
        lemma_group_arith(b[0] as int, b[1] as int, 0);
        lemma_b64_value(b[0] as int / 4);
        lemma_b64_value((b[0] as int % 4) * 16 + b[1] as int / 16);
        lemma_b64_value((b[1] as int % 16) * 4);
        assert(t.skip(4) =~= Seq::<char>::empty());
        assert(base64_decoded(t.skip(4)) =~= Seq::<u8>::empty());
        assert(base64_decoded(t) =~= b);
    } else {
        let x = b[0] as int;
        let y = b[1] as int;
        let z = b[2] as int;
        lemma_group_arith(x, y, z);
        lemma_b64_value(x / 4);
        lemma_b64_value((x % 4) * 16 + y / 16);
        lemma_b64_value((y % 16) * 4 + z / 64);
        lemma_b64_value(z % 64);
        base64_decodes_back(b.skip(3));
        let head = seq![
            b64_digit(x / 4),
            b64_digit((x % 4) * 16 + y / 16),
            b64_digit((y % 16) * 4 + z / 64),
            b64_digit(z % 64),
        ];
        assert(t == head + base64_of(b.skip(3)));
        assert(t.skip(4) =~= base64_of(b.skip(3)));
        assert(t[0] == head[0] && t[1] == head[1] && t[2] == head[2] && t[3] == head[3]);
        assert(base64_decoded(t) == seq![b[0], b[1], b[2]] + b.skip(3));
        assert(seq![b[0], b[1], b[2]] + b.skip(3) =~= b);
    }
}

proof fn lemma_decimal_digits(m: nat)
    ensures
        decimal_digits(m).len() > 0,
        all_digits(decimal_digits(m)),
        digits_value(decimal_digits(m)) == m,
    decreases m,
{
    if m < 10 {
        let s = decimal_digits(m);
        assert(s.drop_last() =~= Seq::<char>::empty());
        assert(digits_value(Seq::<char>::empty()) == 0);
        assert(digit_char(m as int) as int == 48 + m);
        assert(s.last() == digit_char(m as int));
    } else {
        lemma_decimal_digits(m / 10);
        let s = decimal_digits(m);
        let head = decimal_digits(m / 10);
        let d = digit_char((m % 10) as int);
        assert(s == head + seq![d]);
        assert(s.drop_last() =~= head);
        assert(d as int == 48 + m % 10);
        assert(s.last() == d);
        assert(m == (m / 10) * 10 + m % 10) by (nonlinear_arith);
        assert(digits_value(s) == digits_value(head) * 10 + (d as int - '0' as int));
        assert forall|i: int| 0 <= i < s.len() implies is_digit(#[trigger] s[i]) by {
            if i < head.len() {
                assert(s[i] == head[i]);
            }
        }
    }
}

/// A port written in decimal reads back as the same port: the port in the
/// socket address is the one the launch arguments gave.
pub proof fn decimal_port_round_trip(port: u16)
    ensures
        u16_text(decimal_text(port as int)) == Some(port),
{
    lemma_decimal_digits(port as nat);
    let s = decimal_digits(port as nat);
    assert(is_digit(s[0]));
    assert(!begins_with(s, '+'));
}

proof fn lemma_scan_shift(x: Seq<char>, args: Seq<Seq<char>>, i: int, acc: LaunchScan)
    requires
        0 <= i,
    ensures
        scan_launch_arguments(seq![x] + args, i + 1, acc) == scan_launch_arguments(args, i, acc),
    decreases args.len() - i,
{
    let xs = seq![x] + args;
    if i < args.len() {
        assert(xs[i + 1] == args[i]);
        if i + 1 < args.len() {
            assert(xs[i + 2] == args[i + 1]);
        }
        if !begins_with(args[i], '-') {
            lemma_scan_shift(x, args, i + 1, acc);
        } else if i + 1 < args.len() {
            let key = args[i];
            let value = args[i + 1];
            if key == "-port"@ {
                match u16_text(value) {
                    Some(p) => lemma_scan_shift(x, args, i + 2, LaunchScan { port: p, ..acc }),
                    None => {},
                }
            } else if key == "-pluginUUID"@ {
                lemma_scan_shift(x, args, i + 2, LaunchScan { plugin_uuid: value, ..acc });
            } else if key == "-registerEvent"@ {
                lemma_scan_shift(x, args, i + 2, LaunchScan { register_event: value, ..acc });
            } else if key == "-info"@ {
                lemma_scan_shift(x, args, i + 2, LaunchScan { info_json: value, ..acc });
            } else {
                lemma_scan_shift(x, args, i + 2, acc);
            }
        }
    }
}

/// A leading argument that is not a key (such as the program's path) changes
/// nothing that the launch arguments give.
pub proof fn launch_arguments_skip_program_name(program: Seq<char>, args: Seq<Seq<char>>)
    requires
        !begins_with(program, '-'),
    ensures
        scan_launch_arguments(seq![program] + args, 0, empty_scan()) == scan_launch_arguments(
            args,
            0,
            empty_scan(),
        ),
{
    let xs = seq![program] + args;
    assert(xs[0] == program);
    lemma_scan_shift(program, args, 0, empty_scan());
}

/// Lower-casing twice is lower-casing once: a UUID's registry key is its own key.
pub proof fn lowercase_idempotent(s: Seq<char>)
    ensures
        ascii_lowercase(ascii_lowercase(s)) == ascii_lowercase(s),
{
    assert(ascii_lowercase(ascii_lowercase(s)) =~= ascii_lowercase(s));
}

/// After a registration is added, any UUID that differs from its UUID only in
/// ASCII letter case finds it.
pub proof fn registry_lookup_ignores_case<F>(
    registrations: Map<Seq<char>, ActionRegistration<F>>,
    registration: ActionRegistration<F>,
    uuid: Seq<char>,
)
    requires
        ascii_lowercase(uuid) == ascii_lowercase(registration.uuid@),
    ensures
        registrations.insert(ascii_lowercase(registration.uuid@), registration).contains_key(
            ascii_lowercase(uuid),
        ),
        registrations.insert(ascii_lowercase(registration.uuid@), registration)[ascii_lowercase(uuid)]
            == registration,
{
}

/// The registrations after `adds` were passed to `Registry::add`, in order, on
/// a new registry: each one under its lower-cased UUID, a later one replacing an
/// earlier one with the same key.
pub open spec fn registrations_after<F>(adds: Seq<ActionRegistration<F>>) -> Map<Seq<char>, ActionRegistration<F>>
    decreases adds.len(),
{
    if adds.len() == 0 {
        Map::empty()
    } else {
        registrations_after(adds.drop_last()).insert(ascii_lowercase(adds.last().uuid@), adds.last())
    }
}

/// No registration after the `k`-th of `adds` has the same lower-cased UUID.
pub open spec fn last_with_key<F>(adds: Seq<ActionRegistration<F>>, k: int) -> bool {
    forall|j: int| k < j < adds.len() ==> ascii_lowercase(#[trigger] adds[j].uuid@) != ascii_lowercase(adds[k].uuid@)
}

/// Registry lookup after a sequence of adds: a UUID finds a registration exactly
/// when one of the added UUIDs equals it ignoring ASCII case, and then it finds
/// the last one added with that key.
pub proof fn registry_lookup_after_adds<F>(adds: Seq<ActionRegistration<F>>, uuid: Seq<char>)
    ensures
        registrations_after(adds).contains_key(ascii_lowercase(uuid)) <==> exists|k: int|
            0 <= k < adds.len() && ascii_lowercase(#[trigger] adds[k].uuid@) == ascii_lowercase(uuid),
        forall|k: int|
            0 <= k < adds.len() && ascii_lowercase(#[trigger] adds[k].uuid@) == ascii_lowercase(uuid)
                && last_with_key(adds, k) ==> registrations_after(adds)[ascii_lowercase(uuid)] == adds[k],
    decreases adds.len(),
{
    if adds.len() > 0 {
        let rest = adds.drop_last();
        let n = adds.len() - 1;
        registry_lookup_after_adds(rest, uuid);
        let key = ascii_lowercase(uuid);
        if registrations_after(adds).contains_key(key) && ascii_lowercase(adds[n].uuid@) != key {
            let k = choose|k: int| 0 <= k < rest.len() && ascii_lowercase(#[trigger] rest[k].uuid@) == key;
            assert(adds[k] == rest[k]);
        }
        if exists|k: int| 0 <= k < adds.len() && ascii_lowercase(#[trigger] adds[k].uuid@) == key {
            let k = choose|k: int| 0 <= k < adds.len() && ascii_lowercase(#[trigger] adds[k].uuid@) == key;
            if k < n {
                assert(rest[k] == adds[k]);
            }
        }
        assert forall|k: int|
            0 <= k < adds.len() && ascii_lowercase(#[trigger] adds[k].uuid@) == key && last_with_key(adds, k)
                implies registrations_after(adds)[key] == adds[k] by {
            if k < n {
                assert(ascii_lowercase(adds[n].uuid@) != ascii_lowercase(adds[k].uuid@));
                assert(rest[k] == adds[k]);
                assert forall|j: int| k < j < rest.len() implies ascii_lowercase(#[trigger] rest[j].uuid@)
                    != ascii_lowercase(rest[k].uuid@) by {
                    assert(rest[j] == adds[j]);
                }
            }
        }
    }
}

/// What the registry lists after a sequence of adds: the UUID of the last
/// registration added under each lower-cased key, one per key, so no two listed
/// UUIDs are equal ignoring ASCII case and there are as many as distinct keys.
pub proof fn registered_uuids_after_adds<F>(adds: Seq<ActionRegistration<F>>)
    ensures
        registered_uuids(registrations_after(adds)) == Set::new(
            |u: Seq<char>| exists|k: int| 0 <= k < adds.len() && #[trigger] adds[k].uuid@ == u && last_with_key(adds, k),
        ),
        registrations_after(adds).dom() == Set::new(
            |key: Seq<char>| exists|k: int| 0 <= k < adds.len() && ascii_lowercase(#[trigger] adds[k].uuid@) == key,
        ),
        forall|u: Seq<char>, v: Seq<char>|
            #![trigger registered_uuids(registrations_after(adds)).contains(u), registered_uuids(registrations_after(adds)).contains(v)]
            registered_uuids(registrations_after(adds)).contains(u) && registered_uuids(registrations_after(adds)).contains(v)
                && ascii_lowercase(u) == ascii_lowercase(v) ==> u == v,
{
    let m = registrations_after(adds);
    lemma_keys_are_lowered(adds);
    assert forall|key: Seq<char>| m.dom().contains(key) <==> exists|k: int|
        0 <= k < adds.len() && ascii_lowercase(#[trigger] adds[k].uuid@) == key by {
        lemma_lookup_by_key(adds, key);
    }
    assert(m.dom() =~= Set::new(
        |key: Seq<char>| exists|k: int| 0 <= k < adds.len() && ascii_lowercase(#[trigger] adds[k].uuid@) == key,
    ));
    let target = Set::new(
        |u: Seq<char>| exists|k: int| 0 <= k < adds.len() && #[trigger] adds[k].uuid@ == u && last_with_key(adds, k),
    );
    assert forall|u: Seq<char>| registered_uuids(m).contains(u) <==> target.contains(u) by {
        if registered_uuids(m).contains(u) {
            let key = choose|key: Seq<char>| m.contains_key(key) && #[trigger] m[key].uuid@ == u;
            lemma_lookup_by_key(adds, key);
            let k = lemma_last_index(adds, key);
            assert(adds[k].uuid@ == u);
        }
        if target.contains(u) {
            let k = choose|k: int| 0 <= k < adds.len() && #[trigger] adds[k].uuid@ == u && last_with_key(adds, k);
            let key = ascii_lowercase(u);
            registry_lookup_after_adds(adds, u);
            assert(m.contains_key(key) && m[key].uuid@ == u);
        }
    }
    assert(registered_uuids(m) =~= target);
    assert forall|u: Seq<char>, v: Seq<char>|
        registered_uuids(m).contains(u) && registered_uuids(m).contains(v) && ascii_lowercase(u)
            == ascii_lowercase(v) implies u == v by {
        let ku = choose|key: Seq<char>| m.contains_key(key) && #[trigger] m[key].uuid@ == u;
        let kv = choose|key: Seq<char>| m.contains_key(key) && #[trigger] m[key].uuid@ == v;
    }
}

/// Each registration stands under its own lower-cased UUID.
proof fn lemma_keys_are_lowered<F>(adds: Seq<ActionRegistration<F>>)
    ensures
        forall|key: Seq<char>| #[trigger] registrations_after(adds).contains_key(key)
            ==> ascii_lowercase(registrations_after(adds)[key].uuid@) == key,
    decreases adds.len(),
{
    if adds.len() > 0 {
        lemma_keys_are_lowered(adds.drop_last());
    }
}

/// Lookup by a key: present exactly when an add had that key.
proof fn lemma_lookup_by_key<F>(adds: Seq<ActionRegistration<F>>, key: Seq<char>)
    ensures
        registrations_after(adds).contains_key(key) <==> exists|k: int|
            0 <= k < adds.len() && ascii_lowercase(#[trigger] adds[k].uuid@) == key,
    decreases adds.len(),
{
    if adds.len() > 0 {
        let rest = adds.drop_last();
        lemma_lookup_by_key(rest, key);
        if exists|k: int| 0 <= k < adds.len() && ascii_lowercase(#[trigger] adds[k].uuid@) == key {
            let k = choose|k: int| 0 <= k < adds.len() && ascii_lowercase(#[trigger] adds[k].uuid@) == key;
            if k < adds.len() - 1 {
                assert(rest[k] == adds[k]);
            }
        }
        if registrations_after(adds).contains_key(key) && ascii_lowercase(adds.last().uuid@) != key {
            let k = choose|k: int| 0 <= k < rest.len() && ascii_lowercase(#[trigger] rest[k].uuid@) == key;
            assert(adds[k] == rest[k]);
        }
    }
}

/// The registration under a present key is the last one added with that key.
proof fn lemma_last_index<F>(adds: Seq<ActionRegistration<F>>, key: Seq<char>) -> (k: int)
    requires
        registrations_after(adds).contains_key(key),
    ensures
        0 <= k < adds.len(),
        ascii_lowercase(adds[k].uuid@) == key,
        last_with_key(adds, k),
        registrations_after(adds)[key] == adds[k],
    decreases adds.len(),
{
    let n = adds.len() - 1;
    let rest = adds.drop_last();
    if ascii_lowercase(adds[n].uuid@) == key {
        n
    } else {
        let k = lemma_last_index(rest, key);
        assert(adds[k] == rest[k]);
        assert forall|j: int| k < j < adds.len() implies ascii_lowercase(#[trigger] adds[j].uuid@)
            != ascii_lowercase(adds[k].uuid@) by {
            if j < n {
                assert(rest[j] == adds[j]);
            }
        }
        k
    }
}

proof fn lemma_lifecycle_names(m: IncomingMessageView)
    requires
        lifecycle_event_of(m) is Some,
    ensures
        m.event != EventNames::WILL_APPEAR@,
        m.event != EventNames::WILL_DISAPPEAR@,
{
    reveal_strlit("willAppear");
    reveal_strlit("willDisappear");
    reveal_strlit("applicationDidLaunch");
    reveal_strlit("applicationDidTerminate");
    reveal_strlit("deviceDidConnect");
    reveal_strlit("deviceDidDisconnect");
    reveal_strlit("deviceDidChange");
    reveal_strlit("systemDidWakeUp");
    reveal_strlit("didReceiveDeepLink");
    reveal_strlit("didReceiveGlobalSettings");
    reveal_strlit("didReceiveSecrets");
    assert(EventNames::WILL_APPEAR@.len() == 10);
    assert(EventNames::WILL_DISAPPEAR@.len() == 13);
    assert(EventNames::APPLICATION_DID_LAUNCH@.len() == 20);
    assert(EventNames::APPLICATION_DID_TERMINATE@.len() == 23);
    assert(EventNames::DEVICE_DID_CONNECT@.len() == 16);
    assert(EventNames::DEVICE_DID_DISCONNECT@.len() == 19);
    assert(EventNames::DEVICE_DID_CHANGE@.len() == 15);
    assert(EventNames::SYSTEM_DID_WAKE_UP@.len() == 15);
    assert(EventNames::DID_RECEIVE_DEEP_LINK@.len() == 18);
    assert(EventNames::DID_RECEIVE_GLOBAL_SETTINGS@.len() == 24);
    assert(EventNames::DID_RECEIVE_SECRETS@.len() == 17);
}

/// Instance events only reach live instances: a message is delivered to, or
/// takes out, only the live instance of its own context; and an instance is
/// built only for a `willAppear` of a registered UUID (in any letter case), with
/// that registration.
pub proof fn routes_reach_only_live_instances<F>(
    registrations: Map<Seq<char>, ActionRegistration<F>>,
    live: Set<Seq<char>>,
    m: IncomingMessageView,
)
    ensures
        route_of(registrations, live, m) matches RouteView::Deliver(c, _) ==> live.contains(c)
            && m.context == Some(c),
        route_of(registrations, live, m) matches RouteView::Disappear(c, _) ==> live.contains(c)
            && m.context == Some(c) && m.event == EventNames::WILL_DISAPPEAR@,
        route_of(registrations, live, m) matches RouteView::Appear(r, a) ==> m.event
            == EventNames::WILL_APPEAR@ && m.context == Some(a.context) && m.action == Some(
            a.action_uuid,
        ) && registrations.contains_key(ascii_lowercase(a.action_uuid)) && r
            == registrations[ascii_lowercase(a.action_uuid)],
{
}

/// Plugin-wide events go to the plugin-wide hooks whatever the registrations
/// and the live instances are.
pub proof fn lifecycle_routes_ignore_instances<F>(
    registrations: Map<Seq<char>, ActionRegistration<F>>,
    live: Set<Seq<char>>,
    m: IncomingMessageView,
)
    requires
        lifecycle_event_of(m) is Some,
    ensures
        route_of(registrations, live, m) == match lifecycle_event_of(m) {
            Some(Some(l)) => RouteView::<F>::Lifecycle(l),
            _ => RouteView::<F>::Ignore,
        },
{
    lemma_lifecycle_names(m);
}

/// Once an instance of a context is live, each instance event of that context
/// is delivered to it.
pub proof fn appeared_instance_receives_events<F>(
    registrations: Map<Seq<char>, ActionRegistration<F>>,
    live: Set<Seq<char>>,
    m: IncomingMessageView,
    context: Seq<char>,
)
    requires
        m.context == Some(context),
        m.event != EventNames::WILL_APPEAR@,
        m.event != EventNames::WILL_DISAPPEAR@,
        lifecycle_event_of(m) is None,
        action_event_of(m) is Some,
    ensures
        route_of(registrations, live.insert(context), m) == RouteView::<F>::Deliver(
            context,
            action_event_of(m)->0,
        ),
{
}

/// Once the instance of a context is taken out, no message reaches an instance
/// of that context.
pub proof fn disappeared_instance_receives_nothing<F>(
    registrations: Map<Seq<char>, ActionRegistration<F>>,
    live: Set<Seq<char>>,
    m: IncomingMessageView,
    context: Seq<char>,
)
    requires
        m.context == Some(context),
    ensures
        !(route_of(registrations, live.remove(context), m) is Deliver),
        !(route_of(registrations, live.remove(context), m) is Disappear),
{
    routes_reach_only_live_instances(registrations, live.remove(context), m);
}

/// A `willAppear` for a UUID that is not registered (in any letter case) builds nothing.
pub proof fn unregistered_appearance_ignored<F>(
    registrations: Map<Seq<char>, ActionRegistration<F>>,
    live: Set<Seq<char>>,
    m: IncomingMessageView,
)
    requires
        m.event == EventNames::WILL_APPEAR@,
        m.action matches Some(a) && !registrations.contains_key(ascii_lowercase(a)),
    ensures
        route_of(registrations, live, m) == RouteView::<F>::Ignore,
{
}

/// The manifest check reports nothing missing on one side exactly when every
/// UUID of that side stands on the other.
pub proof fn nothing_absent_iff_all_present(xs: Seq<Seq<char>>, ys: Seq<Seq<char>>)
    ensures
        absent_from(xs, ys).len() == 0 <==> forall|i: int| 0 <= i < xs.len() ==> ys.contains(#[trigger] xs[i]),
    decreases xs.len(),
{
    if xs.len() > 0 {
        nothing_absent_iff_all_present(xs.drop_last(), ys);
        let rest = xs.drop_last();
        if absent_from(xs, ys).len() == 0 {
            assert forall|i: int| 0 <= i < xs.len() implies ys.contains(#[trigger] xs[i]) by {
                if i < xs.len() - 1 {
                    assert(xs[i] == rest[i]);
                }
            }
        }
        if forall|i: int| 0 <= i < xs.len() ==> ys.contains(#[trigger] xs[i]) {
            assert forall|i: int| 0 <= i < rest.len() implies ys.contains(#[trigger] rest[i]) by {
                assert(rest[i] == xs[i]);
            }
            assert(ys.contains(xs[xs.len() - 1]));
        }
    }
}

/// The JSON value of an optional text.
pub open spec fn text_json(o: Option<Seq<char>>) -> Option<Json> {
    match o {
        Some(s) => Some(Json::Str(s)),
        None => None,
    }
}

pub proof fn lemma_member_skip(m: Seq<(Seq<char>, Json)>, key: Seq<char>, rest: Seq<(Seq<char>, Json)>)
    requires
        forall|i: int| 0 <= i < m.len() ==> #[trigger] m[i].0 != key,
    ensures
        member(m + rest, key) == member(rest, key),
    decreases m.len(),
{
    if m.len() > 0 {
        assert((m + rest).drop_first() =~= m.drop_first() + rest);
        assert((m + rest)[0] == m[0]);
        assert forall|i: int| 0 <= i < m.drop_first().len() implies #[trigger] m.drop_first()[i].0 != key by {
            assert(m.drop_first()[i] == m[i + 1]);
        }
        lemma_member_skip(m.drop_first(), key, rest);
    } else {
        assert(m + rest =~= rest);
    }
}

/// A command is sent with its event name, and with each of `context`,
/// `device`, `id` and `payload` exactly when the command sets it: absent fields
/// are left out.
pub proof fn command_json_fields(c: OutgoingCommandView)
    ensures
        command_json(c) matches Json::Object(m) && m.len() > 0 && m[0] == ("event"@, Json::Str(c.event)),
        command_json(c).field("context"@) == text_json(c.context),
        command_json(c).field("device"@) == text_json(c.device),
        command_json(c).field("id"@) == text_json(c.id),
        command_json(c).field("payload"@) == c.payload,
{
    reveal_strlit("event");
    reveal_strlit("context");
    reveal_strlit("device");
    reveal_strlit("id");
    reveal_strlit("payload");
    assert("event"@.len() == 5 && "context"@.len() == 7 && "device"@.len() == 6 && "id"@.len() == 2);
    assert("payload"@.len() == 7 && "context"@[0] == 'c' && "payload"@[0] == 'p');
    let e = seq![("event"@, Json::Str(c.event))];
    let cx = optional_member("context"@, c.context);
    let dv = optional_member("device"@, c.device);
    let id = optional_member("id"@, c.id);
    let p: Seq<(Seq<char>, Json)> = match c.payload {
        Some(v) => seq![("payload"@, v)],
        None => Seq::empty(),
    };
    let all = e + cx + dv + id + p;
    assert(command_json(c) == Json::Object(all));
    assert(all =~= e + (cx + (dv + (id + p))));
    // context
    lemma_member_skip(e, "context"@, cx + (dv + (id + p)));
    lemma_member_skip(dv + (id + p), "context"@, Seq::empty());
    assert(dv + (id + p) + Seq::<(Seq<char>, Json)>::empty() =~= dv + (id + p));
    assert(member(cx + (dv + (id + p)), "context"@) == text_json(c.context)) by {
        if c.context is None {
            assert(cx + (dv + (id + p)) =~= dv + (id + p));
        }
    }
    // device
    lemma_member_skip(e + cx, "device"@, dv + (id + p));
    assert(all =~= (e + cx) + (dv + (id + p)));
    lemma_member_skip(id + p, "device"@, Seq::empty());
    assert(id + p + Seq::<(Seq<char>, Json)>::empty() =~= id + p);
    assert(member(dv + (id + p), "device"@) == text_json(c.device)) by {
        if c.device is None {
            assert(dv + (id + p) =~= id + p);
        }
    }
    // id
    lemma_member_skip(e + cx + dv, "id"@, id + p);
    assert(all =~= (e + cx + dv) + (id + p));
    lemma_member_skip(p, "id"@, Seq::empty());
    assert(p + Seq::<(Seq<char>, Json)>::empty() =~= p);
    assert(member(id + p, "id"@) == text_json(c.id)) by {
        if c.id is None {
            assert(id + p =~= p);
        }
    }
    // payload
    lemma_member_skip(e + cx + dv + id, "payload"@, p);
    assert(all =~= (e + cx + dv + id) + p);
}

/// What `trimmed` leaves neither begins nor ends with whitespace.
proof fn lemma_trimmed_ends(s: Seq<char>)
    ensures
        trimmed(s).len() > 0 ==> !is_whitespace(trimmed(s)[0]) && !is_whitespace(trimmed(s).last()),
    decreases s.len(),
{
    if s.len() > 0 && is_whitespace(s[0]) {
        lemma_trimmed_ends(s.drop_first());
    } else if s.len() > 0 && is_whitespace(s.last()) {
        lemma_trimmed_ends(s.drop_last());
    }
}

/// A text with no whitespace at either end and at least one character.
pub open spec fn is_clean_line(l: Seq<char>) -> bool {
    l.len() > 0 && !is_whitespace(l[0]) && !is_whitespace(l.last())
}

proof fn lemma_lines_from_clean(s: Seq<char>, i: int, current: Seq<char>)
    ensures
        forall|k: int| 0 <= k < lines_from(s, i, current).len() ==> is_clean_line(
            #[trigger] lines_from(s, i, current)[k],
        ),
    decreases s.len() - i,
{
    lemma_trimmed_ends(current);
    if i < 0 || i >= s.len() {
        assert(lines_from(s, i, current) == kept(current));
        if trimmed(current).len() > 0 {
            assert(kept(current) =~= seq![trimmed(current)]);
        } else {
            assert(kept(current) =~= Seq::<Seq<char>>::empty());
        }
    } else if s[i] == '\n' {
        lemma_lines_from_clean(s, i + 1, Seq::empty());
        let head = kept(current);
        let tail = lines_from(s, i + 1, Seq::empty());
        assert(lines_from(s, i, current) == head + tail);
        if trimmed(current).len() > 0 {
            assert(head =~= seq![trimmed(current)]);
        } else {
            assert(head =~= Seq::<Seq<char>>::empty());
        }
        assert forall|k: int| 0 <= k < lines_from(s, i, current).len() implies is_clean_line(
            #[trigger] lines_from(s, i, current)[k],
        ) by {
            if k < head.len() {
                assert(lines_from(s, i, current)[k] == head[k]);
            } else {
                assert(lines_from(s, i, current)[k] == tail[k - head.len()]);
            }
        }
    } else {
        lemma_lines_from_clean(s, i + 1, current.push(s[i]));
        assert(lines_from(s, i, current) == lines_from(s, i + 1, current.push(s[i])));
    }
}

/// Every log message sent to Stream Deck is a non-empty line with no
/// whitespace at either end.
pub proof fn log_lines_are_clean(s: Seq<char>)
    ensures
        forall|k: int| 0 <= k < log_lines_of(s).len() ==> is_clean_line(#[trigger] log_lines_of(s)[k]),
{
    lemma_lines_from_clean(s, 0, Seq::empty());
}

/// The keys of `r` ascend strictly.
pub open spec fn keys_ascending(r: Seq<(Seq<char>, Seq<char>)>) -> bool {
    forall|i: int, j: int| 0 <= i < j < r.len() ==> lex_lt(r[i].0, r[j].0)
}

/// Whether some pair of `r` has key `k`.
pub open spec fn has_key_text(r: Seq<(Seq<char>, Seq<char>)>, k: Seq<char>) -> bool {
    exists|i: int| 0 <= i < r.len() && #[trigger] r[i].0 == k
}

proof fn lemma_member_push(entries: Seq<(Seq<char>, Json)>, e: (Seq<char>, Json), key: Seq<char>)
    ensures
        member(entries.push(e), key) == if member(entries, key) is Some {
            member(entries, key)
        } else if e.0 == key {
            Some(e.1)
        } else {
            None
        },
    decreases entries.len(),
{
    if entries.len() > 0 {
        assert(entries.push(e).drop_first() =~= entries.drop_first().push(e));
        assert(entries.push(e)[0] == entries[0]);
        lemma_member_push(entries.drop_first(), e, key);
    } else {
        assert(entries.push(e).drop_first() =~= Seq::<(Seq<char>, Json)>::empty());
        assert(member(Seq::<(Seq<char>, Json)>::empty(), key) is None);
        assert(entries.push(e)[0] == e);
    }
}

proof fn lemma_member_some_has(entries: Seq<(Seq<char>, Json)>, key: Seq<char>)
    ensures
        member(entries, key) is Some <==> exists|j: int| 0 <= j < entries.len() && #[trigger] entries[j].0 == key,
    decreases entries.len(),
{
    if entries.len() > 0 {
        let rest = entries.drop_first();
        lemma_member_some_has(rest, key);
        if exists|j: int| 0 <= j < rest.len() && #[trigger] rest[j].0 == key {
            let j = choose|j: int| 0 <= j < rest.len() && #[trigger] rest[j].0 == key;
            assert(entries[j + 1].0 == key);
        }
        if exists|j: int| 0 <= j < entries.len() && #[trigger] entries[j].0 == key {
            let j = choose|j: int| 0 <= j < entries.len() && #[trigger] entries[j].0 == key;
            if j > 0 {
                assert(rest[j - 1].0 == key);
            }
        }
    }
}

proof fn lemma_insert_sorted_props(acc: Seq<(Seq<char>, Seq<char>)>, k: Seq<char>, v: Seq<char>)
    requires
        keys_ascending(acc),
    ensures
        keys_ascending(insert_sorted(acc, k, v)),
        forall|q: Seq<char>| has_key_text(insert_sorted(acc, k, v), q) <==> (has_key_text(acc, q) || q == k),
        forall|i: int|
            0 <= i < insert_sorted(acc, k, v).len() ==> acc.contains(#[trigger] insert_sorted(acc, k, v)[i])
                || (insert_sorted(acc, k, v)[i] == (k, v) && !has_key_text(acc, k)),
    decreases acc.len(),
{
    let r = insert_sorted(acc, k, v);
    if acc.len() == 0 {
        assert(r =~= seq![(k, v)]);
        assert forall|q: Seq<char>| has_key_text(r, q) <==> (has_key_text(acc, q) || q == k) by {
            if q == k {
                assert(r[0].0 == q);
            }
        }
    } else if acc[0].0 == k {
        assert(has_key_text(acc, k));
        assert(r == acc);
        assert forall|i: int| 0 <= i < r.len() implies acc.contains(#[trigger] r[i]) by {
            assert(acc[i] == r[i]);
        }
    } else if lex_lt(k, acc[0].0) {
        assert(r =~= seq![(k, v)] + acc);
        assert(!has_key_text(acc, k)) by {
            if has_key_text(acc, k) {
                let j = choose|j: int| 0 <= j < acc.len() && #[trigger] acc[j].0 == k;
                if j > 0 {
                    assert(lex_lt(acc[0].0, acc[j].0));
                    lemma_lex_asymmetric(k, acc[0].0);
                }
            }
        }
        assert forall|i: int, j: int| 0 <= i < j < r.len() implies lex_lt(r[i].0, r[j].0) by {
            if i == 0 {
                if j > 1 {
                    assert(lex_lt(acc[0].0, acc[j - 1].0));
                    lemma_lex_transitive(k, acc[0].0, acc[j - 1].0);
                }
            } else {
                assert(r[i] == acc[i - 1] && r[j] == acc[j - 1]);
            }
        }
        assert forall|q: Seq<char>| has_key_text(r, q) <==> (has_key_text(acc, q) || q == k) by {
            if has_key_text(r, q) {
                let i = choose|i: int| 0 <= i < r.len() && #[trigger] r[i].0 == q;
                if i > 0 {
                    assert(acc[i - 1].0 == q);
                }
            }
            if has_key_text(acc, q) {
                let i = choose|i: int| 0 <= i < acc.len() && #[trigger] acc[i].0 == q;
                assert(r[i + 1].0 == q);
            }
            if q == k {
                assert(r[0].0 == q);
            }
        }
        assert forall|i: int| 0 <= i < r.len() implies acc.contains(#[trigger] r[i]) || (r[i] == (k, v)
            && !has_key_text(acc, k)) by {
            if i > 0 {
                assert(r[i] == acc[i - 1]);
            }
        }
    } else {
        let rest = acc.drop_first();
        assert forall|i: int, j: int| 0 <= i < j < rest.len() implies lex_lt(rest[i].0, rest[j].0) by {
            assert(rest[i] == acc[i + 1] && rest[j] == acc[j + 1]);
        }
        lemma_insert_sorted_props(rest, k, v);
        let t = insert_sorted(rest, k, v);
        assert(r =~= seq![acc[0]] + t);
        lemma_lex_total(k, acc[0].0);
        assert(lex_lt(acc[0].0, k));
        assert forall|i: int, j: int| 0 <= i < j < r.len() implies lex_lt(r[i].0, r[j].0) by {
            if i == 0 {
                assert(r[j] == t[j - 1]);
                assert(has_key_text(t, t[j - 1].0));
                if t[j - 1].0 != k {
                    assert(has_key_text(rest, t[j - 1].0));
                    let m = choose|m: int| 0 <= m < rest.len() && #[trigger] rest[m].0 == t[j - 1].0;
                    assert(lex_lt(acc[0].0, acc[m + 1].0));
                }
            } else {
                assert(r[i] == t[i - 1] && r[j] == t[j - 1]);
            }
        }
        assert(!has_key_text(acc, k) <==> !has_key_text(rest, k)) by {
            if has_key_text(acc, k) {
                let j = choose|j: int| 0 <= j < acc.len() && #[trigger] acc[j].0 == k;
                assert(j > 0);
                assert(rest[j - 1].0 == k);
            }
            if has_key_text(rest, k) {
                let j = choose|j: int| 0 <= j < rest.len() && #[trigger] rest[j].0 == k;
                assert(acc[j + 1].0 == k);
            }
        }
        assert forall|q: Seq<char>| has_key_text(r, q) <==> (has_key_text(acc, q) || q == k) by {
            if has_key_text(r, q) {
                let i = choose|i: int| 0 <= i < r.len() && #[trigger] r[i].0 == q;
                if i > 0 {
                    assert(t[i - 1].0 == q);
                    if q != k {
                        let m = choose|m: int| 0 <= m < rest.len() && #[trigger] rest[m].0 == q;
                        assert(acc[m + 1].0 == q);
                    }
                } else {
                    assert(acc[0].0 == q);
                }
            }
            if has_key_text(acc, q) {
                let i = choose|i: int| 0 <= i < acc.len() && #[trigger] acc[i].0 == q;
                if i == 0 {
                    assert(r[0].0 == q);
                } else {
                    assert(rest[i - 1].0 == q);
                    assert(has_key_text(rest, q));
                    assert(has_key_text(t, q));
                    let m = choose|m: int| 0 <= m < t.len() && #[trigger] t[m].0 == q;
                    assert(r[m + 1].0 == q);
                }
            }
            if q == k {
                assert(has_key_text(t, q));
                let m = choose|m: int| 0 <= m < t.len() && #[trigger] t[m].0 == q;
                assert(r[m + 1].0 == q);
            }
        }
        assert forall|i: int| 0 <= i < r.len() implies acc.contains(#[trigger] r[i]) || (r[i] == (k, v)
            && !has_key_text(acc, k)) by {
            if i == 0 {
                assert(acc[0] == r[0]);
            } else {
                assert(r[i] == t[i - 1]);
                if rest.contains(t[i - 1]) {
                    let m = choose|m: int| 0 <= m < rest.len() && rest[m] == t[i - 1];
                    assert(acc[m + 1] == r[i]);
                }
            }
        }
    }
}

/// The resources of a payload form a map, as the protocol's resource object
/// does: keys ascend with none twice, they are exactly the object's member
/// names, and each key holds the text of the first member with that name.
pub proof fn resources_form_a_map(entries: Seq<(Seq<char>, Json)>)
    ensures
        keys_ascending(sorted_resources(entries)),
        forall|q: Seq<char>| has_key_text(sorted_resources(entries), q) <==> exists|j: int|
            0 <= j < entries.len() && #[trigger] entries[j].0 == q,
        forall|i: int|
            0 <= i < sorted_resources(entries).len() ==> (member(entries, #[trigger] sorted_resources(entries)[i].0)
                matches Some(e) && text_or_empty(e) == sorted_resources(entries)[i].1),
    decreases entries.len(),
{
    let r = sorted_resources(entries);
    if entries.len() == 0 {
    } else {
        let pre = entries.drop_last();
        let e = entries.last();
        resources_form_a_map(pre);
        let acc = sorted_resources(pre);
        lemma_insert_sorted_props(acc, e.0, text_or_empty(e.1));
        assert(entries =~= pre.push(e));
        assert forall|q: Seq<char>| has_key_text(r, q) <==> exists|j: int|
            0 <= j < entries.len() && #[trigger] entries[j].0 == q by {
            if exists|j: int| 0 <= j < entries.len() && #[trigger] entries[j].0 == q {
                let j = choose|j: int| 0 <= j < entries.len() && #[trigger] entries[j].0 == q;
                if j < pre.len() {
                    assert(pre[j].0 == q);
                }
            }
            if has_key_text(acc, q) {
                let j = choose|j: int| 0 <= j < pre.len() && #[trigger] pre[j].0 == q;
                assert(entries[j].0 == q);
            }
            if q == e.0 {
                assert(entries[entries.len() - 1].0 == q);
            }
        }
        assert forall|i: int| 0 <= i < r.len() implies (member(entries, #[trigger] r[i].0) matches Some(x)
            && text_or_empty(x) == r[i].1) by {
            let key = r[i].0;
            lemma_member_push(pre, e, key);
            lemma_member_some_has(pre, key);
            if acc.contains(r[i]) {
                let m = choose|m: int| 0 <= m < acc.len() && acc[m] == r[i];
                assert(member(pre, acc[m].0) matches Some(x) && text_or_empty(x) == acc[m].1);
            } else {
                assert(!has_key_text(acc, e.0));
                assert(member(pre, key) is None);
            }
        }
    }
}

/// A `reset` request brings the count back to zero.
pub proof fn reset_returns_to_zero(payload: Json, settings: CounterSettingsView, count: i32)
    requires
        inspector_command_of(payload) == Some("reset"@),
    ensures
        inspector_delta_of(payload, settings, count) matches Some(d) && count.wrapping_add(d) == 0,
{
}

} // verus!
