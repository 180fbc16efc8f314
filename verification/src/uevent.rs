//! Reading the kernel's messages about devices.

use crate::bytes::{decimal_up_to, parse_decimal, pieces, same, split, split_once, split_once_spec};
use crate::charging::{status_of, ChargingStatus};
use vstd::prelude::*;
use vstd::utf8::encode_utf8;

verus! {

/// What a message of the kernel tells the bar.
#[derive(Debug, Clone, Copy, PartialEq, Eq)]
pub enum Event {
    PowerOnline,
    PowerOffline,
    BatCapacity(u8),
    BatStatus(ChargingStatus),
    Backlight,
}

/// The parts of the kernel that the bar listens to.
#[derive(Debug, Clone, Copy, PartialEq, Eq, Structural)]
pub enum Subsystem {
    Backlight,
    PowerSupply,
}

/// A key and its value.
pub type Pair = (Seq<u8>, Seq<u8>);

/// The keys and values of `lines`, up to the first line without an equals sign.
pub open spec fn pairs_of(lines: Seq<Seq<u8>>) -> Seq<Pair>
    decreases lines.len(),
{
    if lines.len() == 0 {
        Seq::empty()
    } else {
        match split_once_spec(lines[0], 0x3d) {
            Some(pair) => seq![pair] + pairs_of(lines.drop_first()),
            None => Seq::empty(),
        }
    }
}

/// The first line of a message, which names what happened to which device.
pub open spec fn head_of(data: Seq<u8>) -> Seq<u8> {
    pieces(data, 0)[0]
}

/// The keys and values of a message, which stand behind its first line.
pub open spec fn body_of(data: Seq<u8>) -> Seq<Pair> {
    pairs_of(pieces(data, 0).drop_first())
}

/// The model of a list of keys and values.
pub open spec fn pairs_view(pairs: Seq<(&[u8], &[u8])>) -> Seq<Pair> {
    pairs.map_values(|p: (&[u8], &[u8])| (p.0@, p.1@))
}

/// Takes a message apart: lines that end in zero bytes, the first of them the head, the others
/// a key, an equals sign and a value each.
pub fn parse_message<'a>(data: &'a [u8]) -> (res: Option<(&'a [u8], Vec<(&'a [u8], &'a [u8])>)>)
    ensures
        res matches Some((head, body)) && head@ == head_of(data@) && pairs_view(body@) == body_of(data@),
{
    let lines = split(data, 0);
    let ghost texts = lines@.map_values(|piece: &[u8]| piece@);
    assert(pieces(data@, 0).len() > 0);
    assert(texts.len() == lines@.len());
    assert(texts[0] == lines@[0]@);
    let head = lines[0];
    let mut body: Vec<(&'a [u8], &'a [u8])> = Vec::new();
    let mut i: usize = 1;
    proof {
        assert(texts.skip(1) =~= texts.drop_first());
        assert(pairs_view(body@) + pairs_of(texts.skip(1)) =~= body_of(data@));
    }
    while i < lines.len()
        invariant
            1 <= i <= lines.len(),
            texts == lines@.map_values(|piece: &[u8]| piece@),
            pairs_view(body@) + pairs_of(texts.skip(i as int)) == body_of(data@),
            head@ == head_of(data@),
        decreases lines.len() - i,
    {
        let ghost rest = texts.skip(i as int);
        let ghost done = body@;
        assert(rest[0] == lines@[i as int]@);
        match split_once(lines[i], 0x3d) {
            Some(pair) => {
                body.push(pair);
                proof {
                    assert(rest.drop_first() =~= texts.skip(i + 1));
                    assert(pairs_view(body@) =~= pairs_view(done).push((pair.0@, pair.1@)));
                    assert(pairs_view(body@) + pairs_of(texts.skip(i + 1)) =~= pairs_view(done) + (seq![
                        (pair.0@, pair.1@),
                    ] + pairs_of(texts.skip(i + 1))));
                }
            },
            None => {
                assert(pairs_view(body@) + Seq::<Pair>::empty() =~= pairs_view(body@));
                return Some((head, body));
            },
        }
        i = i + 1;
    }
    proof {
        assert(texts.skip(lines.len() as int) =~= Seq::<Seq<u8>>::empty());
        assert(pairs_view(body@) + Seq::<Pair>::empty() =~= pairs_view(body@));
    }
    Some((head, body))
}

/// The message with head `head` and `pairs` behind it.
pub open spec fn composed(head: Seq<u8>, pairs: Seq<Pair>) -> Seq<u8>
    decreases pairs.len(),
{
    if pairs.len() == 0 {
        head
    } else {
        composed(head, pairs.drop_last()) + seq![0u8] + pairs.last().0 + seq![0x3du8] + pairs.last().1
    }
}

/// The lines of a message in which they are the head and `pairs`.
spec fn composed_lines(head: Seq<u8>, pairs: Seq<Pair>) -> Seq<Seq<u8>> {
    seq![head] + pairs.map_values(|p: Pair| p.0 + seq![0x3du8] + p.1)
}

/// A line behind a separator is the last piece.
proof fn lemma_pieces_append(s: Seq<u8>, line: Seq<u8>)
    requires
        forall|i: int| 0 <= i < line.len() ==> line[i] != 0,
    ensures
        pieces(s + seq![0u8] + line, 0) == pieces(s, 0).push(line),
    decreases s.len(),
{
    let all = s + seq![0u8] + line;
    let at = crate::bytes::split_point(s, 0);
    crate::bytes::lemma_split_point_range(s, 0);
    crate::bytes::lemma_split_point_range(all, 0);
    lemma_point_before(s, 0);
    crate::bytes::lemma_split_point_is(all, 0, at);
    assert(all.take(at) =~= s.take(at));
    if at < s.len() {
        assert(all.skip(at + 1) =~= s.skip(at + 1) + seq![0u8] + line);
        lemma_pieces_append(s.skip(at + 1), line);
        assert(pieces(all, 0) == seq![s.take(at)] + pieces(s.skip(at + 1), 0).push(line));
        assert(pieces(all, 0) =~= pieces(s, 0).push(line));
    } else {
        assert(all.skip(at + 1) =~= line);
        crate::bytes::lemma_split_point_is(line, 0, line.len() as int);
        assert(s.take(at) =~= s);
        assert(pieces(line, 0) == seq![line]);
        assert(pieces(s, 0) == seq![s]);
        assert(pieces(all, 0) == seq![s] + pieces(line, 0));
        assert(pieces(all, 0) =~= pieces(s, 0).push(line));
    }
}

/// No separator stands before the split point, and one at it unless it is the end.
proof fn lemma_point_before(s: Seq<u8>, sep: u8)
    ensures
        ({
            let at = crate::bytes::split_point(s, sep);
            &&& 0 <= at <= s.len()
            &&& forall|j: int| 0 <= j < at ==> s[j] != sep
            &&& at < s.len() ==> s[at] == sep
        }),
    decreases s.len(),
{
    if s.len() > 0 && s[0] != sep {
        let rest = s.drop_first();
        lemma_point_before(rest, sep);
        let at = crate::bytes::split_point(s, sep);
        assert forall|j: int| 0 <= j < at implies s[j] != sep by {
            if j > 0 {
                assert(rest[j - 1] == s[j]);
            }
        }
    }
}

proof fn lemma_composed_lines(head: Seq<u8>, pairs: Seq<Pair>)
    requires
        forall|i: int| 0 <= i < head.len() ==> head[i] != 0,
        forall|i: int| 0 <= i < pairs.len() ==> well_formed(#[trigger] pairs[i]),
    ensures
        pieces(composed(head, pairs), 0) == composed_lines(head, pairs),
    decreases pairs.len(),
{
    if pairs.len() == 0 {
        crate::bytes::lemma_split_point_is(head, 0, head.len() as int);
        assert(pieces(head, 0) =~= composed_lines(head, pairs));
    } else {
        let before = pairs.drop_last();
        let pair = pairs.last();
        assert(well_formed(pairs[pairs.len() - 1]));
        assert forall|i: int| 0 <= i < before.len() implies well_formed(#[trigger] before[i]) by {
            assert(well_formed(pairs[i]));
        }
        lemma_composed_lines(head, before);
        let line = pair.0 + seq![0x3du8] + pair.1;
        lemma_pieces_append(composed(head, before), line);
        assert(composed(head, pairs) =~= composed(head, before) + seq![0u8] + line);
        assert(composed_lines(head, pairs) =~= composed_lines(head, before).push(line));
    }
}

proof fn lemma_pairs_of_lines(pairs: Seq<Pair>)
    requires
        forall|i: int| 0 <= i < pairs.len() ==> well_formed(#[trigger] pairs[i]),
    ensures
        pairs_of(pairs.map_values(|p: Pair| p.0 + seq![0x3du8] + p.1)) == pairs,
    decreases pairs.len(),
{
    let write = |p: Pair| p.0 + seq![0x3du8] + p.1;
    let lines = pairs.map_values(write);
    if pairs.len() > 0 {
        let pair = pairs[0];
        let line = lines[0];
        assert(well_formed(pairs[0]));
        assert(line =~= pair.0 + seq![0x3du8] + pair.1);
        crate::bytes::lemma_split_point_is(line, 0x3d, pair.0.len() as int);
        assert(line.take(pair.0.len() as int) =~= pair.0);
        assert(line.skip(pair.0.len() as int + 1) =~= pair.1);
        let rest = pairs.drop_first();
        assert forall|i: int| 0 <= i < rest.len() implies well_formed(#[trigger] rest[i]) by {
            assert(well_formed(pairs[i + 1]));
        }
        lemma_pairs_of_lines(rest);
        assert(lines.drop_first() =~= rest.map_values(write));
        assert(pairs =~= seq![pair] + rest);
    } else {
        assert(pairs_of(lines) =~= pairs);
    }
}

/// Whether a key and its value can stand in a message: the key without an equals sign, both
/// without a zero.
pub open spec fn well_formed(pair: Pair) -> bool {
    &&& forall|i: int| 0 <= i < pair.0.len() ==> pair.0[i] != 0x3d && pair.0[i] != 0
    &&& forall|i: int| 0 <= i < pair.1.len() ==> pair.1[i] != 0
}

/// A message is read as it was composed.
pub proof fn law_message_reads_back(head: Seq<u8>, pairs: Seq<Pair>)
    requires
        forall|i: int| 0 <= i < head.len() ==> head[i] != 0,
        forall|i: int| 0 <= i < pairs.len() ==> well_formed(#[trigger] pairs[i]),
    ensures
        head_of(composed(head, pairs)) == head,
        body_of(composed(head, pairs)) == pairs,
{
    lemma_composed_lines(head, pairs);
    lemma_pairs_of_lines(pairs);
    assert(composed_lines(head, pairs).drop_first() =~= pairs.map_values(
        |p: Pair| p.0 + seq![0x3du8] + p.1,
    ));
}

/// The last value under `key`.
pub open spec fn last_value(pairs: Seq<Pair>, key: Seq<char>) -> Option<Seq<u8>>
    decreases pairs.len(),
{
    if pairs.len() == 0 {
        None
    } else if pairs.last().0 == encode_utf8(key) {
        Some(pairs.last().1)
    } else {
        last_value(pairs.drop_last(), key)
    }
}

/// The subsystem that a value names, if the bar listens to it.
pub open spec fn subsystem_of(value: Seq<u8>) -> Option<Subsystem> {
    if value == encode_utf8("backlight"@) {
        Some(Subsystem::Backlight)
    } else if value == encode_utf8("power_supply"@) {
        Some(Subsystem::PowerSupply)
    } else {
        None
    }
}

/// The last subsystem named that the bar listens to.
pub open spec fn last_subsystem(pairs: Seq<Pair>) -> Option<Subsystem>
    decreases pairs.len(),
{
    if pairs.len() == 0 {
        None
    } else if pairs.last().0 == encode_utf8("SUBSYSTEM"@) && subsystem_of(pairs.last().1) is Some {
        subsystem_of(pairs.last().1)
    } else {
        last_subsystem(pairs.drop_last())
    }
}

/// Whether the power supply is a battery.
pub open spec fn names_battery(pairs: Seq<Pair>) -> bool {
    exists|i: int|
        0 <= i < pairs.len() && #[trigger] pairs[i] == (
            encode_utf8("POWER_SUPPLY_TYPE"@),
            encode_utf8("Battery"@),
        )
}

/// How full the battery is, where the message says so.
pub open spec fn capacity_of(pairs: Seq<Pair>) -> Option<u8> {
    match last_value(pairs, "POWER_SUPPLY_CAPACITY"@) {
        Some(value) => Some(decimal_up_to(value, u8::MAX as nat).unwrap() as u8),
        None => None,
    }
}

/// Whether every capacity in the message is a number that fits a byte.
pub open spec fn capacities_are_numbers(pairs: Seq<Pair>) -> bool {
    forall|i: int|
        0 <= i < pairs.len() && (#[trigger] pairs[i]).0 == encode_utf8("POWER_SUPPLY_CAPACITY"@)
            ==> decimal_up_to(pairs[i].1, u8::MAX as nat) is Some
}

/// What a message tells the bar. One about the backlight tells just that; one about a battery
/// its capacity, then its status; one about another power supply whether it is connected.
pub open spec fn events_of(pairs: Seq<Pair>) -> Seq<Event> {
    match last_subsystem(pairs) {
        Some(Subsystem::Backlight) => seq![Event::Backlight],
        Some(Subsystem::PowerSupply) => if names_battery(pairs) {
            let capacity = match capacity_of(pairs) {
                Some(x) => seq![Event::BatCapacity(x)],
                None => Seq::empty(),
            };
            let status = match last_value(pairs, "POWER_SUPPLY_STATUS"@) {
                Some(value) => seq![Event::BatStatus(status_of(value))],
                None => Seq::empty(),
            };
            capacity + status
        } else {
            match last_value(pairs, "POWER_SUPPLY_ONLINE"@) {
                Some(value) => if value == encode_utf8("0"@) {
                    seq![Event::PowerOffline]
                } else {
                    seq![Event::PowerOnline]
                },
                None => Seq::empty(),
            }
        },
        None => Seq::empty(),
    }
}

/// Tells whether every capacity in the message is a number that fits a byte.
pub fn readable(body: &Vec<(&[u8], &[u8])>) -> (res: bool)
    ensures
        res == capacities_are_numbers(pairs_view(body@)),
{
    let ghost pairs = pairs_view(body@);
    let mut i: usize = 0;
    while i < body.len()
        invariant
            i <= body.len(),
            pairs == pairs_view(body@),
            forall|j: int|
                0 <= j < i && (#[trigger] pairs[j]).0 == encode_utf8("POWER_SUPPLY_CAPACITY"@)
                    ==> decimal_up_to(pairs[j].1, u8::MAX as nat) is Some,
        decreases body.len() - i,
    {
        let (k, v) = body[i];
        assert(pairs[i as int] == (k@, v@));
        if same(k, "POWER_SUPPLY_CAPACITY".as_bytes()) && parse_decimal(v, u8::MAX as u64).is_none() {
            return false;
        }
        i = i + 1;
    }
    true
}

/// The keys and values under which a message says what the bar wants to know.
struct Summary {
    subsystem: Option<Subsystem>,
    is_battery: bool,
    ac_online: Option<bool>,
    capacity: Option<u8>,
    status: Option<ChargingStatus>,
}

impl Summary {
    /// Whether this is what `pairs` say.
    spec fn sums_up(self, pairs: Seq<Pair>) -> bool {
        &&& self.subsystem == last_subsystem(pairs)
        &&& self.is_battery == names_battery(pairs)
        &&& self.ac_online == match last_value(pairs, "POWER_SUPPLY_ONLINE"@) {
            Some(value) => Some(value != encode_utf8("0"@)),
            None => None,
        }
        &&& self.capacity == capacity_of(pairs)
        &&& self.status == match last_value(pairs, "POWER_SUPPLY_STATUS"@) {
            Some(value) => Some(status_of(value)),
            None => None,
        }
    }
}

/// The five keys are five.
proof fn lemma_keys_differ()
    ensures
        encode_utf8("SUBSYSTEM"@) != encode_utf8("POWER_SUPPLY_TYPE"@),
        encode_utf8("SUBSYSTEM"@) != encode_utf8("POWER_SUPPLY_ONLINE"@),
        encode_utf8("SUBSYSTEM"@) != encode_utf8("POWER_SUPPLY_CAPACITY"@),
        encode_utf8("SUBSYSTEM"@) != encode_utf8("POWER_SUPPLY_STATUS"@),
        encode_utf8("POWER_SUPPLY_TYPE"@) != encode_utf8("POWER_SUPPLY_ONLINE"@),
        encode_utf8("POWER_SUPPLY_TYPE"@) != encode_utf8("POWER_SUPPLY_CAPACITY"@),
        encode_utf8("POWER_SUPPLY_TYPE"@) != encode_utf8("POWER_SUPPLY_STATUS"@),
        encode_utf8("POWER_SUPPLY_ONLINE"@) != encode_utf8("POWER_SUPPLY_CAPACITY"@),
        encode_utf8("POWER_SUPPLY_ONLINE"@) != encode_utf8("POWER_SUPPLY_STATUS"@),
        encode_utf8("POWER_SUPPLY_CAPACITY"@) != encode_utf8("POWER_SUPPLY_STATUS"@),
{
    reveal_strlit("SUBSYSTEM");
    reveal_strlit("POWER_SUPPLY_TYPE");
    reveal_strlit("POWER_SUPPLY_ONLINE");
    reveal_strlit("POWER_SUPPLY_CAPACITY");
    reveal_strlit("POWER_SUPPLY_STATUS");
    vstd::utf8::is_ascii_chars_encode_utf8("SUBSYSTEM"@);
    vstd::utf8::is_ascii_chars_encode_utf8("POWER_SUPPLY_TYPE"@);
    vstd::utf8::is_ascii_chars_encode_utf8("POWER_SUPPLY_ONLINE"@);
    vstd::utf8::is_ascii_chars_encode_utf8("POWER_SUPPLY_CAPACITY"@);
    vstd::utf8::is_ascii_chars_encode_utf8("POWER_SUPPLY_STATUS"@);
    assert("POWER_SUPPLY_ONLINE"@[13] != "POWER_SUPPLY_STATUS"@[13]);
    assert(encode_utf8("POWER_SUPPLY_ONLINE"@)[13] != encode_utf8("POWER_SUPPLY_STATUS"@)[13]);
}

/// Gathers what a message says.
fn summarize(body: &Vec<(&[u8], &[u8])>) -> (res: Summary)
    requires
        capacities_are_numbers(pairs_view(body@)),
    ensures
        res.sums_up(pairs_view(body@)),
{
    let ghost pairs = pairs_view(body@);
    let mut res = Summary {
        subsystem: None,
        is_battery: false,
        ac_online: None,
        capacity: None,
        status: None,
    };
    let mut i: usize = 0;
    while i < body.len()
        invariant
            i <= body.len(),
            pairs == pairs_view(body@),
            capacities_are_numbers(pairs),
            res.sums_up(pairs.take(i as int)),
        decreases body.len() - i,
    {
        let (k, v) = body[i];
        let ghost before = pairs.take(i as int);
        let ghost after = pairs.take(i + 1);
        proof {
            lemma_keys_differ();
            assert(pairs[i as int] == (k@, v@));
            assert(after.drop_last() =~= before);
            assert(after.last() == (k@, v@));
            assert(names_battery(after) == (names_battery(before) || after.last() == (
                encode_utf8("POWER_SUPPLY_TYPE"@),
                encode_utf8("Battery"@),
            ))) by {
                if names_battery(before) {
                    let j = choose|j: int|
                        0 <= j < before.len() && #[trigger] before[j] == (
                            encode_utf8("POWER_SUPPLY_TYPE"@),
                            encode_utf8("Battery"@),
                        );
                    assert(after[j] == before[j]);
                }
                if names_battery(after) {
                    let j = choose|j: int|
                        0 <= j < after.len() && #[trigger] after[j] == (
                            encode_utf8("POWER_SUPPLY_TYPE"@),
                            encode_utf8("Battery"@),
                        );
                    if j < i {
                        assert(before[j] == after[j]);
                    }
                }
                assert(after[i as int] == after.last());
            }
        }
        if same(k, "SUBSYSTEM".as_bytes()) {
            if same(v, "backlight".as_bytes()) {
                res.subsystem = Some(Subsystem::Backlight);
            } else if same(v, "power_supply".as_bytes()) {
                res.subsystem = Some(Subsystem::PowerSupply);
            }
        } else if same(k, "POWER_SUPPLY_TYPE".as_bytes()) {
            if same(v, "Battery".as_bytes()) {
                res.is_battery = true;
            }
        } else if same(k, "POWER_SUPPLY_ONLINE".as_bytes()) {
            res.ac_online = Some(!same(v, "0".as_bytes()));
        } else if same(k, "POWER_SUPPLY_CAPACITY".as_bytes()) {
            let x = parse_decimal(v, u8::MAX as u64).unwrap();
            res.capacity = Some(x as u8);
        } else if same(k, "POWER_SUPPLY_STATUS".as_bytes()) {
            res.status = Some(ChargingStatus::from_bytes(v));
        }
        i = i + 1;
    }
    assert(pairs.take(body.len() as int) =~= pairs);
    res
}

/// Tells what a message means for the bar.
pub fn events(body: &Vec<(&[u8], &[u8])>) -> (res: Vec<Event>)
    requires
        capacities_are_numbers(pairs_view(body@)),
    ensures
        res@ == events_of(pairs_view(body@)),
{
    let sum = summarize(body);
    let mut res: Vec<Event> = Vec::new();
    match sum.subsystem {
        Some(Subsystem::PowerSupply) => {
            if sum.is_battery {
                if let Some(x) = sum.capacity {
                    res.push(Event::BatCapacity(x));
                }
                if let Some(x) = sum.status {
                    res.push(Event::BatStatus(x));
                }
            } else {
                if let Some(x) = sum.ac_online {
                    if x {
                        res.push(Event::PowerOnline);
                    } else {
                        res.push(Event::PowerOffline);
                    }
                }
            }
        },
        Some(Subsystem::Backlight) => {
            res.push(Event::Backlight);
        },
        None => {},
    }
    assert(res@ =~= events_of(pairs_view(body@)));
    res
}

/// Tells what a message of the kernel means for the bar.
pub fn read_message(data: &[u8]) -> (res: Vec<Event>)
    requires
        capacities_are_numbers(body_of(data@)),
    ensures
        res@ == events_of(body_of(data@)),
{
    let (_, body) = parse_message(data).unwrap();
    events(&body)
}

/// Only a battery's message tells of a capacity or a status, and only another power supply's
/// whether it is connected.
pub proof fn law_events_follow_their_supply(pairs: Seq<Pair>, i: int)
    requires
        0 <= i < events_of(pairs).len(),
    ensures
        match events_of(pairs)[i] {
            Event::Backlight => last_subsystem(pairs) == Some(Subsystem::Backlight),
            Event::BatCapacity(_) | Event::BatStatus(_) => last_subsystem(pairs) == Some(
                Subsystem::PowerSupply,
            ) && names_battery(pairs),
            Event::PowerOnline | Event::PowerOffline => last_subsystem(pairs) == Some(
                Subsystem::PowerSupply,
            ) && !names_battery(pairs),
        },
{
}

} // verus!
