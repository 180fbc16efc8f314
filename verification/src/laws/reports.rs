//! What holds of what the sound server's objects report.

use crate::bytes::decimal;
use crate::pipewire::{
    announced, inner, json_value, last_mute, last_volume, names_default_sink, node_reports, number, plain_binding,
    props_report, string_value, GlobalObject, Level, Message, NodeProps, ObjectType, Prop,
};
use vstd::prelude::*;
use vstd::utf8::{encode_utf8, valid_utf8};

verus! {

/// A property is a number exactly where it spells one that fits thirty-two bits.
pub proof fn law_numbers(text: Seq<char>)
    ensures
        match decimal(encode_utf8(text)) {
            Some(n) => if n <= 0xffff_ffff {
                number(text) == Some(n as u32)
            } else {
                number(text) is None
            },
            None => number(text) is None,
        },
{
}

/// The metadata of default devices is announced exactly by metadata of that name, under its own
/// number, and a sink exactly by a node of its class whose device has a number, under both. Other
/// objects announce nothing.
pub proof fn law_announcements(global: GlobalObject)
    ensures
        announced(global) matches Some(Message::MetadataDefault(id)) ==> id == global.id,
        announced(global) is Some && announced(global).unwrap() is MetadataDefault
            <==> global.type_ == ObjectType::Metadata && (global.metadata_name matches Some(name) && name@
            == "default"@),
        announced(global) matches Some(Message::Node { id, device_id }) ==> id == global.id && number(
            global.device_id.unwrap()@,
        ) == Some(device_id),
        announced(global) is Some && announced(global).unwrap() is Node <==> global.type_
            == ObjectType::Node && (global.device_id matches Some(device) && number(device@) is Some) && (
        global.media_class matches Some(class) && class@ == "Audio/Sink"@),
        announced(global) is Some ==> announced(global).unwrap() is MetadataDefault
            || announced(global).unwrap() is Node,
{
}

/// The value of an object with one entry is read back, whatever it is, without the brackets and
/// the quotes, where the name before the colon holds no colon itself.
pub proof fn law_json_reads_back(
    open: u8,
    name: Seq<u8>,
    quote: u8,
    value: Seq<u8>,
    unquote: u8,
    close: u8,
)
    requires
        !name.contains(0x3a),
        valid_utf8(value),
    ensures
        json_value(
            seq![open] + (name + seq![0x3au8] + (seq![quote] + value + seq![unquote])) + seq![close],
        ) == Some(value),
{
    let quoted = seq![quote] + value + seq![unquote];
    let entry = name + seq![0x3au8] + quoted;
    let whole = seq![open] + entry + seq![close];
    assert(inner(whole) =~= entry);
    crate::laws::bytes::law_whole_comes_apart(name, quoted, 0x3a);
    assert(inner(quoted) =~= value);
}

/// An object without a colon has no value.
pub proof fn law_json_needs_a_colon(s: Seq<u8>)
    requires
        s.len() >= 2,
        !s.contains(0x3a),
    ensures
        json_value(s) is None,
{
    crate::laws::bytes::law_parts_are_the_whole(inner(s), 0x3a);
    if crate::bytes::split_once_spec(inner(s), 0x3a) is Some {
        let (a, b) = crate::bytes::split_once_spec(inner(s), 0x3a).unwrap();
        assert((a + seq![0x3au8] + b)[a.len() as int] == 0x3a);
        assert(s[a.len() as int + 1] == 0x3a);
        assert(s.contains(s[a.len() as int + 1]));
    }
}

/// A property of the metadata names the default sink exactly where key and type are the two, and
/// there is a value.
pub proof fn law_default_sink_property(key: Seq<char>, type_: Seq<char>, value: Option<Seq<char>>)
    ensures
        names_default_sink(Some(key), Some(type_), value) <==> key == "default.audio.sink"@ && type_
            == "Spa:String:JSON"@ && value is Some,
        !names_default_sink(None, Some(type_), value),
        !names_default_sink(Some(key), None, value),
{
}

/// The description of a route is read back behind its header and before the zero.
pub proof fn law_description_reads_back(header: Seq<u8>, text: Seq<u8>, end: u8)
    requires
        header.len() == 8,
        valid_utf8(text),
    ensures
        string_value(header + text + seq![end]) == Some(text),
{
    let pod = header + text + seq![end];
    assert(pod.subrange(8, pod.len() - 1) =~= text);
}

/// A node reports its names once, last, under its own number, with the name of its media, or
/// else of its card. Before that it reports the driver exactly where it has one, by its number,
/// for itself and its device.
pub proof fn law_node_reports(id: u32, device_id: u32, props: NodeProps)
    ensures
        ({
            let list = node_reports(id, device_id, props);
            &&& list.len() == if props.driver_id is Some {
                2nat
            } else {
                1nat
            }
            &&& list.last() matches Message::NodeInfo { id: of, name, display } && of == id && name
                == props.name && display == (if props.media_name is Some {
                props.media_name
            } else {
                props.card_name
            })
            &&& props.driver_id matches Some(driver) ==> (list[0] matches Message::NodeDriver {
                input_id,
                device_id: device,
                driver_id,
            } && input_id == id && device == device_id && (number(driver@) is Some ==> number(driver@)
                == Some(driver_id)))
        }),
{
}

/// The volume that comes last among the parameters is the one reported, wherever it stands and
/// whatever stands around it; without one, none is.
pub proof fn law_last_volume_counts(before: Seq<Prop>, level: Level, behind: Seq<Prop>)
    requires
        forall|i: int| 0 <= i < behind.len() ==> !((#[trigger] behind[i]) is ChannelVolumes),
    ensures
        last_volume(before + seq![Prop::ChannelVolumes(level)] + behind) == Some(level),
        last_volume(behind) is None,
    decreases behind.len(),
{
    let all = before + seq![Prop::ChannelVolumes(level)] + behind;
    if behind.len() > 0 {
        let head = behind.drop_last();
        assert forall|i: int| 0 <= i < head.len() implies !((#[trigger] head[i]) is ChannelVolumes) by {
            assert(head[i] == behind[i]);
        }
        law_last_volume_counts(before, level, head);
        assert(all.drop_last() =~= before + seq![Prop::ChannelVolumes(level)] + head);
        assert(all.last() == behind[behind.len() - 1]);
        assert(behind.last() == behind[behind.len() - 1]);
    }
}

/// The mute switch that comes last among the parameters is the one reported, wherever it stands
/// and whatever stands around it; without one, none is.
pub proof fn law_last_mute_counts(before: Seq<Prop>, mute: bool, behind: Seq<Prop>)
    requires
        forall|i: int| 0 <= i < behind.len() ==> !((#[trigger] behind[i]) is Mute),
    ensures
        last_mute(before + seq![Prop::Mute(mute)] + behind) == Some(mute),
        last_mute(behind) is None,
    decreases behind.len(),
{
    let all = before + seq![Prop::Mute(mute)] + behind;
    if behind.len() > 0 {
        let head = behind.drop_last();
        assert forall|i: int| 0 <= i < head.len() implies !((#[trigger] head[i]) is Mute) by {
            assert(head[i] == behind[i]);
        }
        law_last_mute_counts(before, mute, head);
        assert(all.drop_last() =~= before + seq![Prop::Mute(mute)] + head);
        assert(all.last() == behind[behind.len() - 1]);
        assert(behind.last() == behind[behind.len() - 1]);
    }
}

/// The report of a node has what comes last of the volume and of the mute switch, each on its own.
pub proof fn law_reported_props(id: u32, props: Seq<Prop>)
    ensures
        props_report(id, props) matches Message::Props { id: reported, volume, mute } && reported == id && volume
            == last_volume(props) && mute == last_mute(props),
{
}

/// An object is asked for by its number and kind, with no more than that.
pub proof fn law_bindings(type_: ObjectType, id: u32)
    ensures
        plain_binding(type_, id).id == id,
        plain_binding(type_, id).type_ == type_,
        plain_binding(type_, id).permissions == 0,
        plain_binding(type_, id).version == 0,
        plain_binding(type_, id).props is None,
{
}

} // verus!
