//! What holds of following the sound server.

use crate::float;
use crate::pipewire::consumer::{handles, input_of, CommandView, ConsumerView};
use crate::pipewire::{EventView, Level, Message};
use vstd::prelude::*;

verus! {

/// Whether the bar is told a volume.
pub open spec fn tells_volume(command: CommandView) -> bool {
    command matches CommandView::Dispatch(event) && event is Volume
}

/// Whether the bar is told a mute switch.
pub open spec fn tells_mute(command: CommandView) -> bool {
    command matches CommandView::Dispatch(event) && event is Mute
}

/// What a node reports is what is known of it from then on: the volume and the mute switch that
/// it reported last, each as it was where it was not reported. Nothing else changes, of this node
/// or of any other.
pub proof fn law_reports_are_known(
    pre: ConsumerView,
    id: u32,
    volume: Option<Level>,
    mute: Option<bool>,
    post: ConsumerView,
    out: Seq<CommandView>,
    other: u32,
)
    requires
        input_of(pre.nodes, id) is Some,
        handles(pre, Message::Props { id, volume, mute }, post, out),
    ensures
        ({
            let input = input_of(pre.nodes, id).unwrap();
            &&& post.nodes.contains_key(input)
            &&& volume matches Some(level) ==> post.nodes[input].volume == Some(level@)
            &&& volume is None ==> post.nodes[input].volume == pre.nodes[input].volume
            &&& mute is Some ==> post.nodes[input].mute == mute
            &&& mute is None ==> post.nodes[input].mute == pre.nodes[input].mute
            &&& post.nodes[input].name == pre.nodes[input].name
            &&& post.nodes[input].display == pre.nodes[input].display
            &&& post.nodes[input].route == pre.nodes[input].route
            &&& post.nodes[input].input == pre.nodes[input].input
            &&& other != input ==> post.nodes.contains_key(other) == pre.nodes.contains_key(other)
            &&& other != input && pre.nodes.contains_key(other) ==> post.nodes[other] == pre.nodes[other]
            &&& post.devices == pre.devices && post.waiting == pre.waiting
            &&& post.metadata_default == pre.metadata_default
            &&& post.default_sink == pre.default_sink && post.done == pre.done
        }),
{
}

/// Where the default sink reports a volume, the bar is told it exactly where it is another than
/// before: the first one, a larger one, a smaller one, or one where either is no number. It is
/// told once, as it was reported.
pub proof fn law_volume_changes_are_told(
    pre: ConsumerView,
    id: u32,
    level: Level,
    mute: Option<bool>,
    post: ConsumerView,
    out: Seq<CommandView>,
    i: int,
)
    requires
        input_of(pre.nodes, id) is Some,
        pre.default_sink matches Some(sink) && Some(sink.0) == input_of(pre.nodes, id),
        handles(pre, Message::Props { id, volume: Some(level), mute }, post, out),
    ensures
        ({
            let before = pre.nodes[input_of(pre.nodes, id).unwrap()].volume;
            let told = CommandView::Dispatch(EventView::Volume(level@));
            &&& before is None ==> out.len() > 0 && out[0] == told
            &&& before matches Some(was) ==> (float::less(was.bits, level.bits) ==> out.len() > 0 && out[0]
                == told)
            &&& before matches Some(was) ==> (float::less(level.bits, was.bits) ==> out.len() > 0 && out[0]
                == told)
            &&& before matches Some(was) ==> (float::is_nan(was.bits) || float::is_nan(level.bits)
                ==> out.len() > 0 && out[0] == told)
            &&& before matches Some(was) ==> (float::equal(was.bits, level.bits) ==> forall|j: int|
                0 <= j < out.len() ==> !tells_volume(#[trigger] out[j]))
            &&& 0 < i < out.len() ==> !tells_volume(out[i])
            &&& 0 <= i < out.len() && tells_volume(out[i]) ==> out[i] == told
        }),
{
}

/// A volume that goes from one number to another is told on the way there and on the way back.
pub proof fn law_volume_is_told_both_ways(
    pre: ConsumerView,
    id: u32,
    a: Level,
    b: Level,
    mid: ConsumerView,
    first: Seq<CommandView>,
    post: ConsumerView,
    second: Seq<CommandView>,
)
    requires
        pre.nodes.contains_key(id),
        pre.nodes[id].input is None,
        pre.nodes[id].volume == Some(a@),
        pre.default_sink matches Some(sink) && sink.0 == id,
        !float::is_nan(a.bits),
        !float::is_nan(b.bits),
        !float::equal(a.bits, b.bits),
        handles(pre, Message::Props { id, volume: Some(b), mute: None }, mid, first),
        handles(mid, Message::Props { id, volume: Some(a), mute: None }, post, second),
    ensures
        first == seq![CommandView::Dispatch(EventView::Volume(b@))],
        second == seq![CommandView::Dispatch(EventView::Volume(a@))],
{
    assert(input_of(pre.nodes, id) == Some(id));
    assert(input_of(mid.nodes, id) == Some(id));
}

/// Where the default sink reports a mute switch, the bar is told it exactly where it is another
/// than before; once, as it was reported, and behind the volume.
pub proof fn law_mute_changes_are_told(
    pre: ConsumerView,
    id: u32,
    volume: Option<Level>,
    mute: bool,
    post: ConsumerView,
    out: Seq<CommandView>,
    i: int,
)
    requires
        input_of(pre.nodes, id) is Some,
        pre.default_sink matches Some(sink) && Some(sink.0) == input_of(pre.nodes, id),
        handles(pre, Message::Props { id, volume, mute: Some(mute) }, post, out),
    ensures
        ({
            let before = pre.nodes[input_of(pre.nodes, id).unwrap()].mute;
            let told = CommandView::Dispatch(EventView::Mute(mute));
            &&& before != Some(mute) ==> out.len() > 0 && out.last() == told
            &&& before == Some(mute) ==> forall|j: int|
                0 <= j < out.len() ==> !tells_mute(#[trigger] out[j])
            &&& 0 <= i < out.len() - 1 ==> !tells_mute(out[i])
            &&& 0 <= i < out.len() && tells_mute(out[i]) ==> out[i] == told
        }),
{
}

/// A report makes nothing else happen: the bar is told of what was reported only.
pub proof fn law_reports_tell_what_was_reported(
    pre: ConsumerView,
    id: u32,
    volume: Option<Level>,
    mute: Option<bool>,
    post: ConsumerView,
    out: Seq<CommandView>,
    i: int,
)
    requires
        input_of(pre.nodes, id) is Some,
        handles(pre, Message::Props { id, volume, mute }, post, out),
        0 <= i < out.len(),
    ensures
        out.len() <= 2,
        tells_volume(out[i]) || tells_mute(out[i]),
        tells_volume(out[i]) ==> volume is Some,
        tells_mute(out[i]) ==> mute is Some,
        pre.default_sink matches Some(sink) && Some(sink.0) == input_of(pre.nodes, id),
{
}

/// The bar is told of a sink that is switched to: its names first, then its volume and its mute
/// switch as far as they are known. It is switched to exactly where its name is another than that
/// of the sink before, and some node has it. Nothing else changes.
pub proof fn law_switches(
    pre: ConsumerView,
    name: String,
    post: ConsumerView,
    out: Seq<CommandView>,
)
    requires
        handles(pre, Message::DefaultSink(name), post, out),
    ensures
        ({
            let known = pre.default_sink matches Some(sink) && sink.1 == name@;
            let listed = exists|id: u32| #[trigger] pre.nodes.contains_key(id) && pre.nodes[id].name == name@;
            &&& (known || !listed) ==> out.len() == 0 && post == pre
            &&& !known && listed ==> {
                &&& post.default_sink matches Some(sink) && sink.1 == name@ && pre.nodes.contains_key(
                    sink.0,
                ) && pre.nodes[sink.0].name == name@
                &&& {
                    let node = pre.nodes[post.default_sink.unwrap().0];
                    let volumes = if node.volume is Some {
                        1int
                    } else {
                        0
                    };
                    let mutes = if node.mute is Some {
                        1int
                    } else {
                        0
                    };
                    &&& out.len() == 1 + volumes + mutes
                    &&& out[0] == CommandView::Dispatch(
                        EventView::DefaultChanged { display: node.display, route: node.route },
                    )
                    &&& node.volume matches Some(level) ==> out[1] == CommandView::Dispatch(
                        EventView::Volume(level),
                    )
                    &&& node.mute matches Some(on) ==> out[1 + volumes] == CommandView::Dispatch(
                        EventView::Mute(on),
                    )
                }
            }
            &&& post.nodes == pre.nodes && post.devices == pre.devices && post.waiting == pre.waiting
            &&& post.metadata_default == pre.metadata_default && post.done == pre.done
        }),
{
}

/// A new sink is listened to, and nothing is known of it yet, whatever was known under its
/// number. Its device is listened to for it exactly where it was not before. Other nodes stay.
pub proof fn law_new_sinks(
    pre: ConsumerView,
    id: u32,
    device_id: u32,
    post: ConsumerView,
    out: Seq<CommandView>,
    other: u32,
)
    requires
        handles(pre, Message::Node { id, device_id }, post, out),
    ensures
        post.nodes.contains_key(id),
        post.nodes[id].input is None,
        post.nodes[id].volume is None && post.nodes[id].mute is None,
        post.nodes[id].name.len() == 0 && post.nodes[id].display.len() == 0 && post.nodes[id].route.len()
            == 0,
        other != id ==> post.nodes.contains_key(other) == pre.nodes.contains_key(other),
        other != id && pre.nodes.contains_key(other) ==> post.nodes[other] == pre.nodes[other],
        post.waiting.contains(id),
        other != id ==> post.waiting.contains(other) == pre.waiting.contains(other),
        post.devices.contains_key(device_id),
        !pre.devices.contains_key(device_id) ==> post.devices[device_id] == id,
        pre.devices.contains_key(device_id) ==> post.devices[device_id] == pre.devices[device_id],
        other != device_id ==> post.devices.contains_key(other) == pre.devices.contains_key(other),
        other != device_id && pre.devices.contains_key(other) ==> post.devices[other]
            == pre.devices[other],
        post.default_sink == pre.default_sink,
        post.metadata_default == pre.metadata_default,
        post.done == pre.done,
        out.last() == (CommandView::BindNode { id, device_id }),
        pre.devices.contains_key(device_id) ==> out.len() == 1,
        !pre.devices.contains_key(device_id) ==> out.len() == 2 && out[0] == (CommandView::BindDevice {
            device_id,
            node_id: id,
        }),
{
}

/// A driver is listened to and reports for the node that it drives; nothing is known of it yet.
/// Other nodes and all devices stay.
pub proof fn law_new_drivers(
    pre: ConsumerView,
    input_id: u32,
    device_id: u32,
    driver_id: u32,
    post: ConsumerView,
    out: Seq<CommandView>,
    other: u32,
)
    requires
        handles(pre, Message::NodeDriver { input_id, device_id, driver_id }, post, out),
    ensures
        post.nodes.contains_key(driver_id),
        post.nodes[driver_id].input == Some(input_id),
        post.nodes[driver_id].volume is None && post.nodes[driver_id].mute is None,
        post.nodes[driver_id].name.len() == 0 && post.nodes[driver_id].display.len() == 0
            && post.nodes[driver_id].route.len() == 0,
        other != driver_id ==> post.nodes.contains_key(other) == pre.nodes.contains_key(other),
        other != driver_id && pre.nodes.contains_key(other) ==> post.nodes[other] == pre.nodes[other],
        post.waiting.contains(driver_id),
        other != driver_id ==> post.waiting.contains(other) == pre.waiting.contains(other),
        post.devices == pre.devices,
        post.default_sink == pre.default_sink,
        post.metadata_default == pre.metadata_default,
        post.done == pre.done,
        out == seq![CommandView::BindNode { id: driver_id, device_id }],
{
}

/// What a driver reports is reported for the node that it drives, where that one drives none.
pub proof fn law_drivers_report_for_their_input(
    pre: ConsumerView,
    input_id: u32,
    device_id: u32,
    driver_id: u32,
    post: ConsumerView,
    out: Seq<CommandView>,
)
    requires
        pre.nodes.dom().finite(),
        pre.nodes.contains_key(input_id),
        pre.nodes[input_id].input is None,
        input_id != driver_id,
        handles(pre, Message::NodeDriver { input_id, device_id, driver_id }, post, out),
    ensures
        input_of(post.nodes, driver_id) == Some(input_id),
        input_of(post.nodes, input_id) == Some(input_id),
{
    assert(input_of(post.nodes, input_id) == Some(input_id));
    crate::pipewire::consumer::law_input_shares_the_end(post.nodes, driver_id);
}

/// A node's names are those it told last, each as it was where it was not told; nothing else is
/// known of it by that, and a node that is not there stays so. It waits no longer.
pub proof fn law_names_are_known(
    pre: ConsumerView,
    id: u32,
    name: Option<String>,
    display: Option<String>,
    post: ConsumerView,
    out: Seq<CommandView>,
    other: u32,
)
    requires
        handles(pre, Message::NodeInfo { id, name, display }, post, out),
    ensures
        post.nodes.contains_key(other) == pre.nodes.contains_key(other),
        other != id && pre.nodes.contains_key(other) ==> post.nodes[other] == pre.nodes[other],
        pre.nodes.contains_key(id) ==> {
            &&& name matches Some(n) ==> post.nodes[id].name == n@
            &&& name is None ==> post.nodes[id].name == pre.nodes[id].name
            &&& display matches Some(d) ==> post.nodes[id].display == d@
            &&& display is None ==> post.nodes[id].display == pre.nodes[id].display
            &&& post.nodes[id].route == pre.nodes[id].route
            &&& post.nodes[id].input == pre.nodes[id].input
            &&& post.nodes[id].volume == pre.nodes[id].volume
            &&& post.nodes[id].mute == pre.nodes[id].mute
        },
        !post.waiting.contains(id),
        other != id ==> post.waiting.contains(other) == pre.waiting.contains(other),
        post.devices == pre.devices,
        post.default_sink == pre.default_sink,
        post.metadata_default == pre.metadata_default,
        post.done == pre.done,
{
}

/// The metadata is listened to exactly when a node has told its names, no other still waits, the
/// first announcements are done, and it is known which metadata that is.
pub proof fn law_metadata_is_bound_in_the_end(
    pre: ConsumerView,
    id: u32,
    name: Option<String>,
    display: Option<String>,
    post: ConsumerView,
    out: Seq<CommandView>,
)
    requires
        handles(pre, Message::NodeInfo { id, name, display }, post, out),
    ensures
        ({
            let ready = pre.done && pre.metadata_default is Some && forall|k: u32|
                #![trigger pre.waiting.contains(k)]
                pre.waiting.contains(k) ==> k == id;
            &&& ready ==> out == seq![CommandView::BindMetadata(pre.metadata_default.unwrap())]
            &&& !ready ==> out.len() == 0
        }),
{
    let waiting = pre.waiting.remove(id);
    if forall|k: u32| #![trigger pre.waiting.contains(k)] pre.waiting.contains(k) ==> k == id {
        assert(waiting =~= Set::<u32>::empty());
    } else {
        let k = choose|k: u32| #![trigger pre.waiting.contains(k)] pre.waiting.contains(k) && k != id;
        assert(waiting.contains(k));
    }
}

/// The route of a node is the one told last, where the node is there; nothing else changes, and
/// nothing is to be done.
pub proof fn law_routes_are_known(
    pre: ConsumerView,
    node_id: u32,
    desc: String,
    post: ConsumerView,
    out: Seq<CommandView>,
    other: u32,
)
    requires
        handles(pre, Message::DeviceRoute { node_id, desc }, post, out),
    ensures
        out.len() == 0,
        post.nodes.contains_key(other) == pre.nodes.contains_key(other),
        other != node_id && pre.nodes.contains_key(other) ==> post.nodes[other] == pre.nodes[other],
        pre.nodes.contains_key(node_id) ==> {
            &&& post.nodes[node_id].route == desc@
            &&& post.nodes[node_id].name == pre.nodes[node_id].name
            &&& post.nodes[node_id].display == pre.nodes[node_id].display
            &&& post.nodes[node_id].input == pre.nodes[node_id].input
            &&& post.nodes[node_id].volume == pre.nodes[node_id].volume
            &&& post.nodes[node_id].mute == pre.nodes[node_id].mute
        },
        post.devices == pre.devices,
        post.waiting == pre.waiting,
        post.default_sink == pre.default_sink,
        post.metadata_default == pre.metadata_default,
        post.done == pre.done,
{
}

/// An object that is gone is released, as a node and as a device; all others stay, and so does
/// everything else.
pub proof fn law_removed_objects_are_gone(
    pre: ConsumerView,
    id: u32,
    post: ConsumerView,
    out: Seq<CommandView>,
    other: u32,
)
    requires
        handles(pre, Message::GlobalRemove(id), post, out),
    ensures
        out == seq![CommandView::Release(id)],
        !post.nodes.contains_key(id),
        !post.devices.contains_key(id),
        other != id ==> post.nodes.contains_key(other) == pre.nodes.contains_key(other),
        other != id && pre.nodes.contains_key(other) ==> post.nodes[other] == pre.nodes[other],
        other != id ==> post.devices.contains_key(other) == pre.devices.contains_key(other),
        other != id && pre.devices.contains_key(other) ==> post.devices[other] == pre.devices[other],
        post.waiting == pre.waiting,
        post.default_sink == pre.default_sink,
        post.metadata_default == pre.metadata_default,
        post.done == pre.done,
{
}

/// The end of the first announcements and the metadata of default devices are taken note of, and
/// nothing else changes or is to be done.
pub proof fn law_notes(
    pre: ConsumerView,
    id: u32,
    done: ConsumerView,
    noted: ConsumerView,
    first: Seq<CommandView>,
    second: Seq<CommandView>,
)
    requires
        handles(pre, Message::Done, done, first),
        handles(pre, Message::MetadataDefault(id), noted, second),
    ensures
        first.len() == 0,
        second.len() == 0,
        done.done,
        noted.metadata_default == Some(id),
        done.nodes == pre.nodes && done.devices == pre.devices && done.waiting == pre.waiting,
        done.metadata_default == pre.metadata_default && done.default_sink == pre.default_sink,
        noted.nodes == pre.nodes && noted.devices == pre.devices && noted.waiting == pre.waiting,
        noted.done == pre.done && noted.default_sink == pre.default_sink,
{
}

} // verus!
