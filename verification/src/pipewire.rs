//! What the sound server announces, and what that means for the default sink.

use crate::bytes::{decimal_up_to, parse_decimal, split_once, split_once_spec};
use crate::text::same_text;
use vstd::prelude::*;
use vstd::slice::slice_subrange;
use vstd::utf8::{encode_utf8, valid_utf8};

pub mod consumer;

verus! {

/// Why bytes are no text.
#[verifier::external_type_specification]
#[verifier::external_body]
pub struct ExFromUtf8Error(std::string::FromUtf8Error);

/// `String::from_utf8` takes bytes as the text that they encode in UTF-8, and refuses all other
/// bytes.
pub assume_specification[ String::from_utf8 ](vec: Vec<u8>) -> (res: Result<
    String,
    std::string::FromUtf8Error,
>)
    ensures
        match res {
            Ok(s) => valid_utf8(vec@) && encode_utf8(s@) == vec@,
            Err(_) => !valid_utf8(vec@),
        },
;

/// How loud a sink is: the bits of the single-precision number, where one is full volume, and
/// the same number in percent, written out.
pub struct Level {
    pub bits: u32,
    pub percent: String,
}

/// The model of a [`Level`].
pub struct LevelView {
    pub bits: u32,
    pub percent: Seq<char>,
}

impl View for Level {
    type V = LevelView;

    open spec fn view(&self) -> LevelView {
        LevelView { bits: self.bits, percent: self.percent@ }
    }
}

impl Clone for Level {
    fn clone(&self) -> (res: Self)
        ensures
            res == *self,
    {
        Level { bits: self.bits, percent: self.percent.clone() }
    }
}

/// The model of an optional [`Level`].
pub open spec fn level_view(level: Option<Level>) -> Option<LevelView> {
    match level {
        Some(l) => Some(l@),
        None => None,
    }
}

/// What the sound server's objects report.
pub enum Message {
    /// Every object that existed at first has been announced.
    Done,
    /// An object is gone.
    GlobalRemove(u32),
    /// The metadata that names the default devices.
    MetadataDefault(u32),
    /// A sink of a device.
    Node { id: u32, device_id: u32 },
    /// A node that drives another.
    NodeDriver { input_id: u32, device_id: u32, driver_id: u32 },
    /// What a node is called.
    NodeInfo { id: u32, name: Option<String>, display: Option<String> },
    /// Where the sound of a node comes out.
    DeviceRoute { node_id: u32, desc: String },
    /// The name of the default sink.
    DefaultSink(String),
    /// How loud a node is and whether it is muted.
    Props { id: u32, volume: Option<Level>, mute: Option<bool> },
}

/// What is to be known of the default sink.
pub enum Event {
    DefaultChanged { display: String, route: String },
    Volume(Level),
    Mute(bool),
}

/// The model of an [`Event`].
pub enum EventView {
    DefaultChanged { display: Seq<char>, route: Seq<char> },
    Volume(LevelView),
    Mute(bool),
}

impl View for Event {
    type V = EventView;

    open spec fn view(&self) -> EventView {
        match self {
            Event::DefaultChanged { display, route } => EventView::DefaultChanged {
                display: display@,
                route: route@,
            },
            Event::Volume(level) => EventView::Volume(level@),
            Event::Mute(mute) => EventView::Mute(*mute),
        }
    }
}

/// The kinds of objects that matter here.
#[derive(Debug, Clone, Copy, PartialEq, Eq, Structural)]
pub enum ObjectType {
    Metadata,
    Node,
    Device,
    Other,
}

/// An announced object with those of its properties that matter here.
pub struct GlobalObject {
    pub id: u32,
    pub type_: ObjectType,
    /// The property `metadata.name`.
    pub metadata_name: Option<String>,
    /// The property `device.id`.
    pub device_id: Option<String>,
    /// The property `media.class`.
    pub media_class: Option<String>,
}

/// How an object is asked for: by number and kind, in its first version, with no permissions and
/// no properties.
#[derive(Debug, PartialEq, Eq)]
pub struct Binding {
    pub id: u32,
    pub permissions: u32,
    pub type_: ObjectType,
    pub version: u32,
    /// Keys and values, if any are given.
    pub props: Option<Vec<(String, String)>>,
}

/// The request that asks for nothing but the object `id`.
pub open spec fn plain_binding(type_: ObjectType, id: u32) -> Binding {
    Binding { id, permissions: 0, type_, version: 0, props: None }
}

/// The request for object `id`.
pub fn bind(type_: ObjectType, id: u32) -> (res: Binding)
    ensures
        res == plain_binding(type_, id),
{
    Binding { id, permissions: 0, type_, version: 0, props: None }
}

/// The number that a property spells.
pub open spec fn number(text: Seq<char>) -> Option<u32> {
    match decimal_up_to(encode_utf8(text), u32::MAX as nat) {
        Some(n) => Some(n as u32),
        None => None,
    }
}

/// Reads the number that a property spells.
pub fn parse_number(text: &str) -> (res: Option<u32>)
    ensures
        res == number(text@),
{
    match parse_decimal(text.as_bytes(), u32::MAX as u64) {
        Some(n) => Some(n as u32),
        None => None,
    }
}

/// What the announcement of an object means: the metadata named `default` holds the default
/// devices; a node of class `Audio/Sink` with the number of its device is a sink.
pub open spec fn announced(global: GlobalObject) -> Option<Message> {
    match global.type_ {
        ObjectType::Metadata => match global.metadata_name {
            Some(name) if name@ == "default"@ => Some(Message::MetadataDefault(global.id)),
            _ => None,
        },
        ObjectType::Node => match (global.device_id, global.media_class) {
            (Some(device), Some(class)) if number(device@) is Some && class@ == "Audio/Sink"@ => Some(
                Message::Node { id: global.id, device_id: number(device@).unwrap() },
            ),
            _ => None,
        },
        _ => None,
    }
}

/// Tells what the announcement of an object means, if anything.
pub fn dispatch_global(global: &GlobalObject) -> (res: Option<Message>)
    ensures
        res == announced(*global),
{
    match global.type_ {
        ObjectType::Metadata => match &global.metadata_name {
            Some(name) => {
                if same_text(name.as_str(), "default") {
                    Some(Message::MetadataDefault(global.id))
                } else {
                    None
                }
            },
            None => None,
        },
        ObjectType::Node => match (&global.device_id, &global.media_class) {
            (Some(device), Some(class)) => {
                match parse_number(device.as_str()) {
                    Some(device_id) => {
                        if same_text(class.as_str(), "Audio/Sink") {
                            Some(Message::Node { id: global.id, device_id })
                        } else {
                            None
                        }
                    },
                    None => None,
                }
            },
            _ => None,
        },
        _ => None,
    }
}

/// `s` without its first and its last byte.
pub open spec fn inner(s: Seq<u8>) -> Seq<u8> {
    s.subrange(1, s.len() - 1)
}

/// The value of a one-entry object such as `{"name":"value"}`: what stands behind the first
/// colon, without the quotes around it.
pub open spec fn json_value(s: Seq<u8>) -> Option<Seq<u8>> {
    if s.len() < 2 {
        None
    } else {
        match split_once_spec(inner(s), 0x3a) {
            Some((_, value)) if value.len() >= 2 && valid_utf8(inner(value)) => Some(inner(value)),
            _ => None,
        }
    }
}

/// Takes bytes as text where they are that.
fn to_text(bytes: &[u8]) -> (res: Option<String>)
    ensures
        match res {
            Some(s) => valid_utf8(bytes@) && encode_utf8(s@) == bytes@,
            None => !valid_utf8(bytes@),
        },
{
    match String::from_utf8(vstd::slice::slice_to_vec(bytes)) {
        Ok(s) => Some(s),
        Err(_) => None,
    }
}

/// Reads the value of a one-entry object, where there is one.
pub fn try_parse_json(x: &str) -> (res: Option<String>)
    ensures
        match res {
            Some(value) => json_value(encode_utf8(x@)) == Some(encode_utf8(value@)),
            None => json_value(encode_utf8(x@)) is None,
        },
{
    let bytes = x.as_bytes();
    if bytes.len() < 2 {
        return None;
    }
    match split_once(slice_subrange(bytes, 1, bytes.len() - 1), 0x3a) {
        Some((_, value)) => {
            if value.len() < 2 {
                None
            } else {
                to_text(slice_subrange(value, 1, value.len() - 1))
            }
        },
        None => None,
    }
}

/// Reads the value of a one-entry object.
pub fn parse_json(x: &str) -> (res: String)
    requires
        json_value(encode_utf8(x@)) is Some,
    ensures
        json_value(encode_utf8(x@)) == Some(encode_utf8(res@)),
{
    try_parse_json(x).unwrap()
}

/// Whether a property of the metadata names the default sink.
pub open spec fn names_default_sink(
    key: Option<Seq<char>>,
    type_: Option<Seq<char>>,
    value: Option<Seq<char>>,
) -> bool {
    key == Some("default.audio.sink"@) && type_ == Some("Spa:String:JSON"@) && value is Some
}

/// The model of an optional borrowed text.
pub open spec fn str_view(text: Option<&str>) -> Option<Seq<char>> {
    match text {
        Some(t) => Some(t@),
        None => None,
    }
}

/// Tells whether an optional text is `expected`.
fn is_text(text: Option<&str>, expected: &str) -> (res: bool)
    ensures
        res == (str_view(text) == Some(expected@)),
{
    match text {
        Some(t) => same_text(t, expected),
        None => false,
    }
}

/// Whether a property of the metadata can be read: where it names the default sink, there is a
/// name in it.
pub fn readable_property(key: Option<&str>, type_: Option<&str>, value: Option<&str>) -> (res: bool)
    ensures
        res == (names_default_sink(str_view(key), str_view(type_), str_view(value)) ==> json_value(
            encode_utf8(value.unwrap()@),
        ) is Some),
{
    if is_text(key, "default.audio.sink") && is_text(type_, "Spa:String:JSON") {
        match value {
            Some(x) => try_parse_json(x).is_some(),
            None => true,
        }
    } else {
        true
    }
}

/// Tells what a property of the metadata means: the name of the default sink, or nothing.
pub fn metadata_property(key: Option<&str>, type_: Option<&str>, value: Option<&str>) -> (res: Option<
    Message,
>)
    requires
        names_default_sink(str_view(key), str_view(type_), str_view(value)) ==> json_value(
            encode_utf8(value.unwrap()@),
        ) is Some,
    ensures
        res is Some <==> names_default_sink(str_view(key), str_view(type_), str_view(value)),
        res matches Some(message) ==> (message matches Message::DefaultSink(name) && json_value(
            encode_utf8(value.unwrap()@),
        ) == Some(encode_utf8(name@))),
{
    if is_text(key, "default.audio.sink") && is_text(type_, "Spa:String:JSON") {
        match value {
            Some(x) => Some(Message::DefaultSink(parse_json(x))),
            None => None,
        }
    } else {
        None
    }
}

/// The text of a string value: what stands between the eight bytes of its header and the zero
/// at its end.
pub open spec fn string_value(pod: Seq<u8>) -> Option<Seq<u8>> {
    if pod.len() >= 9 && valid_utf8(pod.subrange(8, pod.len() - 1)) {
        Some(pod.subrange(8, pod.len() - 1))
    } else {
        None
    }
}

/// Reads the description of a device's route, where the value holds one.
pub fn try_route_description(pod: &[u8]) -> (res: Option<String>)
    ensures
        match res {
            Some(desc) => string_value(pod@) == Some(encode_utf8(desc@)),
            None => string_value(pod@) is None,
        },
{
    if pod.len() < 9 {
        None
    } else {
        to_text(slice_subrange(pod, 8, pod.len() - 1))
    }
}

/// Reports the description of the route of the device that node `node_id` belongs to.
pub fn device_route(node_id: u32, pod: &[u8]) -> (res: Message)
    requires
        string_value(pod@) is Some,
    ensures
        res matches Message::DeviceRoute { node_id: id, desc } && id == node_id && string_value(pod@)
            == Some(encode_utf8(desc@)),
{
    Message::DeviceRoute { node_id, desc: try_route_description(pod).unwrap() }
}

/// Those properties of a node that matter here.
pub struct NodeProps {
    /// The property `node.driver-id`.
    pub driver_id: Option<String>,
    /// The property `node.name`.
    pub name: Option<String>,
    /// The property `media.name`.
    pub media_name: Option<String>,
    /// The property `alsa.card_name`.
    pub card_name: Option<String>,
}

/// What the properties of node `id` report: its driver, where it has one, and its names. It is
/// shown under the name of its media, or else of its card.
pub open spec fn node_reports(id: u32, device_id: u32, props: NodeProps) -> Seq<Message> {
    let names = Message::NodeInfo {
        id,
        name: props.name,
        display: if props.media_name is Some {
            props.media_name
        } else {
            props.card_name
        },
    };
    match props.driver_id {
        Some(driver) => seq![
            Message::NodeDriver {
                input_id: id,
                device_id,
                driver_id: number(driver@).unwrap(),
            },
            names,
        ],
        None => seq![names],
    }
}

/// Reports what the properties of node `id` say.
pub fn node_info(id: u32, device_id: u32, props: NodeProps) -> (res: Vec<Message>)
    requires
        props.driver_id matches Some(driver) ==> number(driver@) is Some,
    ensures
        res@ == node_reports(id, device_id, props),
{
    let mut res: Vec<Message> = Vec::new();
    if let Some(driver) = &props.driver_id {
        let driver_id = parse_number(driver.as_str()).unwrap();
        res.push(Message::NodeDriver { input_id: id, device_id, driver_id });
    }
    let display = match props.media_name {
        Some(media) => Some(media),
        None => props.card_name,
    };
    res.push(Message::NodeInfo { id, name: props.name, display });
    res
}

/// One parameter of a node.
pub enum Prop {
    /// The channels' volumes, taken together.
    ChannelVolumes(Level),
    Mute(bool),
    Other,
}

/// The last volume among the parameters.
pub open spec fn last_volume(props: Seq<Prop>) -> Option<Level>
    decreases props.len(),
{
    if props.len() == 0 {
        None
    } else {
        match props.last() {
            Prop::ChannelVolumes(level) => Some(level),
            _ => last_volume(props.drop_last()),
        }
    }
}

/// The last mute switch among the parameters.
pub open spec fn last_mute(props: Seq<Prop>) -> Option<bool>
    decreases props.len(),
{
    if props.len() == 0 {
        None
    } else {
        match props.last() {
            Prop::Mute(mute) => Some(mute),
            _ => last_mute(props.drop_last()),
        }
    }
}

/// The report of what is told of node `id`.
pub open spec fn props_report(id: u32, props: Seq<Prop>) -> Message {
    Message::Props { id, volume: last_volume(props), mute: last_mute(props) }
}

/// Reports the volume and the mute switch of node `id`; where one comes twice, the last counts.
pub fn node_props(id: u32, props: &Vec<Prop>) -> (res: Message)
    ensures
        res == props_report(id, props@),
{
    let mut volume: Option<Level> = None;
    let mut mute: Option<bool> = None;
    let mut i: usize = 0;
    while i < props.len()
        invariant
            i <= props.len(),
            volume == last_volume(props@.take(i as int)),
            mute == last_mute(props@.take(i as int)),
        decreases props.len() - i,
    {
        assert(props@.take(i + 1).drop_last() =~= props@.take(i as int));
        match &props[i] {
            Prop::ChannelVolumes(level) => {
                volume = Some(level.clone());
            },
            Prop::Mute(on) => {
                mute = Some(*on);
            },
            Prop::Other => {},
        }
        i = i + 1;
    }
    assert(props@.take(props.len() as int) =~= props@);
    Message::Props { id, volume, mute }
}

} // verus!
