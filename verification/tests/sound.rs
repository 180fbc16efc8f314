use hyoka::pipewire::consumer::{Command, Consumer};
use hyoka::pipewire::{
    bind, device_route, dispatch_global, metadata_property, node_info, node_props, parse_json,
    parse_number, readable_property, try_parse_json, try_route_description, Event, GlobalObject, Level, Message, NodeProps,
    ObjectType, Prop,
};

fn level(value: f32) -> Level {
    Level { bits: value.to_bits(), percent: format!("{:.0}", value * 100.0) }
}

fn text(s: &str) -> Option<String> {
    Some(s.to_string())
}

fn show(commands: &Vec<Command>) -> Vec<String> {
    commands
        .iter()
        .map(|c| match c {
            Command::BindDevice { device_id, node_id } => format!("device {device_id} for {node_id}"),
            Command::BindNode { id, device_id } => format!("node {id} of {device_id}"),
            Command::Release(id) => format!("release {id}"),
            Command::BindMetadata(id) => format!("metadata {id}"),
            Command::Dispatch(Event::DefaultChanged { display, route }) => {
                format!("default {display} through {route}")
            }
            Command::Dispatch(Event::Volume(level)) => format!("volume {}", level.percent),
            Command::Dispatch(Event::Mute(on)) => format!("mute {on}"),
        })
        .collect()
}

fn object(type_: ObjectType) -> GlobalObject {
    GlobalObject { id: 7, type_, metadata_name: None, device_id: None, media_class: None }
}

#[test]
fn an_object_is_bound_by_number_and_kind() {
    let binding = bind(ObjectType::Device, 41);
    assert_eq!(binding.id, 41);
    assert_eq!(binding.type_, ObjectType::Device);
    assert_eq!(binding.permissions, 0);
    assert_eq!(binding.version, 0);
    assert_eq!(binding.props, None);
}

#[test]
fn the_default_metadata_is_announced() {
    let mut global = object(ObjectType::Metadata);
    assert!(dispatch_global(&global).is_none());
    global.metadata_name = text("settings");
    assert!(dispatch_global(&global).is_none());
    global.metadata_name = text("default");
    assert!(matches!(dispatch_global(&global), Some(Message::MetadataDefault(7))));
}

#[test]
fn sinks_are_announced() {
    let mut global = object(ObjectType::Node);
    global.media_class = text("Audio/Sink");
    assert!(dispatch_global(&global).is_none());
    global.device_id = text("x");
    assert!(dispatch_global(&global).is_none());
    global.device_id = text("12");
    assert!(matches!(dispatch_global(&global), Some(Message::Node { id: 7, device_id: 12 })));
    global.media_class = text("Audio/Source");
    assert!(dispatch_global(&global).is_none());
    global.type_ = ObjectType::Device;
    global.media_class = text("Audio/Sink");
    assert!(dispatch_global(&global).is_none());
}

#[test]
fn numbers_are_read() {
    assert_eq!(parse_number("4294967295"), Some(4294967295));
    assert_eq!(parse_number("4294967296"), None);
    assert_eq!(parse_number(""), None);
}

#[test]
fn a_value_is_read_out_of_an_object() {
    assert_eq!(parse_json("{\"name\":\"alsa_output.pci\"}"), "alsa_output.pci");
    assert_eq!(parse_json("{\"name\":\"Ohrhörer\"}"), "Ohrhörer");
    assert_eq!(try_parse_json("{\"name\"}"), None);
    assert_eq!(try_parse_json("{:\"}"), None);
    assert_eq!(try_parse_json("x"), None);
    assert_eq!(try_parse_json("{\"a\":éé}"), None);
}

#[test]
fn the_metadata_names_the_default_sink() {
    let value = Some("{\"name\":\"a\"}");
    match metadata_property(Some("default.audio.sink"), Some("Spa:String:JSON"), value) {
        Some(Message::DefaultSink(name)) => assert_eq!(name, "a"),
        _ => panic!("no sink"),
    }
    assert!(metadata_property(Some("default.audio.source"), Some("Spa:String:JSON"), value).is_none());
    assert!(metadata_property(Some("default.audio.sink"), Some("Spa:String"), value).is_none());
    assert!(metadata_property(Some("default.audio.sink"), Some("Spa:String:JSON"), None).is_none());
    assert!(metadata_property(None, None, None).is_none());
    let (key, type_) = (Some("default.audio.sink"), Some("Spa:String:JSON"));
    assert!(readable_property(key, type_, value));
    assert!(readable_property(key, type_, None));
    assert!(!readable_property(key, type_, Some("x")));
    assert!(readable_property(None, type_, Some("x")));
}

#[test]
fn a_route_is_described() {
    let pod = b"\x0b\0\0\0\x08\0\0\0Headphones\0";
    match device_route(3, pod) {
        Message::DeviceRoute { node_id: 3, desc } => assert_eq!(desc, "Headphones"),
        _ => panic!("no route"),
    }
    assert_eq!(try_route_description(b"\0\0\0\0\0\0\0\0\0"), text(""));
    assert_eq!(try_route_description(b"\0\0\0\0\0\0\0\0"), None);
    assert_eq!(try_route_description(b"\0\0\0\0\0\0\0\0\xff\0"), None);
}

#[test]
fn a_node_reports_driver_and_names() {
    let props = NodeProps {
        driver_id: text("9"),
        name: text("sink"),
        media_name: None,
        card_name: text("card"),
    };
    let list = node_info(5, 2, props);
    assert_eq!(list.len(), 2);
    assert!(matches!(
        list[0],
        Message::NodeDriver { input_id: 5, device_id: 2, driver_id: 9 }
    ));
    match &list[1] {
        Message::NodeInfo { id: 5, name, display } => {
            assert_eq!(*name, text("sink"));
            assert_eq!(*display, text("card"));
        }
        _ => panic!("no names"),
    }
    let props = NodeProps {
        driver_id: None,
        name: None,
        media_name: text("media"),
        card_name: text("card"),
    };
    let list = node_info(5, 2, props);
    assert_eq!(list.len(), 1);
    match &list[0] {
        Message::NodeInfo { id: 5, name: None, display } => assert_eq!(*display, text("media")),
        _ => panic!("no names"),
    }
}

#[test]
fn the_last_parameter_counts() {
    let props = vec![
        Prop::ChannelVolumes(level(0.25)),
        Prop::Mute(true),
        Prop::Other,
        Prop::ChannelVolumes(level(0.5)),
        Prop::Mute(false),
    ];
    match node_props(4, &props) {
        Message::Props { id: 4, volume: Some(volume), mute: Some(false) } => {
            assert_eq!(volume.bits, 0.5f32.to_bits());
            assert_eq!(volume.percent, "50");
        }
        _ => panic!("no props"),
    }
    assert!(matches!(
        node_props(4, &vec![]),
        Message::Props { id: 4, volume: None, mute: None }
    ));
}

/// A consumer that knows sink 1 of device 10, called `speaker`.
fn with_speaker() -> Consumer {
    let mut consumer = Consumer::new();
    assert_eq!(
        show(&consumer.handle(Message::Node { id: 1, device_id: 10 })),
        ["device 10 for 1", "node 1 of 10"]
    );
    assert!(consumer.handle(Message::MetadataDefault(30)).is_empty());
    assert!(consumer.handle(Message::Done).is_empty());
    assert_eq!(
        show(&consumer.handle(Message::NodeInfo { id: 1, name: text("speaker"), display: text("Speaker") })),
        ["metadata 30"]
    );
    consumer
}

#[test]
fn a_device_is_bound_once() {
    let mut consumer = Consumer::new();
    consumer.handle(Message::Node { id: 1, device_id: 10 });
    assert_eq!(
        show(&consumer.handle(Message::Node { id: 2, device_id: 10 })),
        ["node 2 of 10"]
    );
    assert_eq!(show(&consumer.handle(Message::GlobalRemove(10))), ["release 10"]);
    assert_eq!(
        show(&consumer.handle(Message::Node { id: 3, device_id: 10 })),
        ["device 10 for 3", "node 3 of 10"]
    );
}

#[test]
fn the_metadata_waits_for_all_names() {
    let mut consumer = Consumer::new();
    consumer.handle(Message::Node { id: 1, device_id: 10 });
    consumer.handle(Message::Node { id: 2, device_id: 10 });
    consumer.handle(Message::MetadataDefault(30));
    assert!(consumer
        .handle(Message::NodeInfo { id: 1, name: None, display: None })
        .is_empty());
    assert!(consumer
        .handle(Message::NodeInfo { id: 2, name: None, display: None })
        .is_empty());
    consumer.handle(Message::Done);
    assert_eq!(
        show(&consumer.handle(Message::NodeInfo { id: 2, name: None, display: None })),
        ["metadata 30"]
    );
}

#[test]
fn a_switch_tells_what_was_reported() {
    let mut consumer = with_speaker();
    consumer.handle(Message::DeviceRoute { node_id: 1, desc: "Headphones".to_string() });
    assert!(consumer
        .handle(Message::Props { id: 1, volume: Some(level(0.4)), mute: Some(false) })
        .is_empty());
    assert!(consumer.handle(Message::DefaultSink("other".to_string())).is_empty());
    assert_eq!(
        show(&consumer.handle(Message::DefaultSink("speaker".to_string()))),
        ["default Speaker through Headphones", "volume 40", "mute false"]
    );
    assert!(consumer.handle(Message::DefaultSink("speaker".to_string())).is_empty());
}

#[test]
fn only_changes_of_the_default_sink_are_told() {
    let mut consumer = with_speaker();
    consumer.handle(Message::DefaultSink("speaker".to_string()));
    let props = |v: f32, m: bool| Message::Props { id: 1, volume: Some(level(v)), mute: Some(m) };
    assert_eq!(show(&consumer.handle(props(0.4, false))), ["volume 40", "mute false"]);
    assert!(consumer.handle(props(0.4, false)).is_empty());
    assert_eq!(show(&consumer.handle(props(0.5, false))), ["volume 50"]);
    assert_eq!(show(&consumer.handle(props(0.5, true))), ["mute true"]);
    consumer.handle(Message::Node { id: 2, device_id: 11 });
    assert!(consumer
        .handle(Message::Props { id: 2, volume: Some(level(0.9)), mute: Some(true) })
        .is_empty());
}

#[test]
fn no_number_is_never_the_same() {
    let mut consumer = with_speaker();
    consumer.handle(Message::DefaultSink("speaker".to_string()));
    let props = || Message::Props { id: 1, volume: Some(level(f32::NAN)), mute: None };
    assert_eq!(consumer.handle(props()).len(), 1);
    assert_eq!(consumer.handle(props()).len(), 1);
}

#[test]
fn a_driver_reports_for_its_input() {
    let mut consumer = with_speaker();
    consumer.handle(Message::DefaultSink("speaker".to_string()));
    assert_eq!(
        show(&consumer.handle(Message::NodeDriver { input_id: 1, device_id: 10, driver_id: 5 })),
        ["node 5 of 10"]
    );
    assert_eq!(consumer.get_input(5), 1);
    assert_eq!(consumer.get_input(1), 1);
    assert_eq!(
        show(&consumer.handle(Message::Props { id: 5, volume: Some(level(1.0)), mute: None })),
        ["volume 100"]
    );
}

#[test]
fn a_chain_of_inputs_may_have_no_end() {
    let mut consumer = with_speaker();
    consumer.handle(Message::NodeDriver { input_id: 6, device_id: 10, driver_id: 5 });
    assert_eq!(consumer.find_input(5), None);
    consumer.handle(Message::NodeDriver { input_id: 5, device_id: 10, driver_id: 6 });
    assert_eq!(consumer.find_input(5), None);
    assert_eq!(consumer.find_input(1), Some(1));
    assert_eq!(consumer.find_input(99), None);
}
