use arrayvec::ArrayVec;
use hyoka::backlight::{first_device, is_device, wanted_icon, BacklightStatus};
use hyoka::battery::{BatteryEvent, BatteryStatus};
use hyoka::charging::ChargingStatus;
use hyoka::clock::ClockFace;
use hyoka::icons::{Handle, IconCache};
use hyoka::pipewire::{Event, Level};
use hyoka::tooltip::{below, outgrows, Edge, Extent, Shaping, TooltipContent, TooltipToken};
use hyoka::tray::{TrayItem, TrayItems};
use hyoka::volume::{Volume, FULL, LOW, MEDIUM};

fn battery(status: ChargingStatus, capacity: u8) -> BatteryStatus {
    BatteryStatus::new(status, capacity, &mut IconCache::new(), None)
}

#[test]
fn a_battery_has_an_icon_for_each_level() {
    assert_eq!(battery(ChargingStatus::Discharging, 0).icon(), "battery-level-0-symbolic");
    assert_eq!(battery(ChargingStatus::Discharging, 9).icon(), "battery-level-0-symbolic");
    assert_eq!(battery(ChargingStatus::Discharging, 10).icon(), "battery-level-10-symbolic");
    assert_eq!(battery(ChargingStatus::Charging, 57).icon(), "battery-level-50-charging-symbolic");
    assert_eq!(battery(ChargingStatus::Unknown, 98).icon(), "battery-level-90-symbolic");
}

#[test]
fn a_full_battery_counts_as_charged() {
    let icon = "battery-level-100-charged-symbolic";
    assert_eq!(battery(ChargingStatus::Full, 50).icon(), icon);
    assert_eq!(battery(ChargingStatus::Discharging, 99).icon(), icon);
    assert_eq!(battery(ChargingStatus::Charging, 100).icon(), icon);
    assert!(battery(ChargingStatus::Full, 1).charged());
    assert!(!battery(ChargingStatus::Charging, 98).charged());
}

#[test]
fn the_power_line_charges_the_battery() {
    let mut bat = battery(ChargingStatus::NotCharging, 30);
    assert!(!bat.charging());
    assert!(bat.apply(BatteryEvent::PowerOnline));
    assert!(bat.charging());
    assert!(!bat.apply(BatteryEvent::PowerOnline));
    assert!(bat.apply(BatteryEvent::PowerOffline));
    assert!(!bat.charging());
    assert!(bat.apply(BatteryEvent::Status(ChargingStatus::Charging)));
    assert!(bat.charging());
    assert!(!bat.apply(BatteryEvent::Status(ChargingStatus::Charging)));
    assert!(bat.apply(BatteryEvent::Capacity(31)));
    assert!(!bat.apply(BatteryEvent::Capacity(31)));
    assert_eq!(bat.copy().capacity.0, 31);
}

#[test]
fn a_batterys_icon_is_loaded() {
    let mut cache = IconCache::new();
    let mut bat = BatteryStatus::new(ChargingStatus::Full, 100, &mut cache, Some(Handle::Svg(1)));
    assert_eq!(bat.icon, Some(Handle::Svg(1)));
    assert!(bat.wanted_icon(&cache).is_none());
    bat.apply(BatteryEvent::Status(ChargingStatus::Discharging));
    bat.apply(BatteryEvent::Capacity(20));
    let request = bat.wanted_icon(&cache).unwrap();
    assert_eq!(request.key, "battery-level-20-symbolic");
    assert!(request.symbolic);
    bat.load_icon(&mut cache, Some(Handle::Svg(2)));
    assert_eq!(bat.icon, Some(Handle::Svg(2)));
}

#[test]
fn a_backlight_has_three_icons() {
    let mut cache = IconCache::new();
    let mut light = BacklightStatus::new(32, &mut cache, Some(Handle::Svg(1)));
    assert_eq!(light.icon(), "display-brightness-low-symbolic");
    assert_eq!(wanted_icon(33, &cache).unwrap().key, "display-brightness-medium-symbolic");
    light.update(33, &mut cache, Some(Handle::Svg(2)));
    assert_eq!(light.icon(), "display-brightness-medium-symbolic");
    assert_eq!(light.icon, Some(Handle::Svg(2)));
    light.update(65, &mut cache, None);
    assert_eq!(light.icon, Some(Handle::Svg(2)));
    light.update(66, &mut cache, None);
    assert_eq!(light.icon(), "display-brightness-high-symbolic");
    assert_eq!(light.icon, None);
    let content = light.tooltip();
    assert_eq!(content.text, "66");
    assert_eq!(content.token, TooltipToken::Backlight);
}

#[test]
fn hidden_entries_are_no_devices() {
    assert!(!is_device(b"."));
    assert!(!is_device(b".."));
    assert!(!is_device(b".x"));
    assert!(is_device(b"intel_backlight"));
    assert!(is_device(b""));
}

#[test]
fn the_first_device_is_found() {
    let names = |list: &[&str]| list.iter().map(|x| x.as_bytes().to_vec()).collect::<Vec<_>>();
    assert_eq!(first_device(&names(&[".", "..", "intel", "amd"])), Some(2));
    assert_eq!(first_device(&names(&["amd", "."])), Some(0));
    assert_eq!(first_device(&names(&[".", ".."])), None);
    assert_eq!(first_device(&names(&[])), None);
}

fn level(value: f32) -> Level {
    Level { bits: value.to_bits(), percent: format!("{:.0}", value * 100.0) }
}

fn volume(value: f32) -> Volume {
    let mut volume = Volume::new();
    volume.apply(Event::Mute(false));
    volume.apply(Event::Volume(level(value)));
    volume
}

#[test]
fn the_limits_of_volume_are_these() {
    assert_eq!(LOW, 0.33f32.to_bits());
    assert_eq!(MEDIUM, 0.67f32.to_bits());
    assert_eq!(FULL, 1.0f32.to_bits());
}

#[test]
fn volumes_have_icons() {
    assert_eq!(volume(0.0).icon(), Some("audio-volume-low-symbolic"));
    assert_eq!(volume(-1.0).icon(), Some("audio-volume-low-symbolic"));
    assert_eq!(volume(0.32).icon(), Some("audio-volume-low-symbolic"));
    assert_eq!(volume(0.33).icon(), Some("audio-volume-medium-symbolic"));
    assert_eq!(volume(0.67).icon(), Some("audio-volume-medium-symbolic"));
    assert_eq!(volume(0.68).icon(), Some("audio-volume-high-symbolic"));
    assert_eq!(volume(1.0).icon(), Some("audio-volume-high-symbolic"));
    assert_eq!(volume(1.1).icon(), Some("audio-volume-overamplified-symbolic"));
    assert_eq!(volume(f32::NAN).icon(), None);
}

#[test]
fn a_sink_is_shown_by_route_then_muteness() {
    let mut sink = Volume::new();
    assert_eq!(sink.icon(), None);
    assert!(sink.tooltip().is_none());
    sink.apply(Event::Volume(level(0.5)));
    assert_eq!(sink.icon(), None);
    sink.apply(Event::Mute(true));
    assert_eq!(sink.icon(), Some("audio-volume-muted-symbolic"));
    assert_eq!(sink.tooltip().unwrap().text, "Muted");
    sink.apply(Event::Mute(false));
    assert_eq!(sink.tooltip().unwrap().text, "50");
    sink.apply(Event::DefaultChanged { display: "d".to_string(), route: "Headphones".to_string() });
    assert_eq!(sink.icon(), Some("headphones-symbolic"));
    assert_eq!(sink.display, "d");
}

#[test]
fn a_volumes_icon_stays_where_none_can_be_told() {
    let mut cache = IconCache::new();
    let mut sink = volume(0.5);
    sink.load_icon(&mut cache, Some(Handle::Svg(4)));
    assert_eq!(sink.icon, Some(Handle::Svg(4)));
    let request = sink.wanted_icon(&Event::Mute(true), &cache).unwrap();
    assert_eq!(request.key, "audio-volume-muted-symbolic");
    assert_eq!(request.size, 16);
    assert!(sink.wanted_icon(&Event::Volume(level(0.4)), &cache).is_none());
    assert!(sink.wanted_icon(&Event::Volume(level(f32::NAN)), &cache).is_none());
    sink.apply(Event::Volume(level(f32::NAN)));
    sink.load_icon(&mut cache, None);
    assert_eq!(sink.icon, Some(Handle::Svg(4)));
}

#[test]
fn tooltips_are_drawn_by_what_they_are_about() {
    let content = TooltipContent { token: TooltipToken::WindowInfo, text: " a \n".to_string() };
    let text = content.draw();
    assert_eq!((text.text, text.padding, text.shaping), (" a", 13, Shaping::Auto));
    let content = TooltipContent { token: TooltipToken::Volume, text: "50 ".to_string() };
    let text = content.draw();
    assert_eq!((text.text, text.padding, text.shaping), ("50 ", 10, Shaping::Basic));
}

#[test]
fn popups_open_below() {
    let place = below(5, 36);
    assert_eq!((place.x, place.y, place.width, place.height), (5, 36, 1, 1));
    assert_eq!((place.anchor, place.gravity), (Edge::Bottom, Edge::Bottom));
    assert!(place.slide_x && place.slide_y);
}

#[test]
fn contents_grow_in_either_direction() {
    let extent = |w: f32, h: f32| Extent { width: w.to_bits(), height: h.to_bits() };
    assert!(outgrows(extent(1.0, 2.0), extent(1.5, 2.0)));
    assert!(outgrows(extent(1.0, 2.0), extent(0.5, 2.5)));
    assert!(!outgrows(extent(1.0, 2.0), extent(1.0, 2.0)));
    assert!(!outgrows(extent(1.0, 2.0), extent(0.5, f32::NAN)));
}

#[test]
fn tray_items_come_and_go() {
    let mut tray = TrayItems::new();
    assert!(tray.shown().is_empty());
    tray.insert("a".to_string(), TrayItem { icon: Some(Handle::Svg(1)) });
    tray.insert("b".to_string(), TrayItem { icon: None });
    assert_eq!(tray.shown(), vec![("a".to_string(), Handle::Svg(1))]);
    tray.set_icon("b", Some(Handle::Pixmap(2)));
    tray.set_icon("c", Some(Handle::Pixmap(3)));
    let mut shown = tray.shown();
    shown.sort_by(|x, y| x.0.cmp(&y.0));
    assert_eq!(
        shown,
        vec![("a".to_string(), Handle::Svg(1)), ("b".to_string(), Handle::Pixmap(2))]
    );
    tray.remove("a");
    assert_eq!(tray.shown(), vec![("b".to_string(), Handle::Pixmap(2))]);
    tray.clear();
    assert!(tray.shown().is_empty());
}

#[test]
fn a_clock_is_written_out() {
    let mut date = ArrayVec::new();
    for b in b"Nov 15" {
        date.push(*b);
    }
    let clock = ClockFace { date, time: *b"12:34:56", weekday: "Sun" };
    assert_eq!(clock.date_text(), "Nov 15");
    assert_eq!(clock.time_text(), "12:34:56");
    assert!(clock.is_legible());
    let mut date = ArrayVec::new();
    date.push(0xff);
    assert!(!ClockFace { date, time: *b"12:34:56", weekday: "Sun" }.is_legible());
}
