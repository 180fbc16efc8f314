use hyoka::battery::BatteryEvent;
use hyoka::charging::ChargingStatus;
use hyoka::events::{from_kernel, AppEvent};
use hyoka::uevent::{events, parse_message, read_message, readable, Event};

#[test]
fn a_message_is_a_head_and_pairs() {
    let (head, body) = parse_message(b"change@/devices/x\0ACTION=change\0SUBSYSTEM=backlight\0").unwrap();
    assert_eq!(head, b"change@/devices/x");
    assert_eq!(
        body,
        vec![(&b"ACTION"[..], &b"change"[..]), (&b"SUBSYSTEM"[..], &b"backlight"[..])]
    );
}

#[test]
fn a_body_ends_where_a_line_is_no_pair() {
    let (head, body) = parse_message(b"h\0A=1\0nothing\0B=2").unwrap();
    assert_eq!(head, b"h");
    assert_eq!(body, vec![(&b"A"[..], &b"1"[..])]);
    let (head, body) = parse_message(b"").unwrap();
    assert_eq!(head, b"");
    assert!(body.is_empty());
}

#[test]
fn a_composed_message_reads_back() {
    let mut data = b"add@/x".to_vec();
    for (k, v) in [("A", "1"), ("B", "x=y"), ("C", "")] {
        data.push(0);
        data.extend_from_slice(k.as_bytes());
        data.push(b'=');
        data.extend_from_slice(v.as_bytes());
    }
    let (_, body) = parse_message(&data).unwrap();
    assert_eq!(
        body,
        vec![(&b"A"[..], &b"1"[..]), (&b"B"[..], &b"x=y"[..]), (&b"C"[..], &b""[..])]
    );
}

fn read(lines: &[&str]) -> Vec<Event> {
    let mut data = b"change@/x".to_vec();
    for line in lines {
        data.push(0);
        data.extend_from_slice(line.as_bytes());
    }
    let (_, body) = parse_message(&data).unwrap();
    assert!(readable(&body));
    let list = events(&body);
    assert_eq!(format!("{:?}", read_message(&data)), format!("{list:?}"));
    list
}

#[test]
fn a_battery_tells_capacity_and_status() {
    let list = read(&[
        "SUBSYSTEM=power_supply",
        "POWER_SUPPLY_TYPE=Battery",
        "POWER_SUPPLY_CAPACITY=42",
        "POWER_SUPPLY_STATUS=Charging",
        "POWER_SUPPLY_ONLINE=1",
    ]);
    assert_eq!(format!("{list:?}"), "[BatCapacity(42), BatStatus(Charging)]");
}

#[test]
fn a_power_line_tells_whether_it_is_online() {
    let on = read(&["SUBSYSTEM=power_supply", "POWER_SUPPLY_TYPE=Mains", "POWER_SUPPLY_ONLINE=1"]);
    assert_eq!(format!("{on:?}"), "[PowerOnline]");
    let off = read(&["SUBSYSTEM=power_supply", "POWER_SUPPLY_ONLINE=0"]);
    assert_eq!(format!("{off:?}"), "[PowerOffline]");
    let other = read(&["SUBSYSTEM=power_supply", "POWER_SUPPLY_ONLINE="]);
    assert_eq!(format!("{other:?}"), "[PowerOnline]");
    assert!(read(&["SUBSYSTEM=power_supply", "POWER_SUPPLY_CAPACITY=7"]).is_empty());
}

#[test]
fn a_backlight_tells_only_that_it_changed() {
    let list = read(&["SUBSYSTEM=backlight", "POWER_SUPPLY_TYPE=Battery", "POWER_SUPPLY_CAPACITY=7"]);
    assert_eq!(format!("{list:?}"), "[Backlight]");
    assert!(read(&["SUBSYSTEM=usb", "POWER_SUPPLY_ONLINE=1"]).is_empty());
    assert!(read(&["POWER_SUPPLY_ONLINE=1"]).is_empty());
}

#[test]
fn the_last_value_counts() {
    let list = read(&[
        "SUBSYSTEM=backlight",
        "SUBSYSTEM=power_supply",
        "SUBSYSTEM=usb",
        "POWER_SUPPLY_TYPE=Battery",
        "POWER_SUPPLY_TYPE=Mains",
        "POWER_SUPPLY_CAPACITY=7",
        "POWER_SUPPLY_CAPACITY=8",
    ]);
    assert_eq!(format!("{list:?}"), "[BatCapacity(8)]");
}

#[test]
fn a_capacity_must_be_a_small_number() {
    for value in ["x", "", "256", "-1"] {
        let data = format!("h\0POWER_SUPPLY_CAPACITY={value}");
        let (_, body) = parse_message(data.as_bytes()).unwrap();
        assert!(!readable(&body), "{value}");
    }
    let (_, body) = parse_message(b"h\0POWER_SUPPLY_CAPACITY=255").unwrap();
    assert!(readable(&body));
}

#[test]
fn statuses_have_the_kernels_names() {
    assert!(ChargingStatus::from_bytes(b"Charging") == ChargingStatus::Charging);
    assert!(ChargingStatus::from_bytes(b"Discharging") == ChargingStatus::Discharging);
    assert!(ChargingStatus::from_bytes(b"Not charging") == ChargingStatus::NotCharging);
    assert!(ChargingStatus::from_bytes(b"Full") == ChargingStatus::Full);
    assert!(ChargingStatus::from_bytes(b"full") == ChargingStatus::Unknown);
    assert!(ChargingStatus::Full != ChargingStatus::Charging);
}

#[test]
fn news_from_the_kernel_become_events() {
    assert!(matches!(
        from_kernel(Event::PowerOnline),
        AppEvent::Battery(BatteryEvent::PowerOnline)
    ));
    assert!(matches!(
        from_kernel(Event::PowerOffline),
        AppEvent::Battery(BatteryEvent::PowerOffline)
    ));
    assert!(matches!(
        from_kernel(Event::BatCapacity(9)),
        AppEvent::Battery(BatteryEvent::Capacity(9))
    ));
    assert!(matches!(
        from_kernel(Event::BatStatus(ChargingStatus::Full)),
        AppEvent::Battery(BatteryEvent::Status(ChargingStatus::Full))
    ));
    assert!(matches!(from_kernel(Event::Backlight), AppEvent::Backlight));
}
