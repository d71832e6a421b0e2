use punchtop::backend::chromecast::media_server::{cover_route, media_route, Error as ServerError};
use punchtop::backend::chromecast::{cast_addr, CastAddr, Devices, IpAddress, Record, CHROMECAST_NAME_KEY, SERVICE_NAME};
use punchtop::backend::local::{computer_name, device_name};
use punchtop::backend::Error as BackendError;
use punchtop::playlist::fs::Track;

fn txt(entries: &[&str]) -> Record {
    Record::Txt(entries.iter().map(|s| s.to_string()).collect())
}

#[test]
fn records_with_name_address_and_port_give_a_device() {
    let records = vec![
        Record::Other,
        txt(&["id=abc", "fn=Kitchen Home", "md=Chromecast"]),
        Record::Srv { port: 8009 },
        Record::A([192, 168, 1, 20]),
    ];
    let addr = cast_addr(&records).unwrap();
    assert_eq!(addr.name, "Kitchen Home");
    assert_eq!(addr.port, 8009);
    assert!(matches!(addr.ip, IpAddress::V4([192, 168, 1, 20])));
    assert_eq!(SERVICE_NAME, "_googlecast._tcp.local");
    assert_eq!(CHROMECAST_NAME_KEY, "fn");
}

#[test]
fn later_records_override_earlier_ones() {
    let records = vec![
        Record::A([10, 0, 0, 1]),
        txt(&["fn=Old"]),
        Record::Aaaa([0xfe80, 0, 0, 0, 0, 0, 0, 1]),
        Record::Srv { port: 1 },
        txt(&["md=no name here"]),
        Record::Srv { port: 8009 },
        txt(&["fn=New"]),
    ];
    let addr = cast_addr(&records).unwrap();
    assert_eq!(addr.name, "New");
    assert_eq!(addr.port, 8009);
    assert!(matches!(addr.ip, IpAddress::V6([0xfe80, 0, 0, 0, 0, 0, 0, 1])));
}

#[test]
fn incomplete_records_give_no_device() {
    assert!(cast_addr(&vec![]).is_none());
    assert!(cast_addr(&vec![Record::A([1, 2, 3, 4]), Record::Srv { port: 1 }]).is_none());
    assert!(cast_addr(&vec![txt(&["fn=X"]), Record::Srv { port: 1 }]).is_none());
    assert!(cast_addr(&vec![txt(&["fn=X"]), Record::A([1, 2, 3, 4])]).is_none());
    assert!(cast_addr(&vec![txt(&["fn X"]), Record::A([1, 2, 3, 4]), Record::Srv { port: 1 }]).is_none());
}

#[test]
fn devices_keep_one_address_per_name() {
    let mut devices = Devices::new();
    let a = CastAddr { name: "A".to_string(), ip: IpAddress::V4([1, 1, 1, 1]), port: 1 };
    let b = CastAddr { name: "B".to_string(), ip: IpAddress::V4([2, 2, 2, 2]), port: 2 };
    let a2 = CastAddr { name: "A".to_string(), ip: IpAddress::V4([3, 3, 3, 3]), port: 3 };
    assert!(devices.insert(a));
    assert!(devices.insert(b));
    assert!(!devices.insert(a2));
    assert_eq!(devices.len(), 2);
    let first = devices.next().unwrap();
    assert_eq!((first.name.as_str(), first.port), ("A", 1));
    assert_eq!(devices.next().unwrap().name, "B");
    assert!(devices.next().is_none());
}

#[test]
fn media_server_routes_use_the_track_id() {
    let track = Track::new("/m/a.mp3".to_string());
    assert_eq!(media_route(&track), format!("/media/{}", track.id()));
    assert_eq!(cover_route(&track), format!("/cover/{}", track.id()));
    assert_ne!(ServerError::NoBindPort, ServerError::NoBaseUrl);
    assert_ne!(BackendError::BackendNotInitialized, BackendError::CannotLoadMedia);
}

#[test]
fn local_device_name_falls_back_to_host_then_local() {
    assert!(computer_name().is_none());
    assert_eq!(device_name(Some("Mac".to_string()), Some("host".to_string())), "Mac");
    assert_eq!(device_name(None, Some("host".to_string())), "host");
    assert_eq!(device_name(None, None), "Local");
}
