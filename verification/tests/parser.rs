use punchtop::backend::chromecast::parser::dns_txt;

#[test]
fn chromecast_parse_dns_txt() {
    let parsed = dns_txt(&vec!["fn=Device Name=Bob's", "md=Chromecast"]);
    let name = parsed.get("fn").unwrap();
    let model = parsed.get("md").unwrap();
    assert_eq!("Device Name=Bob's", name);
    assert_eq!("Chromecast", model);
    assert_eq!(None, parsed.get("none"));
}

#[test]
fn parser_parse_dns_txt() {
    let parsed = punchtop::parser::dns_txt(&vec!["fn=Device Name=Bob's", "md=Chromecast"]);
    let name = parsed.get("fn").unwrap();
    let model = parsed.get("md").unwrap();
    assert_eq!("Device Name=Bob's", name);
    assert_eq!("Chromecast", model);
    assert_eq!(None, parsed.get("none"));
}

#[test]
fn later_record_replaces_earlier() {
    let parsed = dns_txt(&vec!["fn=Kitchen", "fn=Living Room"]);
    assert_eq!("Living Room", parsed.get("fn").unwrap());
    assert_eq!(1, parsed.len());
}

#[test]
fn records_without_key_or_separator_are_ignored() {
    let parsed = dns_txt(&vec!["=value", "noseparator", "bad key=x", "ok=", "id=1a2b"]);
    assert_eq!(None, parsed.get(""));
    assert_eq!(None, parsed.get("noseparator"));
    assert_eq!(None, parsed.get("bad key"));
    assert_eq!(None, parsed.get("bad"));
    assert_eq!("", parsed.get("ok").unwrap());
    assert_eq!("1a2b", parsed.get("id").unwrap());
    assert_eq!(2, parsed.len());
}

#[test]
fn empty_record_list_gives_empty_map() {
    let parsed = dns_txt(&Vec::<&str>::new());
    assert!(parsed.is_empty());
}
