use desplio::discovery;

#[test]
fn hosts_are_announced() {
    let announced = discovery::announcement("MyBox", 9001);
    assert_eq!(announced.fullname, "MyBox Desplio Host._desplio._tcp.local.");
    assert_eq!(announced.service.get_fullname(), "MyBox Desplio Host._desplio._tcp.local.");
    assert_eq!(announced.service.get_type(), "_desplio._tcp.local.");
    assert_eq!(announced.service.get_hostname(), "mybox.local.");
    assert_eq!(announced.service.get_port(), 9001);
    assert!(announced.service.get_addresses().is_empty());
}

#[test]
fn the_version_is_announced() {
    let service = discovery::announcement("MyBox", 9001).service;
    assert_eq!(service.get_property_val_str("version"), Some("0.1.0"));
    assert_eq!(service.get_property_val_str("Version"), Some("0.1.0"));
    assert_eq!(service.get_property_val_str("name"), None);
    assert_eq!(service.get_property_val_str(""), None);
    assert_eq!(service.get_properties().len(), 1);
}

#[test]
fn dots_and_backslashes_are_escaped() {
    let announced = discovery::announcement("My.Box\\x", 1);
    assert_eq!(announced.fullname, "My\\.Box\\\\x Desplio Host._desplio._tcp.local.");
    assert_eq!(announced.service.get_hostname(), "my.box\\x.local.");
}

#[test]
fn local_hosts_are_not_doubled() {
    let announced = discovery::announcement("Box.local", 1);
    assert_eq!(announced.service.get_hostname(), "box.local.");
    let announced = discovery::announcement_of("A", "b", 2);
    assert_eq!(announced.fullname, "A Desplio Host._desplio._tcp.local.");
    assert_eq!(announced.service.get_hostname(), "b.local.");
    assert_eq!(announced.service.get_port(), 2);
}

#[test]
fn small_letters_are_those_of_unicode() {
    let announced = discovery::announcement("\u{c4}RGER", 1);
    assert_eq!(announced.service.get_hostname(), "\u{e4}rger.local.");
}
