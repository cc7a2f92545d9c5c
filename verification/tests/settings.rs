use mqtt_broker::lookup::KeyLookup;
use mqtt_broker::settings::{
    read_port, Settings, CONSOLE_PORT_KEY, DEFAULT_CONSOLE_PORT, DEFAULT_MQTT_PORT, MQTT_PORT_KEY,
    WS_PORT_KEY,
};

fn source_of(pairs: &[(&str, &str)]) -> KeyLookup {
    let mut source = KeyLookup::new();
    for (key, value) in pairs {
        source.set(key, value);
    }
    source
}

#[test]
fn keys_and_defaults_have_their_values() {
    assert_eq!(MQTT_PORT_KEY, "BROKER_MQTT_PORT");
    assert_eq!(WS_PORT_KEY, "BROKER_WS_PORT");
    assert_eq!(CONSOLE_PORT_KEY, "BROKER_CONSOLE_PORT");
    assert_eq!(DEFAULT_MQTT_PORT, 1883);
    assert_eq!(DEFAULT_CONSOLE_PORT, 3030);
}

#[test]
fn default_settings() {
    let settings = Settings::default();
    assert_eq!(settings.mqtt_port, 1883);
    assert_eq!(settings.ws_port, None);
    assert_eq!(settings.console_port, 3030);
}

#[test]
fn empty_source_resolves_to_the_defaults() {
    let settings = Settings::resolve(&KeyLookup::new());
    assert_eq!(settings, Settings { mqtt_port: 1883, ws_port: None, console_port: 3030 });
    assert_eq!(settings, Settings::default());
}

#[test]
fn every_key_set_resolves_to_its_port() {
    let source = source_of(&[
        ("BROKER_MQTT_PORT", "1884"),
        ("BROKER_WS_PORT", "9001"),
        ("BROKER_CONSOLE_PORT", "3031"),
    ]);
    assert_eq!(
        Settings::resolve(&source),
        Settings { mqtt_port: 1884, ws_port: Some(9001), console_port: 3031 }
    );
}

#[test]
fn websocket_port_alone_leaves_the_other_ports_at_their_defaults() {
    let settings = Settings::resolve(&source_of(&[("BROKER_WS_PORT", "9001")]));
    assert_eq!(settings, Settings { mqtt_port: 1883, ws_port: Some(9001), console_port: 3030 });
}

#[test]
fn malformed_mqtt_port_keeps_the_default() {
    let settings = Settings::resolve(&source_of(&[("BROKER_MQTT_PORT", "abc")]));
    assert_eq!(settings.mqtt_port, 1883);
    assert_eq!(settings, Settings::default());
}

#[test]
fn malformed_console_port_keeps_the_default() {
    for text in ["", "abc", "-1", "65536", " 3031", "3031 ", "30.31"] {
        let settings = Settings::resolve(&source_of(&[("BROKER_CONSOLE_PORT", text)]));
        assert_eq!(settings.console_port, 3030, "on {:?}", text);
    }
}

#[test]
fn malformed_mqtt_port_of_many_shapes_keeps_the_default() {
    for text in ["", "+", "-1883", "65536", "18 83", "1883\n", "0x75b", "mqtt"] {
        let settings = Settings::resolve(&source_of(&[("BROKER_MQTT_PORT", text)]));
        assert_eq!(settings.mqtt_port, 1883, "on {:?}", text);
    }
}

#[test]
fn malformed_websocket_port_leaves_the_listener_out() {
    for text in ["", "abc", "-9001", "65536", "9001 ", "ws"] {
        let settings = Settings::resolve(&source_of(&[("BROKER_WS_PORT", text)]));
        assert_eq!(settings.ws_port, None, "on {:?}", text);
    }
}

#[test]
fn well_formed_mqtt_port_is_used() {
    for port in [0u16, 1, 80, 1883, 8883, 65535] {
        let text = port.to_string();
        let settings = Settings::resolve(&source_of(&[("BROKER_MQTT_PORT", text.as_str())]));
        assert_eq!(settings.mqtt_port, port);
        assert_eq!(settings.ws_port, None);
        assert_eq!(settings.console_port, 3030);
    }
}

#[test]
fn well_formed_port_with_sign_or_leading_zeros_is_used() {
    let source = source_of(&[
        ("BROKER_MQTT_PORT", "+1884"),
        ("BROKER_WS_PORT", "09001"),
        ("BROKER_CONSOLE_PORT", "+003031"),
    ]);
    assert_eq!(
        Settings::resolve(&source),
        Settings { mqtt_port: 1884, ws_port: Some(9001), console_port: 3031 }
    );
}

#[test]
fn websocket_port_zero_is_a_port_and_not_an_absent_one() {
    let settings = Settings::resolve(&source_of(&[("BROKER_WS_PORT", "0")]));
    assert_eq!(settings.ws_port, Some(0));
}

#[test]
fn colliding_ports_are_not_rejected() {
    let source = source_of(&[
        ("BROKER_MQTT_PORT", "5000"),
        ("BROKER_WS_PORT", "5000"),
        ("BROKER_CONSOLE_PORT", "5000"),
    ]);
    assert_eq!(
        Settings::resolve(&source),
        Settings { mqtt_port: 5000, ws_port: Some(5000), console_port: 5000 }
    );
}

#[test]
fn one_malformed_key_does_not_disturb_the_others() {
    let source = source_of(&[
        ("BROKER_MQTT_PORT", "nope"),
        ("BROKER_WS_PORT", "9001"),
        ("BROKER_CONSOLE_PORT", "3031"),
    ]);
    assert_eq!(
        Settings::resolve(&source),
        Settings { mqtt_port: 1883, ws_port: Some(9001), console_port: 3031 }
    );
}

#[test]
fn other_keys_are_ignored() {
    let source = source_of(&[
        ("PATH", "/usr/bin"),
        ("BROKER_MQTT_PORT_", "1"),
        ("broker_mqtt_port", "2"),
        ("MQTT_PORT", "3"),
        ("BROKER_WS", "4"),
    ]);
    assert_eq!(Settings::resolve(&source), Settings::default());
}

#[test]
fn resolving_twice_gives_the_same_settings() {
    let source = source_of(&[("BROKER_MQTT_PORT", "1884"), ("BROKER_WS_PORT", "x")]);
    assert_eq!(Settings::resolve(&source), Settings::resolve(&source));
}

#[test]
fn lookup_of_an_empty_source_finds_nothing() {
    let source = KeyLookup::new();
    assert_eq!(source.get("BROKER_MQTT_PORT"), None);
    assert_eq!(source.get(""), None);
}

#[test]
fn lookup_finds_what_was_set() {
    let source = source_of(&[("A", "1"), ("B", "2"), ("", "empty key")]);
    assert_eq!(source.get("A"), Some("1"));
    assert_eq!(source.get("B"), Some("2"));
    assert_eq!(source.get(""), Some("empty key"));
    assert_eq!(source.get("C"), None);
    assert_eq!(source.get("a"), None);
}

#[test]
fn setting_a_key_again_replaces_its_value() {
    let mut source = KeyLookup::new();
    source.set("BROKER_MQTT_PORT", "1884");
    source.set("BROKER_WS_PORT", "9001");
    source.set("BROKER_MQTT_PORT", "1885");
    assert_eq!(source.get("BROKER_MQTT_PORT"), Some("1885"));
    assert_eq!(source.get("BROKER_WS_PORT"), Some("9001"));
    assert_eq!(Settings::resolve(&source).mqtt_port, 1885);
    source.set("BROKER_MQTT_PORT", "bad");
    assert_eq!(Settings::resolve(&source).mqtt_port, 1883);
}

#[test]
fn read_port_looks_up_and_parses() {
    let source = source_of(&[("A", "80"), ("B", "eighty"), ("C", "65536")]);
    assert_eq!(read_port(&source, "A"), Some(80));
    assert_eq!(read_port(&source, "B"), None);
    assert_eq!(read_port(&source, "C"), None);
    assert_eq!(read_port(&source, "D"), None);
}
