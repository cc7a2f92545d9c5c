//! Deployment settings: their defaults, and how they are resolved from named inputs.

use crate::decimal::{decimal_digits, lemma_port_text_reads_back, parse_port, port_of_text};
use crate::lookup::KeyLookup;
use vstd::prelude::*;

verus! {

/// Name of the input that sets the port of the primary listener.
pub const MQTT_PORT_KEY: &'static str = "BROKER_MQTT_PORT";

/// Name of the input that sets the port of the websocket listener.
pub const WS_PORT_KEY: &'static str = "BROKER_WS_PORT";

/// Name of the input that sets the port of the administrative console.
pub const CONSOLE_PORT_KEY: &'static str = "BROKER_CONSOLE_PORT";

/// Port of the primary listener when none is configured.
pub const DEFAULT_MQTT_PORT: u16 = 1883;

/// Port of the administrative console when none is configured.
pub const DEFAULT_CONSOLE_PORT: u16 = 3030;

/// The ports a deployment listens on.
#[derive(Clone, Copy, Debug, PartialEq, Eq, Structural)]
pub struct Settings {
    /// Port of the primary listener.
    pub mqtt_port: u16,
    /// Port of the websocket listener; `None` leaves that listener out.
    pub ws_port: Option<u16>,
    /// Port of the administrative console.
    pub console_port: u16,
}

/// The port that `source` configures under `key`: the one that the bound text denotes.
/// A key that is not bound, or bound to text that denotes no port, configures none.
pub open spec fn configured_port(source: Map<Seq<char>, Seq<char>>, key: Seq<char>) -> Option<u16> {
    if source.dom().contains(key) {
        port_of_text(source[key])
    } else {
        None
    }
}

impl Settings {
    /// The settings of a deployment that configures nothing.
    pub open spec fn defaults() -> Settings {
        Settings { mqtt_port: DEFAULT_MQTT_PORT, ws_port: None, console_port: DEFAULT_CONSOLE_PORT }
    }

    /// The settings that `source` resolves to.
    pub open spec fn resolved(source: Map<Seq<char>, Seq<char>>) -> Settings {
        Settings {
            mqtt_port: match configured_port(source, MQTT_PORT_KEY@) {
                Some(port) => port,
                None => DEFAULT_MQTT_PORT,
            },
            ws_port: configured_port(source, WS_PORT_KEY@),
            console_port: match configured_port(source, CONSOLE_PORT_KEY@) {
                Some(port) => port,
                None => DEFAULT_CONSOLE_PORT,
            },
        }
    }

    /// Resolves the settings from `source`. Each key that is bound to the text of a port
    /// sets its port; any other key leaves its port at the default.
    pub fn resolve(source: &KeyLookup) -> (settings: Settings)
        ensures
            settings == Settings::resolved(source@),
    {
        let mut settings = Settings::default();
        if let Some(port) = read_port(source, MQTT_PORT_KEY) {
            settings.mqtt_port = port;
        }
        if let Some(port) = read_port(source, WS_PORT_KEY) {
            settings.ws_port = Some(port);
        }
        if let Some(port) = read_port(source, CONSOLE_PORT_KEY) {
            settings.console_port = port;
        }
        settings
    }
}

/// Looks `key` up in `source` and reads a port from what it is bound to.
pub fn read_port(source: &KeyLookup, key: &str) -> (port: Option<u16>)
    ensures
        port == configured_port(source@, key@),
{
    match source.get(key) {
        Some(text) => parse_port(text),
        None => None,
    }
}

/// A port key that is not bound, or is bound to text that denotes no port, leaves its
/// port at the default: 1883 for the primary listener, 3030 for the console.
pub proof fn lemma_absent_or_malformed_keeps_default(source: Map<Seq<char>, Seq<char>>)
    ensures
        !source.dom().contains(MQTT_PORT_KEY@) || port_of_text(source[MQTT_PORT_KEY@]) is None
            ==> Settings::resolved(source).mqtt_port == 1883,
        !source.dom().contains(CONSOLE_PORT_KEY@) || port_of_text(source[CONSOLE_PORT_KEY@])
            is None ==> Settings::resolved(source).console_port == 3030,
{
}

/// Text that denotes a port sets the port of the key it is bound to, whatever else the
/// source binds.
pub proof fn lemma_well_formed_port_is_used(
    source: Map<Seq<char>, Seq<char>>,
    text: Seq<char>,
    port: u16,
)
    requires
        port_of_text(text) == Some(port),
    ensures
        Settings::resolved(source.insert(MQTT_PORT_KEY@, text)).mqtt_port == port,
        Settings::resolved(source.insert(WS_PORT_KEY@, text)).ws_port == Some(port),
        Settings::resolved(source.insert(CONSOLE_PORT_KEY@, text)).console_port == port,
{
}

/// Every port can be configured: a key bound to the decimal text of a port sets that port.
pub proof fn lemma_every_port_can_be_set(source: Map<Seq<char>, Seq<char>>, port: u16)
    ensures
        Settings::resolved(source.insert(MQTT_PORT_KEY@, decimal_digits(port as nat))).mqtt_port
            == port,
        Settings::resolved(source.insert(WS_PORT_KEY@, decimal_digits(port as nat))).ws_port
            == Some(port),
        Settings::resolved(
            source.insert(CONSOLE_PORT_KEY@, decimal_digits(port as nat)),
        ).console_port == port,
{
    lemma_port_text_reads_back(port);
}

/// The websocket port is set exactly by its key: without the key there is none; with it,
/// there is the port that the bound text denotes, and none if the text denotes no port.
pub proof fn lemma_websocket_port_follows_its_key(source: Map<Seq<char>, Seq<char>>)
    ensures
        !source.dom().contains(WS_PORT_KEY@) ==> Settings::resolved(source).ws_port is None,
        source.dom().contains(WS_PORT_KEY@) ==> Settings::resolved(source).ws_port
            == port_of_text(source[WS_PORT_KEY@]),
{
}

/// The three keys are three different names.
pub proof fn lemma_keys_differ()
    ensures
        MQTT_PORT_KEY@ != WS_PORT_KEY@,
        MQTT_PORT_KEY@ != CONSOLE_PORT_KEY@,
        WS_PORT_KEY@ != CONSOLE_PORT_KEY@,
{
    reveal_strlit("BROKER_MQTT_PORT");
    reveal_strlit("BROKER_WS_PORT");
    reveal_strlit("BROKER_CONSOLE_PORT");
    assert(MQTT_PORT_KEY@.len() == 16);
    assert(WS_PORT_KEY@.len() == 14);
    assert(CONSOLE_PORT_KEY@.len() == 19);
}

/// Each port follows its own key alone: whatever one key is bound to, the ports of the
/// other two keys stay as they were. No port is checked against another.
pub proof fn lemma_ports_are_independent(source: Map<Seq<char>, Seq<char>>, text: Seq<char>)
    ensures
        Settings::resolved(source.insert(MQTT_PORT_KEY@, text)).ws_port == Settings::resolved(
            source,
        ).ws_port,
        Settings::resolved(source.insert(MQTT_PORT_KEY@, text)).console_port
            == Settings::resolved(source).console_port,
        Settings::resolved(source.insert(WS_PORT_KEY@, text)).mqtt_port == Settings::resolved(
            source,
        ).mqtt_port,
        Settings::resolved(source.insert(WS_PORT_KEY@, text)).console_port
            == Settings::resolved(source).console_port,
        Settings::resolved(source.insert(CONSOLE_PORT_KEY@, text)).mqtt_port
            == Settings::resolved(source).mqtt_port,
        Settings::resolved(source.insert(CONSOLE_PORT_KEY@, text)).ws_port == Settings::resolved(
            source,
        ).ws_port,
{
    lemma_keys_differ();
}

impl Default for Settings {
    fn default() -> (settings: Settings)
        ensures
            settings == Settings::defaults(),
    {
        Settings { mqtt_port: DEFAULT_MQTT_PORT, ws_port: None, console_port: DEFAULT_CONSOLE_PORT }
    }
}

} // verus!
