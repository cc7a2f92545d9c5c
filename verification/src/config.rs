//! The broker configuration, and how it is built from the settings of a deployment.

use crate::address::{address_text, BindAddress};
use crate::settings::Settings;
use vstd::prelude::*;

verus! {

/// Name of the listener that every configuration has.
pub const PRIMARY_LISTENER: &'static str = "primary";

/// Name of the listener that a configured websocket port adds.
pub const WEBSOCKET_LISTENER: &'static str = "websocket";

/// Identity of the broker instance.
pub const BROKER_ID: usize = 0;

/// Whether the router acknowledges a message at once.
pub const ROUTER_INSTANT_ACK: bool = true;

/// Largest size of one log segment, in bytes.
pub const ROUTER_MAX_SEGMENT_SIZE: usize = 104_857_600;

/// Number of log segments that are kept.
pub const ROUTER_MAX_SEGMENT_COUNT: usize = 10;

/// Number of connections that the router admits at once.
pub const ROUTER_MAX_CONNECTIONS: usize = 10_010;

/// Largest number of bytes read in one cycle.
pub const ROUTER_MAX_READ_LEN: u64 = 10_240;

/// Time a connection has to complete its handshake, in milliseconds.
pub const CONNECTION_TIMEOUT_MS: u16 = 5_000;

/// Delay put on a connection that is throttled, in milliseconds.
pub const CONNECTION_THROTTLE_DELAY_MS: u64 = 0;

/// Largest payload of one message, in bytes.
pub const CONNECTION_MAX_PAYLOAD_SIZE: usize = 262_144;

/// Number of messages that may be in flight on one connection.
pub const CONNECTION_MAX_INFLIGHT_COUNT: u16 = 256;

/// Number of bytes that may be in flight on one connection.
pub const CONNECTION_MAX_INFLIGHT_SIZE: usize = 1_024;

/// Whether a client may create topic filters at run time.
pub const CONNECTION_DYNAMIC_FILTERS: bool = true;

/// Delay between two accepted connections on one listener, in milliseconds.
pub const LISTENER_NEXT_CONNECTION_DELAY_MS: u64 = 1;

/// The transport that a listener accepts connections on.
#[derive(Clone, Copy, Debug, PartialEq, Eq, Structural)]
pub enum Transport {
    /// The protocol directly over TCP.
    Tcp,
    /// The protocol carried over websocket frames.
    WebSocket,
}

/// Where the certificates of a listener that terminates TLS are kept.
#[derive(Debug, PartialEq, Eq)]
pub struct TlsSpec {
    pub capath: String,
    pub certpath: String,
    pub keypath: String,
}

/// A TLS descriptor as a mathematical value.
pub struct TlsSpecView {
    pub capath: Seq<char>,
    pub certpath: Seq<char>,
    pub keypath: Seq<char>,
}

impl View for TlsSpec {
    type V = TlsSpecView;

    open spec fn view(&self) -> TlsSpecView {
        TlsSpecView { capath: self.capath@, certpath: self.certpath@, keypath: self.keypath@ }
    }
}

/// The limits put on each connection of a listener.
#[derive(Debug, PartialEq, Eq)]
pub struct ConnectionPolicy {
    pub connection_timeout_ms: u16,
    pub throttle_delay_ms: u64,
    pub max_payload_size: usize,
    pub max_inflight_count: u16,
    pub max_inflight_size: usize,
    /// Pairs of user name and password that may connect; `None` admits every client.
    pub auth: Option<Vec<(String, String)>>,
    pub dynamic_filters: bool,
}

/// A connection policy as a mathematical value.
pub struct ConnectionPolicyView {
    pub connection_timeout_ms: u16,
    pub throttle_delay_ms: u64,
    pub max_payload_size: usize,
    pub max_inflight_count: u16,
    pub max_inflight_size: usize,
    pub auth: Option<Seq<(Seq<char>, Seq<char>)>>,
    pub dynamic_filters: bool,
}

impl View for ConnectionPolicy {
    type V = ConnectionPolicyView;

    open spec fn view(&self) -> ConnectionPolicyView {
        ConnectionPolicyView {
            connection_timeout_ms: self.connection_timeout_ms,
            throttle_delay_ms: self.throttle_delay_ms,
            max_payload_size: self.max_payload_size,
            max_inflight_count: self.max_inflight_count,
            max_inflight_size: self.max_inflight_size,
            auth: self.auth.deep_view(),
            dynamic_filters: self.dynamic_filters,
        }
    }
}

impl ConnectionPolicyView {
    /// The one policy that this deployment gives to every connection.
    pub open spec fn fixed() -> ConnectionPolicyView {
        ConnectionPolicyView {
            connection_timeout_ms: CONNECTION_TIMEOUT_MS,
            throttle_delay_ms: CONNECTION_THROTTLE_DELAY_MS,
            max_payload_size: CONNECTION_MAX_PAYLOAD_SIZE,
            max_inflight_count: CONNECTION_MAX_INFLIGHT_COUNT,
            max_inflight_size: CONNECTION_MAX_INFLIGHT_SIZE,
            auth: None,
            dynamic_filters: CONNECTION_DYNAMIC_FILTERS,
        }
    }
}

impl ConnectionPolicy {
    /// The one policy that this deployment gives to every connection.
    pub fn fixed() -> (policy: ConnectionPolicy)
        ensures
            policy@ == ConnectionPolicyView::fixed(),
    {
        ConnectionPolicy {
            connection_timeout_ms: CONNECTION_TIMEOUT_MS,
            throttle_delay_ms: CONNECTION_THROTTLE_DELAY_MS,
            max_payload_size: CONNECTION_MAX_PAYLOAD_SIZE,
            max_inflight_count: CONNECTION_MAX_INFLIGHT_COUNT,
            max_inflight_size: CONNECTION_MAX_INFLIGHT_SIZE,
            auth: None,
            dynamic_filters: CONNECTION_DYNAMIC_FILTERS,
        }
    }
}

/// The limits of the routing core, one set for the whole broker.
#[derive(Clone, Copy, Debug, PartialEq, Eq, Structural)]
pub struct RouterPolicy {
    pub instant_ack: bool,
    pub max_segment_size: usize,
    pub max_segment_count: usize,
    pub max_connections: usize,
    pub max_read_len: u64,
}

impl RouterPolicy {
    /// The router limits of this deployment.
    pub open spec fn fixed_limits() -> RouterPolicy {
        RouterPolicy {
            instant_ack: ROUTER_INSTANT_ACK,
            max_segment_size: ROUTER_MAX_SEGMENT_SIZE,
            max_segment_count: ROUTER_MAX_SEGMENT_COUNT,
            max_connections: ROUTER_MAX_CONNECTIONS,
            max_read_len: ROUTER_MAX_READ_LEN,
        }
    }

    /// The router limits of this deployment.
    pub fn fixed() -> (policy: RouterPolicy)
        ensures
            policy == RouterPolicy::fixed_limits(),
    {
        RouterPolicy {
            instant_ack: ROUTER_INSTANT_ACK,
            max_segment_size: ROUTER_MAX_SEGMENT_SIZE,
            max_segment_count: ROUTER_MAX_SEGMENT_COUNT,
            max_connections: ROUTER_MAX_CONNECTIONS,
            max_read_len: ROUTER_MAX_READ_LEN,
        }
    }
}

/// One endpoint on which the broker accepts client connections.
#[derive(Debug, PartialEq, Eq)]
pub struct ListenerSpec {
    pub name: String,
    pub transport: Transport,
    pub listen: BindAddress,
    pub next_connection_delay_ms: u64,
    pub connections: ConnectionPolicy,
    pub tls: Option<TlsSpec>,
}

/// A listener as a mathematical value.
pub struct ListenerSpecView {
    pub name: Seq<char>,
    pub transport: Transport,
    pub listen: BindAddress,
    pub next_connection_delay_ms: u64,
    pub connections: ConnectionPolicyView,
    pub tls: Option<TlsSpecView>,
}

impl View for ListenerSpec {
    type V = ListenerSpecView;

    open spec fn view(&self) -> ListenerSpecView {
        ListenerSpecView {
            name: self.name@,
            transport: self.transport,
            listen: self.listen,
            next_connection_delay_ms: self.next_connection_delay_ms,
            connections: self.connections@,
            tls: match self.tls {
                Some(tls) => Some(tls@),
                None => None,
            },
        }
    }
}

impl ListenerSpecView {
    /// The listener called `name` that accepts `transport` on `port` of all interfaces, with
    /// the fixed connection policy and without TLS.
    pub open spec fn open_on(name: Seq<char>, transport: Transport, port: u16) -> ListenerSpecView {
        ListenerSpecView {
            name,
            transport,
            listen: BindAddress::any_interface(port),
            next_connection_delay_ms: LISTENER_NEXT_CONNECTION_DELAY_MS,
            connections: ConnectionPolicyView::fixed(),
            tls: None,
        }
    }
}

impl ListenerSpec {
    /// The listener called `name` that accepts `transport` on `port` of all interfaces, with
    /// its own copy of the fixed connection policy and without TLS.
    pub fn open_on(name: &str, transport: Transport, port: u16) -> (listener: ListenerSpec)
        ensures
            listener@ == ListenerSpecView::open_on(name@, transport, port),
    {
        ListenerSpec {
            name: name.to_owned(),
            transport,
            listen: BindAddress::wildcard(port),
            next_connection_delay_ms: LISTENER_NEXT_CONNECTION_DELAY_MS,
            connections: ConnectionPolicy::fixed(),
            tls: None,
        }
    }
}

/// The endpoint of the administrative console.
#[derive(Debug, PartialEq, Eq)]
pub struct ConsoleSpec {
    /// The address that the console is bound to, as text.
    pub listen: String,
}

/// A console endpoint as a mathematical value.
pub struct ConsoleSpecView {
    pub listen: Seq<char>,
}

impl View for ConsoleSpec {
    type V = ConsoleSpecView;

    open spec fn view(&self) -> ConsoleSpecView {
        ConsoleSpecView { listen: self.listen@ }
    }
}

/// The place of a broker in a mesh of brokers.
#[derive(Debug, PartialEq, Eq)]
pub struct ClusterSpec {
    pub node_id: usize,
    pub listen: String,
    /// The nodes that this one connects to, each by its id and address.
    pub seniors: Vec<(usize, String)>,
}

/// A cluster descriptor as a mathematical value.
pub struct ClusterSpecView {
    pub node_id: usize,
    pub listen: Seq<char>,
    pub seniors: Seq<(usize, Seq<char>)>,
}

impl View for ClusterSpec {
    type V = ClusterSpecView;

    open spec fn view(&self) -> ClusterSpecView {
        ClusterSpecView {
            node_id: self.node_id,
            listen: self.listen@,
            seniors: self.seniors.deep_view(),
        }
    }
}

/// Everything the broker runtime is told: where to listen and within which limits.
#[derive(Debug, PartialEq, Eq)]
pub struct BrokerConfig {
    pub id: usize,
    /// The listeners, no two under one name.
    pub listeners: Vec<ListenerSpec>,
    /// The policy that the listeners share, each holding a copy of it.
    pub connection_policy: ConnectionPolicy,
    pub router_policy: RouterPolicy,
    pub console: ConsoleSpec,
    pub cluster: Option<ClusterSpec>,
}

/// A broker configuration as a mathematical value.
pub struct BrokerConfigView {
    pub id: usize,
    pub listeners: Seq<ListenerSpecView>,
    pub connection_policy: ConnectionPolicyView,
    pub router_policy: RouterPolicy,
    pub console: ConsoleSpecView,
    pub cluster: Option<ClusterSpecView>,
}

impl View for BrokerConfig {
    type V = BrokerConfigView;

    open spec fn view(&self) -> BrokerConfigView {
        BrokerConfigView {
            id: self.id,
            listeners: self.listeners@.map_values(|listener: ListenerSpec| listener@),
            connection_policy: self.connection_policy@,
            router_policy: self.router_policy,
            console: self.console@,
            cluster: match self.cluster {
                Some(cluster) => Some(cluster@),
                None => None,
            },
        }
    }
}

impl BrokerConfigView {
    /// Whether the listeners form a mapping from name to listener that is not empty.
    pub open spec fn well_formed(self) -> bool {
        &&& self.listeners.len() > 0
        &&& forall|i: int, j: int|
            0 <= i < j < self.listeners.len() ==> self.listeners[i].name != self.listeners[j].name
    }

    /// Whether a listener is called `name`.
    pub open spec fn has_listener(self, name: Seq<char>) -> bool {
        exists|i: int| 0 <= i < self.listeners.len() && (#[trigger] self.listeners[i]).name == name
    }

    /// The configuration that `settings` asks for: the primary listener on the primary
    /// port; after it the websocket listener, if and only if a websocket port is set; the
    /// fixed policies; the console on its port of all interfaces; and no cluster.
    pub open spec fn built(settings: Settings) -> BrokerConfigView {
        let primary = ListenerSpecView::open_on(
            PRIMARY_LISTENER@,
            Transport::Tcp,
            settings.mqtt_port,
        );
        BrokerConfigView {
            id: BROKER_ID,
            listeners: match settings.ws_port {
                Some(port) => seq![
                    primary,
                    ListenerSpecView::open_on(WEBSOCKET_LISTENER@, Transport::WebSocket, port),
                ],
                None => seq![primary],
            },
            connection_policy: ConnectionPolicyView::fixed(),
            router_policy: RouterPolicy::fixed_limits(),
            console: ConsoleSpecView {
                listen: address_text(BindAddress::any_interface(settings.console_port)),
            },
            cluster: None,
        }
    }
}

impl BrokerConfig {
    /// Whether no listener before the one at `index` is called `name`.
    pub open spec fn is_first_named(&self, index: int, name: Seq<char>) -> bool {
        forall|j: int| 0 <= j < index ==> (#[trigger] self.listeners@[j]).name@ != name
    }

    /// The listener called `name`: the first one under that name.
    pub fn listener(&self, name: &str) -> (found: Option<&ListenerSpec>)
        ensures
            found is None <==> forall|i: int|
                0 <= i < self.listeners@.len() ==> (#[trigger] self.listeners@[i]).name@ != name@,
            found matches Some(listener) ==> listener.name@ == name@ && (exists|i: int|
                0 <= i < self.listeners@.len() && #[trigger] self.listeners@[i] == *listener
                    && self.is_first_named(i, name@)),
    {
        let wanted = name.to_owned();
        let mut i: usize = 0;
        while i < self.listeners.len()
            invariant
                i <= self.listeners.len(),
                wanted@ == name@,
                self.is_first_named(i as int, name@),
            decreases self.listeners.len() - i,
        {
            if self.listeners[i].name == wanted {
                return Some(&self.listeners[i]);
            }
            i = i + 1;
        }
        None
    }
}

/// Builds the broker configuration that `settings` asks for.
pub fn config(settings: Settings) -> (config: BrokerConfig)
    ensures
        config@ == BrokerConfigView::built(settings),
        config@.well_formed(),
        settings.ws_port is None ==> config.listeners@.len() == 1,
        settings.ws_port is Some ==> config.listeners@.len() == 2,
        config@.has_listener(PRIMARY_LISTENER@),
        config@.has_listener(WEBSOCKET_LISTENER@) <==> settings.ws_port is Some,
        forall|i: int|
            0 <= i < config.listeners@.len() ==> (#[trigger] config.listeners@[i])@.connections
                == ConnectionPolicyView::fixed(),
{
    let mut listeners: Vec<ListenerSpec> = Vec::new();
    listeners.push(ListenerSpec::open_on(PRIMARY_LISTENER, Transport::Tcp, settings.mqtt_port));
    if let Some(port) = settings.ws_port {
        listeners.push(ListenerSpec::open_on(WEBSOCKET_LISTENER, Transport::WebSocket, port));
    }
    let config = BrokerConfig {
        id: BROKER_ID,
        listeners,
        connection_policy: ConnectionPolicy::fixed(),
        router_policy: RouterPolicy::fixed(),
        console: ConsoleSpec { listen: BindAddress::wildcard(settings.console_port).text() },
        cluster: None,
    };
    proof {
        reveal_strlit("primary");
        reveal_strlit("websocket");
        assert(config@.listeners =~= BrokerConfigView::built(settings).listeners);
        assert(config@.listeners[0].name == PRIMARY_LISTENER@);
    }
    config
}

/// Building is a function of the settings: two configurations built from equal settings
/// are equal.
pub proof fn lemma_equal_settings_build_equal_configurations(
    first: Settings,
    second: Settings,
    one: BrokerConfig,
    other: BrokerConfig,
)
    requires
        first == second,
        one@ == BrokerConfigView::built(first),
        other@ == BrokerConfigView::built(second),
    ensures
        one@ == other@,
{
}

} // verus!
