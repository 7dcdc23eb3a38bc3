//! Externally supplied configuration of the broker subscription and of the
//! storage connections.

use vstd::prelude::*;

verus! {

/// Credentials and address of the one broker subscription.
#[derive(Clone)]
pub struct MqttSettings {
    pub hostname: String,
    pub topic: String,
    pub username: String,
    pub password: String,
}

impl MqttSettings {
    /// The settings are complete when none of the four texts is empty.
    pub open spec fn complete(&self) -> bool {
        &&& self.hostname@.len() > 0
        &&& self.topic@.len() > 0
        &&& self.username@.len() > 0
        &&& self.password@.len() > 0
    }

    /// Tells whether a connection attempt can be made with these settings.
    pub fn is_complete(&self) -> (complete: bool)
        ensures
            complete == self.complete(),
    {
        !self.hostname.as_str().is_empty() && !self.topic.as_str().is_empty()
            && !self.username.as_str().is_empty() && !self.password.as_str().is_empty()
    }
}

/// The quality of service of the subscription: at-least-once delivery.
pub const QOS: i32 = 1;

/// How long a connection attempt may take, in seconds.
pub const CONNECT_TIMEOUT_SECS: u64 = 5;

/// The first delay of the transport's automatic reconnection, in seconds.
pub const MIN_RETRY_INTERVAL_SECS: u64 = 1;

/// The longest delay of the transport's automatic reconnection, in seconds.
pub const MAX_RETRY_INTERVAL_SECS: u64 = 30;

/// Everything that one connection attempt hands to the broker's client:
/// whom to reach, as whom, and how the transport behaves afterwards.
#[derive(Clone, Debug, PartialEq)]
pub struct BrokerParameters {
    pub server_uri: String,
    pub client_id: String,
    pub clean_session: bool,
    pub user_name: String,
    pub password: String,
    pub connect_timeout_secs: u64,
    pub min_retry_interval_secs: u64,
    pub max_retry_interval_secs: u64,
    pub topic: String,
    pub qos: i32,
}

impl BrokerParameters {
    /// True of the parameters of a connection that is made with these
    /// settings under this client identifier: a clean session with
    /// at-least-once delivery on the one topic, a connect timeout of 5
    /// seconds, and automatic reconnection after 1 to 30 seconds.
    pub open spec fn describes(&self, client_id: Seq<char>, settings: &MqttSettings) -> bool {
        &&& self.server_uri@ == settings.hostname@
        &&& self.client_id@ == client_id
        &&& self.clean_session
        &&& self.user_name@ == settings.username@
        &&& self.password@ == settings.password@
        &&& self.connect_timeout_secs == CONNECT_TIMEOUT_SECS
        &&& self.min_retry_interval_secs == MIN_RETRY_INTERVAL_SECS
        &&& self.max_retry_interval_secs == MAX_RETRY_INTERVAL_SECS
        &&& self.topic@ == settings.topic@
        &&& self.qos == QOS
    }

    /// The parameters of a connection made with these settings under this
    /// client identifier.
    pub fn new(client_id: &str, settings: &MqttSettings) -> (parameters: BrokerParameters)
        ensures
            parameters.describes(client_id@, settings),
    {
        BrokerParameters {
            server_uri: settings.hostname.clone(),
            client_id: client_id.to_owned(),
            clean_session: true,
            user_name: settings.username.clone(),
            password: settings.password.clone(),
            connect_timeout_secs: CONNECT_TIMEOUT_SECS,
            min_retry_interval_secs: MIN_RETRY_INTERVAL_SECS,
            max_retry_interval_secs: MAX_RETRY_INTERVAL_SECS,
            topic: settings.topic.clone(),
            qos: QOS,
        }
    }
}

/// How a storage connection is set up when the pool hands it out.
#[derive(Clone, Copy, Debug, PartialEq, Eq, Structural)]
pub struct ConnectionOptions {
    pub enable_wal: bool,
}

/// The statements that switch a connection to write-ahead logging.
pub open spec fn wal_statements() -> Seq<char> {
    "PRAGMA journal_mode = WAL; PRAGMA synchronous = NORMAL;"@
}

impl ConnectionOptions {
    /// The statements to run on a connection that was just acquired: those
    /// that switch it to write-ahead logging where that is enabled, none
    /// otherwise.
    pub fn on_acquire(&self) -> (statements: Option<&'static str>)
        ensures
            statements is Some <==> self.enable_wal,
            statements matches Some(batch) ==> batch@ == wal_statements(),
    {
        if self.enable_wal {
            Some("PRAGMA journal_mode = WAL; PRAGMA synchronous = NORMAL;")
        } else {
            None
        }
    }
}

} // verus!
