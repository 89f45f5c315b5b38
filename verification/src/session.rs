//! The broker session: configuration of the MQTT client/connection pair,
//! presence publishing, and the command subscription. The last-will "offline"
//! message is part of the session configuration itself, so the broker holds
//! it from the moment the session is established — before any explicit
//! "online" publish can occur.
use vstd::prelude::*;

verus! {

/// Seconds between keep-alive probes on the broker session.
pub const KEEP_ALIVE_SECS: u64 = 10;

/// The retained status topic other subscribers watch for this device.
pub open spec fn spec_status_topic() -> Seq<char> {
    "gca/control-device/status"@
}

/// Device presence as published on the status topic.
#[derive(Clone, Copy, PartialEq, Eq, Structural, Debug)]
pub enum PresenceStatus {
    Online,
    Offline,
}

/// MQTT delivery guarantees.
#[derive(Clone, Copy, PartialEq, Eq, Structural, Debug)]
pub enum MqttQos {
    AtMostOnce,
    AtLeastOnce,
    ExactlyOnce,
}

/// The message the broker publishes by itself if the session drops without a
/// clean disconnect.
#[derive(Debug, PartialEq)]
pub struct LastWill {
    pub topic: String,
    pub status: PresenceStatus,
    pub qos: MqttQos,
    pub retain: bool,
}

/// Everything the transport needs to create the client/connection pair; the
/// last will is attached here, at construction time.
#[derive(Debug, PartialEq)]
pub struct SessionConfig {
    pub broker_url: String,
    pub client_id: String,
    pub last_will: LastWill,
    pub keep_alive_secs: u64,
}

/// An explicit presence publish on the status topic.
#[derive(Debug, PartialEq)]
pub struct PresenceCmd {
    pub topic: String,
    pub status: PresenceStatus,
    pub qos: MqttQos,
    pub retain: bool,
}

/// A subscription request.
#[derive(Debug, PartialEq)]
pub struct SubscribeCmd {
    pub topic: String,
    pub qos: MqttQos,
}

/// The payload text for a presence status.
pub open spec fn spec_presence_payload(s: PresenceStatus) -> Seq<char> {
    match s {
        PresenceStatus::Online => "online"@,
        PresenceStatus::Offline => "offline"@,
    }
}

/// A well-formed session configuration for this device: the given broker URL
/// and client identifier, and the offline last will on the status topic,
/// retained, delivered at least once.
pub open spec fn spec_session_config_ok(
    broker_url: Seq<char>,
    client_id: Seq<char>,
    cfg: SessionConfig,
) -> bool {
    &&& cfg.broker_url@ == broker_url
    &&& cfg.client_id@ == client_id
    &&& cfg.last_will.topic@ == spec_status_topic()
    &&& cfg.last_will.status == PresenceStatus::Offline
    &&& cfg.last_will.qos == MqttQos::AtLeastOnce
    &&& cfg.last_will.retain
    &&& cfg.keep_alive_secs == KEEP_ALIVE_SECS
}

/// The payload text a presence status is published as.
pub fn presence_payload(s: PresenceStatus) -> (r: &'static str)
    ensures
        r@ == spec_presence_payload(s),
{
    match s {
        PresenceStatus::Online => "online",
        PresenceStatus::Offline => "offline",
    }
}

/// Build the configuration the client/connection pair is created with: the
/// offline last will is part of it, so the broker registers the will before
/// the session is considered established.
pub fn init_client(url: &str, client_id: &str) -> (cfg: SessionConfig)
    ensures
        spec_session_config_ok(url@, client_id@, cfg),
{
    SessionConfig {
        broker_url: url.to_owned(),
        client_id: client_id.to_owned(),
        last_will: LastWill {
            topic: "gca/control-device/status".to_owned(),
            status: PresenceStatus::Offline,
            qos: MqttQos::AtLeastOnce,
            retain: true,
        },
        keep_alive_secs: KEEP_ALIVE_SECS,
    }
}

/// The explicit retained "online" publish sent once the session is up.
pub fn online_presence_cmd() -> (c: PresenceCmd)
    ensures
        c.topic@ == spec_status_topic(),
        c.status == PresenceStatus::Online,
        c.qos == MqttQos::AtLeastOnce,
        c.retain,
{
    PresenceCmd {
        topic: "gca/control-device/status".to_owned(),
        status: PresenceStatus::Online,
        qos: MqttQos::AtLeastOnce,
        retain: true,
    }
}

/// The subscription to the unlock command topic.
pub fn subscribe_unlock_cmd() -> (c: SubscribeCmd)
    ensures
        c.topic@ == crate::dispatch::spec_unlock_topic(),
        c.qos == MqttQos::AtLeastOnce,
{
    SubscribeCmd { topic: "gca/api-gateway/unlock".to_owned(), qos: MqttQos::AtLeastOnce }
}

} // verus!
