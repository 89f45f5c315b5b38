//! Connectivity-and-command core of a network-attached access-control device.
//!
//! The library holds the decision logic of the device: credential validation
//! and Wi-Fi association planning, the broker-session configuration with its
//! last-will presence contract, the inbound command dispatcher, and the
//! orchestrator state machine that sequences startup and maps each stage to a
//! status-indicator color. Hardware and transport calls (radio, broker
//! sockets, the RGB indicator) live in the embedding binary, which drives
//! these state machines and performs the actions they return.
use vstd::prelude::*;
use vstd::string::StringExecFns;

pub mod dispatch;
pub mod indicator;
pub mod orchestrator;
pub mod session;
pub mod wifi;

verus! {

/// Device configuration, materialized once at process start and passed by
/// reference into each component; the values are opaque strings supplied by
/// an external configuration mechanism.
pub struct Config {
    pub wifi_ssid: String,
    pub wifi_psk: String,
    pub mqtt_url: String,
    pub mqtt_id: String,
}

/// The line reported for a message that arrived on a topic.
pub open spec fn spec_message_notice(topic: Seq<char>, message: Seq<char>) -> Seq<char> {
    "Received message on topic '"@ + topic + "': '"@ + message + "'"@
}

/// Render the notice for a received message; the embedding binary hands the
/// result to its logger.
pub fn callback(topic: &str, message: &str) -> (r: String)
    ensures
        r@ == spec_message_notice(topic@, message@),
{
    let mut s: String = "Received message on topic '".to_owned();
    s.append(topic);
    s.append("': '");
    s.append(message);
    s.append("'");
    s
}

} // verus!
