use gca_control::callback;
use gca_control::indicator::IndicatorColor;
use gca_control::orchestrator::orchestrate;
use gca_control::orchestrator::OrchestratorAction;
use gca_control::orchestrator::OrchestratorState;
use gca_control::orchestrator::StageOutcome;
use gca_control::session::init_client;
use gca_control::session::presence_payload;
use gca_control::session::MqttQos;
use gca_control::session::PresenceStatus;
use gca_control::Config;

fn config() -> Config {
    Config {
        wifi_ssid: "home".to_string(),
        wifi_psk: "secret".to_string(),
        mqtt_url: "mqtt://broker.example:1883".to_string(),
        mqtt_id: "gca-control-device".to_string(),
    }
}

#[test]
fn startup_shows_starting_color_then_brings_up_network() {
    let (s, a) = orchestrate(&config(), OrchestratorState::Start, StageOutcome::Go);
    assert_eq!(s, OrchestratorState::WifiPending);
    assert_eq!(
        a,
        OrchestratorAction::ShowColorAndBringUp(IndicatorColor { red: 50, green: 50, blue: 0 })
    );
}

#[test]
fn wifi_failure_shows_error_color_and_exits_nonzero() {
    let (s, a) = orchestrate(&config(), OrchestratorState::WifiPending, StageOutcome::Failure);
    assert_eq!(s, OrchestratorState::Aborted);
    assert_eq!(
        a,
        OrchestratorAction::ShowColorAndExit(IndicatorColor { red: 50, green: 0, blue: 0 }, 1)
    );
}

#[test]
fn session_open_carries_the_offline_will() {
    let (s, a) = orchestrate(&config(), OrchestratorState::WifiPending, StageOutcome::Success);
    assert_eq!(s, OrchestratorState::SessionPending);
    match a {
        OrchestratorAction::ShowColorAndOpenSession(color, sc) => {
            assert_eq!(color, IndicatorColor { red: 0, green: 0, blue: 50 });
            assert_eq!(sc.broker_url, "mqtt://broker.example:1883");
            assert_eq!(sc.client_id, "gca-control-device");
            assert_eq!(sc.last_will.topic, "gca/control-device/status");
            assert_eq!(sc.last_will.status, PresenceStatus::Offline);
            assert_eq!(sc.last_will.qos, MqttQos::AtLeastOnce);
            assert!(sc.last_will.retain);
            assert_eq!(sc.keep_alive_secs, 10);
        }
        other => panic!("expected session open, got {:?}", other),
    }
}

#[test]
fn session_failure_exits_nonzero_without_color_change() {
    let (s, a) = orchestrate(&config(), OrchestratorState::SessionPending, StageOutcome::Failure);
    assert_eq!(s, OrchestratorState::Aborted);
    assert_eq!(a, OrchestratorAction::ExitProcess(1));
}

#[test]
fn full_startup_emits_will_registration_before_online_publish() {
    let cfg = config();
    let outcomes = [
        StageOutcome::Go,
        StageOutcome::Success,
        StageOutcome::Success,
        StageOutcome::Success,
        StageOutcome::Success,
        StageOutcome::Success,
    ];
    let mut state = OrchestratorState::Start;
    let mut open_at: Option<usize> = None;
    let mut online_at: Option<usize> = None;
    for (i, e) in outcomes.iter().enumerate() {
        let (next, action) = orchestrate(&cfg, state, *e);
        match &action {
            OrchestratorAction::ShowColorAndOpenSession(_, sc) => {
                assert_eq!(sc.last_will.status, PresenceStatus::Offline);
                open_at = Some(i);
            }
            OrchestratorAction::PublishPresence(p) => {
                assert_eq!(p.topic, "gca/control-device/status");
                assert_eq!(p.status, PresenceStatus::Online);
                assert_eq!(p.qos, MqttQos::AtLeastOnce);
                assert!(p.retain);
                online_at = Some(i);
            }
            _ => {}
        }
        state = next;
    }
    assert_eq!(state, OrchestratorState::Running);
    // The will is registered (at session open) strictly before the online
    // publish is ever sent.
    assert!(open_at.unwrap() < online_at.unwrap());
}

#[test]
fn full_startup_action_order_matches_the_design() {
    let cfg = config();
    let mut state = OrchestratorState::Start;
    let mut kinds: Vec<&'static str> = Vec::new();
    let outcomes = [
        StageOutcome::Go,
        StageOutcome::Success,
        StageOutcome::Success,
        StageOutcome::Success,
        StageOutcome::Success,
        StageOutcome::Success,
    ];
    for e in outcomes {
        let (next, action) = orchestrate(&cfg, state, e);
        kinds.push(match action {
            OrchestratorAction::ShowColorAndBringUp(_) => "bringup",
            OrchestratorAction::ShowColorAndOpenSession(_, _) => "open",
            OrchestratorAction::PublishPresence(_) => "publish",
            OrchestratorAction::SubscribeCommands(_) => "subscribe",
            OrchestratorAction::SpawnDispatcher => "spawn",
            OrchestratorAction::IdleMainThread => "idle",
            OrchestratorAction::ShowColorAndExit(_, _) => "exit",
            OrchestratorAction::ExitProcess(_) => "exit",
        });
        state = next;
    }
    assert_eq!(kinds, vec!["bringup", "open", "publish", "subscribe", "spawn", "idle"]);
}

#[test]
fn subscribe_targets_the_unlock_topic() {
    let (s, a) = orchestrate(&config(), OrchestratorState::PresencePending, StageOutcome::Success);
    assert_eq!(s, OrchestratorState::SubscribePending);
    match a {
        OrchestratorAction::SubscribeCommands(sub) => {
            assert_eq!(sub.topic, "gca/api-gateway/unlock");
            assert_eq!(sub.qos, MqttQos::AtLeastOnce);
        }
        other => panic!("expected subscription, got {:?}", other),
    }
}

#[test]
fn presence_payload_texts_are_exact() {
    assert_eq!(presence_payload(PresenceStatus::Online), "online");
    assert_eq!(presence_payload(PresenceStatus::Offline), "offline");
}

#[test]
fn session_config_builder_uses_given_identity() {
    let sc = init_client("mqtt://other.example", "device-7");
    assert_eq!(sc.broker_url, "mqtt://other.example");
    assert_eq!(sc.client_id, "device-7");
    assert_eq!(sc.last_will.status, PresenceStatus::Offline);
}

#[test]
fn message_notice_is_rendered_exactly() {
    let line = callback("gca/api-gateway/unlock", "true");
    assert_eq!(line, "Received message on topic 'gca/api-gateway/unlock': 'true'");
}
