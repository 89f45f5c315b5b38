//! The orchestrator: sequences startup strictly in order — starting color,
//! network bring-up, broker-connect color, session open (which registers the
//! offline last will), retained online publish, command subscription,
//! dispatcher spawn, idle loop — and maps failures onto indicator colors and
//! a non-zero process exit. The embedding binary performs each returned
//! action and reports its outcome back as the next event.
use vstd::prelude::*;

use crate::Config;
use crate::indicator::IndicatorColor;
use crate::indicator::spec_starting_color;
use crate::indicator::spec_error_color;
use crate::indicator::spec_broker_connect_color;
use crate::indicator::starting_color;
use crate::indicator::error_color;
use crate::indicator::broker_connect_color;
use crate::session::SessionConfig;
use crate::session::PresenceCmd;
use crate::session::PresenceStatus;
use crate::session::MqttQos;
use crate::session::SubscribeCmd;
use crate::session::spec_session_config_ok;
use crate::session::spec_status_topic;
use crate::session::init_client;
use crate::session::online_presence_cmd;
use crate::session::subscribe_unlock_cmd;

verus! {

/// Where the startup sequence stands.
#[derive(Clone, Copy, PartialEq, Eq, Structural, Debug)]
pub enum OrchestratorState {
    Start,
    WifiPending,
    SessionPending,
    PresencePending,
    SubscribePending,
    DispatchPending,
    Running,
    Aborted,
}

/// How the last requested action turned out.
#[derive(Clone, Copy, PartialEq, Eq, Structural, Debug)]
pub enum StageOutcome {
    /// Begin the sequence.
    Go,
    Success,
    Failure,
}

/// What the embedding binary must do next.
#[derive(Debug, PartialEq)]
pub enum OrchestratorAction {
    /// Write the color, then run network bring-up.
    ShowColorAndBringUp(IndicatorColor),
    /// Write the color, then create the client/connection pair with this
    /// configuration; creating it registers the offline last will.
    ShowColorAndOpenSession(IndicatorColor, SessionConfig),
    /// Publish the retained online presence.
    PublishPresence(PresenceCmd),
    /// Subscribe to the unlock command topic.
    SubscribeCommands(SubscribeCmd),
    /// Hand the connection half to the dispatcher worker and start it.
    SpawnDispatcher,
    /// Park the main thread in the idle loop for the rest of the process
    /// lifetime.
    IdleMainThread,
    /// Write the color, then terminate the process with this status.
    ShowColorAndExit(IndicatorColor, i32),
    /// Terminate the process with this status, leaving the indicator as is.
    ExitProcess(i32),
}

/// The shape of an action, with its data stripped; traces of kinds carry the
/// ordering facts of a whole run.
#[derive(Clone, Copy, PartialEq, Eq, Structural, Debug)]
pub enum ActionKind {
    BringUpKind,
    OpenSessionKind,
    PublishPresenceKind,
    SubscribeKind,
    SpawnKind,
    IdleKind,
    ExitKind,
}

/// Which outcomes may be reported in each state; terminal states admit none.
pub open spec fn orch_event_fits(s: OrchestratorState, e: StageOutcome) -> bool {
    match (s, e) {
        (OrchestratorState::Start, StageOutcome::Go) => true,
        (OrchestratorState::WifiPending, StageOutcome::Success) => true,
        (OrchestratorState::WifiPending, StageOutcome::Failure) => true,
        (OrchestratorState::SessionPending, StageOutcome::Success) => true,
        (OrchestratorState::SessionPending, StageOutcome::Failure) => true,
        (OrchestratorState::PresencePending, StageOutcome::Success) => true,
        (OrchestratorState::PresencePending, StageOutcome::Failure) => true,
        (OrchestratorState::SubscribePending, StageOutcome::Success) => true,
        (OrchestratorState::SubscribePending, StageOutcome::Failure) => true,
        (OrchestratorState::DispatchPending, StageOutcome::Success) => true,
        (OrchestratorState::DispatchPending, StageOutcome::Failure) => true,
        _ => false,
    }
}

/// Whether the outcome may be reported in this state; the embedding binary
/// checks this before each step.
pub fn orch_event_allowed(s: OrchestratorState, e: StageOutcome) -> (r: bool)
    ensures
        r == orch_event_fits(s, e),
{
    match (s, e) {
        (OrchestratorState::Start, StageOutcome::Go) => true,
        (OrchestratorState::WifiPending, StageOutcome::Success) => true,
        (OrchestratorState::WifiPending, StageOutcome::Failure) => true,
        (OrchestratorState::SessionPending, StageOutcome::Success) => true,
        (OrchestratorState::SessionPending, StageOutcome::Failure) => true,
        (OrchestratorState::PresencePending, StageOutcome::Success) => true,
        (OrchestratorState::PresencePending, StageOutcome::Failure) => true,
        (OrchestratorState::SubscribePending, StageOutcome::Success) => true,
        (OrchestratorState::SubscribePending, StageOutcome::Failure) => true,
        (OrchestratorState::DispatchPending, StageOutcome::Success) => true,
        (OrchestratorState::DispatchPending, StageOutcome::Failure) => true,
        _ => false,
    }
}

/// The state after one orchestration step.
pub open spec fn spec_orch_next(s: OrchestratorState, e: StageOutcome) -> OrchestratorState {
    match (s, e) {
        (OrchestratorState::Start, StageOutcome::Go) => OrchestratorState::WifiPending,
        (OrchestratorState::WifiPending, StageOutcome::Success) => OrchestratorState::SessionPending,
        (OrchestratorState::SessionPending, StageOutcome::Success)
            => OrchestratorState::PresencePending,
        (OrchestratorState::PresencePending, StageOutcome::Success)
            => OrchestratorState::SubscribePending,
        (OrchestratorState::SubscribePending, StageOutcome::Success)
            => OrchestratorState::DispatchPending,
        (OrchestratorState::DispatchPending, StageOutcome::Success) => OrchestratorState::Running,
        (_, StageOutcome::Failure) => OrchestratorState::Aborted,
        _ => s,
    }
}

/// The kind of action one orchestration step emits.
pub open spec fn spec_orch_kind(s: OrchestratorState, e: StageOutcome) -> ActionKind {
    match (s, e) {
        (OrchestratorState::Start, StageOutcome::Go) => ActionKind::BringUpKind,
        (OrchestratorState::WifiPending, StageOutcome::Success) => ActionKind::OpenSessionKind,
        (OrchestratorState::SessionPending, StageOutcome::Success)
            => ActionKind::PublishPresenceKind,
        (OrchestratorState::PresencePending, StageOutcome::Success) => ActionKind::SubscribeKind,
        (OrchestratorState::SubscribePending, StageOutcome::Success) => ActionKind::SpawnKind,
        (OrchestratorState::DispatchPending, StageOutcome::Success) => ActionKind::IdleKind,
        _ => ActionKind::ExitKind,
    }
}

/// The kind of an action value.
pub open spec fn spec_action_kind(a: OrchestratorAction) -> ActionKind {
    match a {
        OrchestratorAction::ShowColorAndBringUp(_) => ActionKind::BringUpKind,
        OrchestratorAction::ShowColorAndOpenSession(_, _) => ActionKind::OpenSessionKind,
        OrchestratorAction::PublishPresence(_) => ActionKind::PublishPresenceKind,
        OrchestratorAction::SubscribeCommands(_) => ActionKind::SubscribeKind,
        OrchestratorAction::SpawnDispatcher => ActionKind::SpawnKind,
        OrchestratorAction::IdleMainThread => ActionKind::IdleKind,
        OrchestratorAction::ShowColorAndExit(_, _) => ActionKind::ExitKind,
        OrchestratorAction::ExitProcess(_) => ActionKind::ExitKind,
    }
}

/// The action one orchestration step must emit, data included: the colors of
/// each transition, the session configuration with its offline will, the
/// retained online publish, the unlock subscription, and a non-zero exit
/// status on every failure.
pub open spec fn spec_orch_action_ok(
    cfg: Config,
    s: OrchestratorState,
    e: StageOutcome,
    a: OrchestratorAction,
) -> bool {
    match (s, e) {
        (OrchestratorState::Start, StageOutcome::Go) => a
            == OrchestratorAction::ShowColorAndBringUp(spec_starting_color()),
        (OrchestratorState::WifiPending, StageOutcome::Success) => {
            &&& a matches OrchestratorAction::ShowColorAndOpenSession(c, sc)
            &&& c == spec_broker_connect_color()
            &&& spec_session_config_ok(cfg.mqtt_url@, cfg.mqtt_id@, sc)
        },
        (OrchestratorState::WifiPending, StageOutcome::Failure) => a
            == OrchestratorAction::ShowColorAndExit(spec_error_color(), 1),
        (OrchestratorState::SessionPending, StageOutcome::Success) => {
            &&& a matches OrchestratorAction::PublishPresence(p)
            &&& p.topic@ == spec_status_topic()
            &&& p.status == PresenceStatus::Online
            &&& p.qos == MqttQos::AtLeastOnce
            &&& p.retain
        },
        (OrchestratorState::PresencePending, StageOutcome::Success) => {
            &&& a matches OrchestratorAction::SubscribeCommands(sub)
            &&& sub.topic@ == crate::dispatch::spec_unlock_topic()
            &&& sub.qos == MqttQos::AtLeastOnce
        },
        (OrchestratorState::SubscribePending, StageOutcome::Success) => a
            == OrchestratorAction::SpawnDispatcher,
        (OrchestratorState::DispatchPending, StageOutcome::Success) => a
            == OrchestratorAction::IdleMainThread,
        (_, StageOutcome::Failure) => a == OrchestratorAction::ExitProcess(1),
        _ => false,
    }
}

/// Advance the startup sequence by one step.
pub fn orchestrate(cfg: &Config, state: OrchestratorState, event: StageOutcome) -> (r: (
    OrchestratorState,
    OrchestratorAction,
))
    requires
        orch_event_fits(state, event),
    ensures
        r.0 == spec_orch_next(state, event),
        spec_orch_action_ok(*cfg, state, event, r.1),
        spec_action_kind(r.1) == spec_orch_kind(state, event),
{
    match (state, event) {
        (OrchestratorState::Start, StageOutcome::Go) => (
            OrchestratorState::WifiPending,
            OrchestratorAction::ShowColorAndBringUp(starting_color()),
        ),
        (OrchestratorState::WifiPending, StageOutcome::Success) => (
            OrchestratorState::SessionPending,
            OrchestratorAction::ShowColorAndOpenSession(
                broker_connect_color(),
                init_client(cfg.mqtt_url.as_str(), cfg.mqtt_id.as_str()),
            ),
        ),
        (OrchestratorState::WifiPending, StageOutcome::Failure) => (
            OrchestratorState::Aborted,
            OrchestratorAction::ShowColorAndExit(error_color(), 1),
        ),
        (OrchestratorState::SessionPending, StageOutcome::Success) => (
            OrchestratorState::PresencePending,
            OrchestratorAction::PublishPresence(online_presence_cmd()),
        ),
        (OrchestratorState::PresencePending, StageOutcome::Success) => (
            OrchestratorState::SubscribePending,
            OrchestratorAction::SubscribeCommands(subscribe_unlock_cmd()),
        ),
        (OrchestratorState::SubscribePending, StageOutcome::Success) => (
            OrchestratorState::DispatchPending,
            OrchestratorAction::SpawnDispatcher,
        ),
        (OrchestratorState::DispatchPending, StageOutcome::Success) => (
            OrchestratorState::Running,
            OrchestratorAction::IdleMainThread,
        ),
        (s, StageOutcome::Failure) => (OrchestratorState::Aborted, OrchestratorAction::ExitProcess(1)),
        _ => {
            proof {
                assert(false);
            }
            (OrchestratorState::Aborted, OrchestratorAction::ExitProcess(1))
        },
    }
}

/// The state a run of outcomes leads to.
pub open spec fn spec_run_states(s: OrchestratorState, events: Seq<StageOutcome>) -> OrchestratorState
    decreases events.len(),
{
    if events.len() == 0 {
        s
    } else {
        spec_run_states(spec_orch_next(s, events[0]), events.drop_first())
    }
}

/// The kinds of the actions a run of outcomes emits, in order.
pub open spec fn spec_run_kinds(s: OrchestratorState, events: Seq<StageOutcome>) -> Seq<ActionKind>
    decreases events.len(),
{
    if events.len() == 0 {
        Seq::empty()
    } else {
        seq![spec_orch_kind(s, events[0])] + spec_run_kinds(
            spec_orch_next(s, events[0]),
            events.drop_first(),
        )
    }
}

/// A run whose every outcome is admitted in the state it arrives in.
pub open spec fn orch_trace_fits(s: OrchestratorState, events: Seq<StageOutcome>) -> bool
    decreases events.len(),
{
    events.len() == 0 || (orch_event_fits(s, events[0]) && orch_trace_fits(
        spec_orch_next(s, events[0]),
        events.drop_first(),
    ))
}

/// States at or past the point where the session — and with it the offline
/// last will — has been established.
pub open spec fn session_reached(s: OrchestratorState) -> bool {
    match s {
        OrchestratorState::SessionPending => true,
        OrchestratorState::PresencePending => true,
        OrchestratorState::SubscribePending => true,
        OrchestratorState::DispatchPending => true,
        OrchestratorState::Running => true,
        _ => false,
    }
}

proof fn lemma_publish_preceded_by_open(s: OrchestratorState, events: Seq<StageOutcome>, j: int)
    requires
        orch_trace_fits(s, events),
        !session_reached(s),
        0 <= j < spec_run_kinds(s, events).len(),
        spec_run_kinds(s, events)[j] == ActionKind::PublishPresenceKind,
    ensures
        exists|i: int|
            0 <= i < j && spec_run_kinds(s, events)[i] == ActionKind::OpenSessionKind,
    decreases events.len(),
{
    let kinds = spec_run_kinds(s, events);
    let s1 = spec_orch_next(s, events[0]);
    let rest = events.drop_first();
    let rest_kinds = spec_run_kinds(s1, rest);
    assert(kinds == seq![spec_orch_kind(s, events[0])] + rest_kinds);
    if j == 0 {
        assert(spec_orch_kind(s, events[0]) == ActionKind::PublishPresenceKind);
        assert(false);
    } else {
        assert(kinds[j] == rest_kinds[j - 1]);
        if session_reached(s1) {
            assert(spec_orch_kind(s, events[0]) == ActionKind::OpenSessionKind);
            assert(kinds[0] == ActionKind::OpenSessionKind);
        } else {
            lemma_publish_preceded_by_open(s1, rest, j - 1);
            let i0 = choose|i: int|
                0 <= i < j - 1 && rest_kinds[i] == ActionKind::OpenSessionKind;
            assert(kinds[i0 + 1] == ActionKind::OpenSessionKind);
        }
    }
}

/// Law: in every admissible run from the start state, any online-presence
/// publish is preceded by the session-open action — the action whose
/// configuration registers the offline last will — so the broker holds the
/// will before "online" is ever sent.
pub proof fn lemma_will_registered_before_online(events: Seq<StageOutcome>, j: int)
    requires
        orch_trace_fits(OrchestratorState::Start, events),
        0 <= j < spec_run_kinds(OrchestratorState::Start, events).len(),
        spec_run_kinds(OrchestratorState::Start, events)[j] == ActionKind::PublishPresenceKind,
    ensures
        exists|i: int|
            0 <= i < j && spec_run_kinds(OrchestratorState::Start, events)[i]
                == ActionKind::OpenSessionKind,
{
    lemma_publish_preceded_by_open(OrchestratorState::Start, events, j);
}

} // verus!
