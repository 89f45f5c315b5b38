//! Network bring-up: credential validation, auth-method selection, channel
//! resolution from a scan, association planning, and the link state machine
//! the embedding binary drives through the blocking radio operations.
//!
//! An empty SSID is a configuration error and is rejected before any radio
//! operation; an empty passphrase selects an open network, never WPA2. The
//! scan results pin the association channel when the target network is seen;
//! otherwise association proceeds with no pinned channel and the fallback
//! access point defaults to channel 1.
use vstd::prelude::*;

verus! {

/// Wi-Fi credentials, supplied once at startup and immutable for the process
/// lifetime. The ssid must be non-empty before association is attempted; an
/// empty passphrase means an open network, not an error.
#[derive(Debug, PartialEq)]
pub struct NetworkCredentials {
    pub ssid: String,
    pub passphrase: String,
}

/// The authentication method resolved from the credentials.
#[derive(Clone, Copy, PartialEq, Eq, Structural, Debug)]
pub enum AuthMethod {
    Wpa2Personal,
    NoAuth,
}

/// One access point seen during the scan; the set of records is unordered
/// and discarded after channel selection.
#[derive(Debug, PartialEq)]
pub struct AccessPointRecord {
    pub ssid: String,
    pub channel: u8,
}

/// The station-side configuration handed to the radio for association.
#[derive(Debug, PartialEq)]
pub struct ClientConfig {
    pub ssid: String,
    pub password: String,
    pub channel: Option<u8>,
    pub auth_method: AuthMethod,
}

/// The fallback access point the device always exposes alongside its
/// station link.
#[derive(Debug, PartialEq)]
pub struct ApConfig {
    pub ssid: String,
    pub channel: u8,
}

/// The mixed client-and-access-point radio configuration.
#[derive(Debug, PartialEq)]
pub struct WifiConfiguration {
    pub client: ClientConfig,
    pub ap: ApConfig,
}

/// Link state owned by network bring-up; the orchestrator sees only the
/// terminal success or failure.
#[derive(Clone, Copy, PartialEq, Eq, Structural, Debug)]
pub enum WifiLinkState {
    Unconfigured,
    Scanning,
    Associating,
    DhcpPending,
    Connected,
    Failed,
}

/// Why bring-up failed: invalid credentials, or a radio operation failing at
/// the given stage.
#[derive(Clone, Copy, PartialEq, Eq, Structural, Debug)]
pub enum BringupError {
    ConfigError,
    ConnectError(WifiLinkState),
}

/// The auth method the credentials select: a non-empty passphrase selects
/// WPA2-Personal; an empty passphrase selects no authentication.
pub open spec fn spec_auth_method(passphrase: Seq<char>) -> AuthMethod {
    if passphrase.len() == 0 {
        AuthMethod::NoAuth
    } else {
        AuthMethod::Wpa2Personal
    }
}

/// The channel of the first scan record whose ssid equals the target, if any.
pub open spec fn spec_resolved_channel(scan: Seq<AccessPointRecord>, ssid: Seq<char>) -> Option<
    u8,
>
    decreases scan.len(),
{
    if scan.len() == 0 {
        Option::None
    } else if scan[0].ssid@ == ssid {
        Option::Some(scan[0].channel)
    } else {
        spec_resolved_channel(scan.drop_first(), ssid)
    }
}

/// The channel of the fallback access point: the resolved channel when one
/// was found, else 1.
pub open spec fn spec_ap_channel(resolved: Option<u8>) -> u8 {
    match resolved {
        Option::Some(c) => c,
        Option::None => 1,
    }
}

/// Resolve the auth method from the credentials; never WPA2 for an empty
/// passphrase.
pub fn resolve_auth_method(creds: &NetworkCredentials) -> (r: AuthMethod)
    ensures
        r == spec_auth_method(creds.passphrase@),
        r == AuthMethod::NoAuth <==> creds.passphrase@.len() == 0,
{
    if creds.passphrase.as_str().is_empty() {
        AuthMethod::NoAuth
    } else {
        AuthMethod::Wpa2Personal
    }
}

/// Validate the credentials: an empty ssid is a configuration error; any
/// non-empty ssid is accepted, whatever the passphrase.
pub fn validate_credentials(creds: &NetworkCredentials) -> (r: Result<(), BringupError>)
    ensures
        r is Ok <==> creds.ssid@.len() > 0,
        r is Err ==> r == Result::<(), BringupError>::Err(BringupError::ConfigError),
{
    if creds.ssid.as_str().is_empty() {
        Result::Err(BringupError::ConfigError)
    } else {
        Result::Ok(())
    }
}

/// Search the scan results for the target ssid and return the channel of the
/// first matching record, or nothing when no record matches.
pub fn resolve_channel(scan: &Vec<AccessPointRecord>, ssid: &str) -> (r: Option<u8>)
    ensures
        r == spec_resolved_channel(scan@, ssid@),
{
    let mut i: usize = 0;
    proof {
        assert(scan@.skip(0) =~= scan@);
    }
    while i < scan.len()
        invariant
            0 <= i <= scan@.len(),
            spec_resolved_channel(scan@, ssid@) == spec_resolved_channel(
                scan@.skip(i as int),
                ssid@,
            ),
        decreases scan@.len() - i,
    {
        if crate::dispatch::str_eq(scan[i].ssid.as_str(), ssid) {
            proof {
                assert(scan@.skip(i as int)[0] == scan@[i as int]);
            }
            return Option::Some(scan[i].channel);
        }
        proof {
            assert(scan@.skip(i as int).drop_first() =~= scan@.skip(i as int + 1));
            assert(scan@.skip(i as int)[0] == scan@[i as int]);
        }
        i = i + 1;
    }
    proof {
        assert(scan@.skip(i as int).len() == 0);
    }
    Option::None
}

/// Build the mixed radio configuration: the station half carries the
/// credentials, the resolved auth method and the resolved channel; the
/// access-point half carries the fixed fallback ssid and the resolved channel
/// defaulted to 1.
pub fn plan_association(creds: &NetworkCredentials, scan: &Vec<AccessPointRecord>) -> (cfg:
    WifiConfiguration)
    ensures
        cfg.client.ssid@ == creds.ssid@,
        cfg.client.password@ == creds.passphrase@,
        cfg.client.auth_method == spec_auth_method(creds.passphrase@),
        cfg.client.channel == spec_resolved_channel(scan@, creds.ssid@),
        cfg.ap.ssid@ == "aptest"@,
        cfg.ap.channel == spec_ap_channel(spec_resolved_channel(scan@, creds.ssid@)),
{
    let channel = resolve_channel(scan, creds.ssid.as_str());
    let ap_channel: u8 = match channel {
        Option::Some(c) => c,
        Option::None => 1,
    };
    WifiConfiguration {
        client: ClientConfig {
            ssid: creds.ssid.clone(),
            password: creds.passphrase.clone(),
            channel,
            auth_method: resolve_auth_method(creds),
        },
        ap: ApConfig { ssid: "aptest".to_owned(), channel: ap_channel },
    }
}

/// An event the radio driver reports to the bring-up state machine.
#[derive(Debug, PartialEq)]
pub enum RadioEvent {
    /// Start the bring-up from the unconfigured state.
    Begin,
    /// The blocking scan finished with these records.
    ScanComplete(Vec<AccessPointRecord>),
    /// Association completed and the link is up.
    LinkUp,
    /// The DHCP lease was acquired.
    LeaseAcquired,
    /// The pending radio operation failed.
    Fault,
}

/// The next blocking radio operation the driver must perform, or the
/// terminal outcome of bring-up.
#[derive(Debug, PartialEq)]
pub enum RadioAction {
    /// Configure the radio as a client, start it, and run the scan.
    StartClientAndScan,
    /// Apply the mixed configuration and initiate association.
    ConfigureAndConnect(WifiConfiguration),
    /// Block until the DHCP lease is acquired.
    AwaitDhcp,
    /// Bring-up succeeded; hand the live link to the orchestrator.
    ReportReady,
    /// Bring-up failed; no further radio operation follows.
    Abort(BringupError),
}

/// Which events the radio driver may deliver in each state. The machine is
/// strictly sequential: nothing leaves the terminal states.
pub open spec fn event_fits(state: WifiLinkState, event: RadioEvent) -> bool {
    match (state, event) {
        (WifiLinkState::Unconfigured, RadioEvent::Begin) => true,
        (WifiLinkState::Scanning, RadioEvent::ScanComplete(_)) => true,
        (WifiLinkState::Scanning, RadioEvent::Fault) => true,
        (WifiLinkState::Associating, RadioEvent::LinkUp) => true,
        (WifiLinkState::Associating, RadioEvent::Fault) => true,
        (WifiLinkState::DhcpPending, RadioEvent::LeaseAcquired) => true,
        (WifiLinkState::DhcpPending, RadioEvent::Fault) => true,
        _ => false,
    }
}

/// Whether the radio driver may deliver this event in this state; the
/// embedding binary checks this before each step.
pub fn radio_event_allowed(state: WifiLinkState, event: &RadioEvent) -> (r: bool)
    ensures
        r == event_fits(state, *event),
{
    match state {
        WifiLinkState::Unconfigured => matches!(event, RadioEvent::Begin),
        WifiLinkState::Scanning => matches!(event, RadioEvent::ScanComplete(_)) || matches!(
            event,
            RadioEvent::Fault,
        ),
        WifiLinkState::Associating => matches!(event, RadioEvent::LinkUp) || matches!(
            event,
            RadioEvent::Fault,
        ),
        WifiLinkState::DhcpPending => matches!(event, RadioEvent::LeaseAcquired) || matches!(
            event,
            RadioEvent::Fault,
        ),
        _ => false,
    }
}

/// The state after one step of bring-up.
pub open spec fn spec_next_state(
    ssid: Seq<char>,
    state: WifiLinkState,
    event: RadioEvent,
) -> WifiLinkState {
    match (state, event) {
        (WifiLinkState::Unconfigured, RadioEvent::Begin) => if ssid.len() == 0 {
            WifiLinkState::Failed
        } else {
            WifiLinkState::Scanning
        },
        (WifiLinkState::Scanning, RadioEvent::ScanComplete(_)) => WifiLinkState::Associating,
        (WifiLinkState::Associating, RadioEvent::LinkUp) => WifiLinkState::DhcpPending,
        (WifiLinkState::DhcpPending, RadioEvent::LeaseAcquired) => WifiLinkState::Connected,
        (_, RadioEvent::Fault) => WifiLinkState::Failed,
        _ => state,
    }
}

/// The mixed configuration a scan outcome resolves to for these credentials.
pub open spec fn spec_config_ok(
    creds: NetworkCredentials,
    scan: Seq<AccessPointRecord>,
    cfg: WifiConfiguration,
) -> bool {
    &&& cfg.client.ssid@ == creds.ssid@
    &&& cfg.client.password@ == creds.passphrase@
    &&& cfg.client.auth_method == spec_auth_method(creds.passphrase@)
    &&& cfg.client.channel == spec_resolved_channel(scan, creds.ssid@)
    &&& cfg.ap.ssid@ == "aptest"@
    &&& cfg.ap.channel == spec_ap_channel(spec_resolved_channel(scan, creds.ssid@))
}

/// The action one step of bring-up must emit.
pub open spec fn spec_step_action_ok(
    creds: NetworkCredentials,
    state: WifiLinkState,
    event: RadioEvent,
    a: RadioAction,
) -> bool {
    match (state, event) {
        (WifiLinkState::Unconfigured, RadioEvent::Begin) => if creds.ssid@.len() == 0 {
            a == RadioAction::Abort(BringupError::ConfigError)
        } else {
            a == RadioAction::StartClientAndScan
        },
        (WifiLinkState::Scanning, RadioEvent::ScanComplete(aps)) => {
            &&& a matches RadioAction::ConfigureAndConnect(cfg)
            &&& spec_config_ok(creds, aps@, cfg)
        },
        (WifiLinkState::Associating, RadioEvent::LinkUp) => a == RadioAction::AwaitDhcp,
        (WifiLinkState::DhcpPending, RadioEvent::LeaseAcquired) => a == RadioAction::ReportReady,
        (_, RadioEvent::Fault) => a == RadioAction::Abort(BringupError::ConnectError(state)),
        _ => false,
    }
}

/// The bring-up state machine: it owns the credentials and the link state,
/// and the radio driver feeds it one event per completed blocking operation.
pub struct Bringup {
    pub creds: NetworkCredentials,
    pub state: WifiLinkState,
}

impl Bringup {
    /// A fresh bring-up over the given credentials.
    pub fn new(creds: NetworkCredentials) -> (r: Bringup)
        ensures
            r.creds == creds,
            r.state == WifiLinkState::Unconfigured,
    {
        Bringup { creds, state: WifiLinkState::Unconfigured }
    }

    /// Advance one step: credentials are validated before any radio action is
    /// emitted, a completed scan resolves the association plan, and any fault
    /// ends bring-up with the connect error for that stage.
    pub fn step(&mut self, event: RadioEvent) -> (a: RadioAction)
        requires
            event_fits(old(self).state, event),
        ensures
            final(self).creds == old(self).creds,
            final(self).state == spec_next_state(old(self).creds.ssid@, old(self).state, event),
            spec_step_action_ok(old(self).creds, old(self).state, event, a),
    {
        match (self.state, event) {
            (WifiLinkState::Unconfigured, RadioEvent::Begin) => {
                if self.creds.ssid.as_str().is_empty() {
                    self.state = WifiLinkState::Failed;
                    RadioAction::Abort(BringupError::ConfigError)
                } else {
                    self.state = WifiLinkState::Scanning;
                    RadioAction::StartClientAndScan
                }
            },
            (WifiLinkState::Scanning, RadioEvent::ScanComplete(aps)) => {
                self.state = WifiLinkState::Associating;
                let cfg = plan_association(&self.creds, &aps);
                RadioAction::ConfigureAndConnect(cfg)
            },
            (WifiLinkState::Associating, RadioEvent::LinkUp) => {
                self.state = WifiLinkState::DhcpPending;
                RadioAction::AwaitDhcp
            },
            (WifiLinkState::DhcpPending, RadioEvent::LeaseAcquired) => {
                self.state = WifiLinkState::Connected;
                RadioAction::ReportReady
            },
            (s, RadioEvent::Fault) => {
                self.state = WifiLinkState::Failed;
                RadioAction::Abort(BringupError::ConnectError(s))
            },
            _ => {
                proof {
                    assert(false);
                }
                RadioAction::StartClientAndScan
            },
        }
    }
}

/// Law: for credentials with an empty ssid, bring-up fails with the
/// configuration error before any radio operation: the only action the
/// machine can emit is the abort, the machine lands in the failed state, and
/// no further event is admitted, so no radio action ever follows.
pub proof fn lemma_empty_ssid_fails_before_radio(creds: NetworkCredentials, a: RadioAction)
    requires
        creds.ssid@.len() == 0,
        spec_step_action_ok(creds, WifiLinkState::Unconfigured, RadioEvent::Begin, a),
    ensures
        a == RadioAction::Abort(BringupError::ConfigError),
        spec_next_state(creds.ssid@, WifiLinkState::Unconfigured, RadioEvent::Begin)
            == WifiLinkState::Failed,
        forall|e: RadioEvent| !event_fits(WifiLinkState::Failed, e),
{
}

/// Law: the resolved channel is the channel of the first scan record whose
/// ssid matches the target; it is present exactly when some record matches,
/// and when none does the fallback access-point channel defaults to 1.
pub proof fn lemma_channel_resolution(scan: Seq<AccessPointRecord>, ssid: Seq<char>)
    ensures
        (spec_resolved_channel(scan, ssid) is Some) <==> (exists|i: int|
            0 <= i < scan.len() && scan[i].ssid@ == ssid),
        spec_resolved_channel(scan, ssid) matches Some(c) ==> (exists|i: int|
            {
                &&& 0 <= i < scan.len()
                &&& scan[i].ssid@ == ssid
                &&& scan[i].channel == c
                &&& forall|j: int| 0 <= j < i ==> scan[j].ssid@ != ssid
            }),
        (spec_resolved_channel(scan, ssid) is None) ==> spec_ap_channel(
            spec_resolved_channel(scan, ssid),
        ) == 1,
    decreases scan.len(),
{
    if scan.len() == 0 {
    } else if scan[0].ssid@ == ssid {
        assert(0 <= 0 < scan.len() && scan[0].ssid@ == ssid);
    } else {
        let rest = scan.drop_first();
        lemma_channel_resolution(rest, ssid);
        assert(forall|i: int| 0 <= i < rest.len() ==> rest[i] == scan[i + 1]);
        if spec_resolved_channel(scan, ssid) is Some {
            let c = spec_resolved_channel(scan, ssid)->Some_0;
            let i0 = choose|i: int|
                {
                    &&& 0 <= i < rest.len()
                    &&& rest[i].ssid@ == ssid
                    &&& rest[i].channel == c
                    &&& forall|j: int| 0 <= j < i ==> rest[j].ssid@ != ssid
                };
            assert(scan[i0 + 1].ssid@ == ssid && scan[i0 + 1].channel == c);
            assert(forall|j: int| 0 <= j < i0 + 1 ==> scan[j].ssid@ != ssid) by {
                assert(forall|j: int| 1 <= j < i0 + 1 ==> scan[j] == rest[j - 1]);
            }
        }
        if exists|i: int| 0 <= i < scan.len() && scan[i].ssid@ == ssid {
            let iw = choose|i: int| 0 <= i < scan.len() && scan[i].ssid@ == ssid;
            assert(iw != 0);
            assert(rest[iw - 1].ssid@ == ssid);
        }
    }
}

} // verus!
