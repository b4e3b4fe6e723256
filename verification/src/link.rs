//! The controller link: discovery, the connect / bond / stream loop, and the
//! status line it shows.
//!
//! The application performs each [`LinkAction`] (scanning, connecting,
//! pairing, GATT, sleeping, drawing) and reports what came of it as a
//! [`LinkEvent`]; [`LinkPhase::step`] decides what happens next. A controller
//! drops the link now and then (idle, range, power), so every failure after
//! discovery goes back to connecting, indefinitely.
use vstd::prelude::*;

verus! {

/// Pause after a failed attempt before reconnecting, ms.
pub const RETRY_DELAY_MS: u64 = 1000;

/// Pause after a streaming session ends before reconnecting, ms.
pub const RECONNECT_DELAY_MS: u64 = 500;

/// Where the link stands.
#[derive(Clone, Copy, PartialEq, Eq, Debug, Structural)]
pub enum LinkPhase {
    /// Scanning for a device that advertises as a controller.
    Discovering,
    /// A connection attempt is under way.
    Connecting,
    /// Connected; the link-security request is being made.
    Securing,
    /// Waiting for pairing / encryption to complete.
    Pairing,
    /// The link is encrypted; the GATT client is being set up.
    OpeningGatt,
    /// HID reports are being streamed until the link drops.
    Streaming,
    /// Discovery gave up; only the host stack keeps running.
    Idle,
    /// The host stack has stopped.
    Halted,
}

/// What the application observed.
#[derive(Clone, Copy, PartialEq, Eq, Debug, Structural)]
pub enum LinkEvent {
    ScanFailed,
    DiscoveryTimedOut,
    ControllerFound,
    ConnectFailed,
    Connected,
    SecurityRequestFailed,
    SecurityRequested,
    PairingComplete { bonded: bool },
    Encrypted,
    PairingFailed,
    Disconnected,
    ConnectionParamsRequested,
    OtherConnectionEvent,
    GattFailed,
    GattReady,
    SessionEnded,
    StackStopped,
}

/// A status line on the display.
#[derive(Clone, Copy, PartialEq, Eq, Debug, Structural)]
pub enum LinkStatus {
    Finding,
    ScanError,
    NoXbox,
    Connecting,
    ConnectError,
    Connected,
    SecurityRequestError,
    Pairing,
    PairFail,
    Bonded,
    GattError,
    Reconnecting,
    RunnerDied,
}

/// What the application is to do next.
#[derive(Clone, Copy, PartialEq, Eq, Debug, Structural)]
pub enum LinkAction {
    /// Replace the Bluetooth status line.
    Show(LinkStatus),
    /// Start scanning and wait (with a timeout) for a controller.
    Discover,
    /// Connect to the discovered controller.
    Connect,
    /// Mark the connection bondable and request link security.
    RequestSecurity,
    /// Wait for the next connection event.
    AwaitConnectionEvent,
    /// Accept the controller's connection-parameter update request (not doing
    /// so can get the link torn down).
    AcceptConnectionParams,
    /// Keep the new bond in the host so reconnects skip pairing.
    StoreBond,
    /// Discover the HID service through a new GATT client.
    OpenGatt,
    /// Stream HID reports until the link drops.
    RunSession,
    /// Pause before the next action.
    Sleep { ms: u64 },
}

pub open spec fn status_chars(s: LinkStatus) -> Seq<char> {
    match s {
        LinkStatus::Finding => "BT: finding"@,
        LinkStatus::ScanError => "BT: scan err"@,
        LinkStatus::NoXbox => "BT: no xbox"@,
        LinkStatus::Connecting => "CONNECTING"@,
        LinkStatus::ConnectError => "CONNECT ERR"@,
        LinkStatus::Connected => "CONNECTED"@,
        LinkStatus::SecurityRequestError => "SEC REQ ERR"@,
        LinkStatus::Pairing => "PAIRING..."@,
        LinkStatus::PairFail => "PAIR FAIL"@,
        LinkStatus::Bonded => "BONDED"@,
        LinkStatus::GattError => "GATT ERR"@,
        LinkStatus::Reconnecting => "RECONNECTING"@,
        LinkStatus::RunnerDied => "BT: runner died"@,
    }
}

impl LinkStatus {
    /// The text of this status line.
    pub fn text(self) -> (t: &'static str)
        ensures
            t@ == status_chars(self),
    {
        match self {
            LinkStatus::Finding => "BT: finding",
            LinkStatus::ScanError => "BT: scan err",
            LinkStatus::NoXbox => "BT: no xbox",
            LinkStatus::Connecting => "CONNECTING",
            LinkStatus::ConnectError => "CONNECT ERR",
            LinkStatus::Connected => "CONNECTED",
            LinkStatus::SecurityRequestError => "SEC REQ ERR",
            LinkStatus::Pairing => "PAIRING...",
            LinkStatus::PairFail => "PAIR FAIL",
            LinkStatus::Bonded => "BONDED",
            LinkStatus::GattError => "GATT ERR",
            LinkStatus::Reconnecting => "RECONNECTING",
            LinkStatus::RunnerDied => "BT: runner died",
        }
    }
}

/// The head of the connection loop: show "CONNECTING" and connect.
pub open spec fn connect_again() -> Seq<LinkAction> {
    seq![LinkAction::Show(LinkStatus::Connecting), LinkAction::Connect]
}

/// Report a failure, pause, and go round the connection loop again.
pub open spec fn retry_after(s: LinkStatus) -> Seq<LinkAction> {
    seq![LinkAction::Show(s), LinkAction::Sleep { ms: RETRY_DELAY_MS }] + connect_again()
}

/// The link's reaction to an event in a phase: the next phase and what to do.
/// Events that cannot happen in a phase leave it unchanged and do nothing.
pub open spec fn transition(phase: LinkPhase, event: LinkEvent) -> (LinkPhase, Seq<LinkAction>) {
    match (phase, event) {
        (LinkPhase::Halted, _) => (LinkPhase::Halted, Seq::empty()),
        (_, LinkEvent::StackStopped) => (
            LinkPhase::Halted,
            seq![LinkAction::Show(LinkStatus::RunnerDied)],
        ),
        (LinkPhase::Discovering, LinkEvent::ScanFailed) => (
            LinkPhase::Idle,
            seq![LinkAction::Show(LinkStatus::ScanError)],
        ),
        (LinkPhase::Discovering, LinkEvent::DiscoveryTimedOut) => (
            LinkPhase::Idle,
            seq![LinkAction::Show(LinkStatus::NoXbox)],
        ),
        (LinkPhase::Discovering, LinkEvent::ControllerFound) => (
            LinkPhase::Connecting,
            connect_again(),
        ),
        (LinkPhase::Connecting, LinkEvent::ConnectFailed) => (
            LinkPhase::Connecting,
            retry_after(LinkStatus::ConnectError),
        ),
        (LinkPhase::Connecting, LinkEvent::Connected) => (
            LinkPhase::Securing,
            seq![LinkAction::Show(LinkStatus::Connected), LinkAction::RequestSecurity],
        ),
        (LinkPhase::Securing, LinkEvent::SecurityRequestFailed) => (
            LinkPhase::Connecting,
            retry_after(LinkStatus::SecurityRequestError),
        ),
        (LinkPhase::Securing, LinkEvent::SecurityRequested) => (
            LinkPhase::Pairing,
            seq![LinkAction::Show(LinkStatus::Pairing), LinkAction::AwaitConnectionEvent],
        ),
        (LinkPhase::Pairing, LinkEvent::PairingComplete { bonded }) => (
            LinkPhase::OpeningGatt,
            (if bonded {
                seq![LinkAction::StoreBond]
            } else {
                Seq::empty()
            }) + seq![LinkAction::Show(LinkStatus::Bonded), LinkAction::OpenGatt],
        ),
        (LinkPhase::Pairing, LinkEvent::Encrypted) => (
            LinkPhase::OpeningGatt,
            seq![LinkAction::Show(LinkStatus::Bonded), LinkAction::OpenGatt],
        ),
        (LinkPhase::Pairing, LinkEvent::PairingFailed) => (
            LinkPhase::Connecting,
            retry_after(LinkStatus::PairFail),
        ),
        (LinkPhase::Pairing, LinkEvent::Disconnected) => (
            LinkPhase::Connecting,
            seq![LinkAction::Sleep { ms: RETRY_DELAY_MS }] + connect_again(),
        ),
        (LinkPhase::Pairing, LinkEvent::ConnectionParamsRequested) => (
            LinkPhase::Pairing,
            seq![LinkAction::AcceptConnectionParams, LinkAction::AwaitConnectionEvent],
        ),
        (LinkPhase::Pairing, LinkEvent::OtherConnectionEvent) => (
            LinkPhase::Pairing,
            seq![LinkAction::AwaitConnectionEvent],
        ),
        (LinkPhase::OpeningGatt, LinkEvent::GattFailed) => (
            LinkPhase::Connecting,
            retry_after(LinkStatus::GattError),
        ),
        (LinkPhase::OpeningGatt, LinkEvent::GattReady) => (
            LinkPhase::Streaming,
            seq![LinkAction::RunSession],
        ),
        (LinkPhase::Streaming, LinkEvent::ConnectionParamsRequested) => (
            LinkPhase::Streaming,
            seq![LinkAction::AcceptConnectionParams],
        ),
        (LinkPhase::Streaming, LinkEvent::SessionEnded) => (
            LinkPhase::Connecting,
            seq![
                LinkAction::Show(LinkStatus::Reconnecting),
                LinkAction::Sleep { ms: RECONNECT_DELAY_MS },
            ] + connect_again(),
        ),
        _ => (phase, Seq::empty()),
    }
}

/// Actions that go round the connection loop once more after `status`.
fn retry_actions(status: LinkStatus) -> (v: Vec<LinkAction>)
    ensures
        v@ == retry_after(status),
{
    let v = vec![
        LinkAction::Show(status),
        LinkAction::Sleep { ms: RETRY_DELAY_MS },
        LinkAction::Show(LinkStatus::Connecting),
        LinkAction::Connect,
    ];
    assert(v@ =~= retry_after(status));
    v
}

impl LinkPhase {
    /// The phase at start-up and what to do first: show "BT: finding" and
    /// scan for a controller.
    pub fn start() -> (r: (LinkPhase, Vec<LinkAction>))
        ensures
            r.0 == LinkPhase::Discovering,
            r.1@ == seq![LinkAction::Show(LinkStatus::Finding), LinkAction::Discover],
    {
        let v = vec![LinkAction::Show(LinkStatus::Finding), LinkAction::Discover];
        assert(v@ =~= seq![LinkAction::Show(LinkStatus::Finding), LinkAction::Discover]);
        (LinkPhase::Discovering, v)
    }

    /// React to one event.
    pub fn step(self, event: LinkEvent) -> (r: (LinkPhase, Vec<LinkAction>))
        ensures
            (r.0, r.1@) == transition(self, event),
    {
        let ghost expected = transition(self, event);
        match (self, event) {
            (LinkPhase::Halted, _) => {
                let v: Vec<LinkAction> = Vec::new();
                assert(v@ =~= expected.1);
                (LinkPhase::Halted, v)
            },
            (_, LinkEvent::StackStopped) => {
                let v = vec![LinkAction::Show(LinkStatus::RunnerDied)];
                assert(v@ =~= expected.1);
                (LinkPhase::Halted, v)
            },
            (LinkPhase::Discovering, LinkEvent::ScanFailed) => {
                let v = vec![LinkAction::Show(LinkStatus::ScanError)];
                assert(v@ =~= expected.1);
                (LinkPhase::Idle, v)
            },
            (LinkPhase::Discovering, LinkEvent::DiscoveryTimedOut) => {
                let v = vec![LinkAction::Show(LinkStatus::NoXbox)];
                assert(v@ =~= expected.1);
                (LinkPhase::Idle, v)
            },
            (LinkPhase::Discovering, LinkEvent::ControllerFound) => {
                let v = vec![LinkAction::Show(LinkStatus::Connecting), LinkAction::Connect];
                assert(v@ =~= expected.1);
                (LinkPhase::Connecting, v)
            },
            (LinkPhase::Connecting, LinkEvent::ConnectFailed) => {
                (LinkPhase::Connecting, retry_actions(LinkStatus::ConnectError))
            },
            (LinkPhase::Connecting, LinkEvent::Connected) => {
                let v = vec![LinkAction::Show(LinkStatus::Connected), LinkAction::RequestSecurity];
                assert(v@ =~= expected.1);
                (LinkPhase::Securing, v)
            },
            (LinkPhase::Securing, LinkEvent::SecurityRequestFailed) => {
                (LinkPhase::Connecting, retry_actions(LinkStatus::SecurityRequestError))
            },
            (LinkPhase::Securing, LinkEvent::SecurityRequested) => {
                let v = vec![LinkAction::Show(LinkStatus::Pairing), LinkAction::AwaitConnectionEvent];
                assert(v@ =~= expected.1);
                (LinkPhase::Pairing, v)
            },
            (LinkPhase::Pairing, LinkEvent::PairingComplete { bonded }) => {
                let mut v: Vec<LinkAction> = Vec::new();
                if bonded {
                    v.push(LinkAction::StoreBond);
                }
                v.push(LinkAction::Show(LinkStatus::Bonded));
                v.push(LinkAction::OpenGatt);
                assert(v@ =~= expected.1);
                (LinkPhase::OpeningGatt, v)
            },
            (LinkPhase::Pairing, LinkEvent::Encrypted) => {
                let v = vec![LinkAction::Show(LinkStatus::Bonded), LinkAction::OpenGatt];
                assert(v@ =~= expected.1);
                (LinkPhase::OpeningGatt, v)
            },
            (LinkPhase::Pairing, LinkEvent::PairingFailed) => {
                (LinkPhase::Connecting, retry_actions(LinkStatus::PairFail))
            },
            (LinkPhase::Pairing, LinkEvent::Disconnected) => {
                let v = vec![
                    LinkAction::Sleep { ms: RETRY_DELAY_MS },
                    LinkAction::Show(LinkStatus::Connecting),
                    LinkAction::Connect,
                ];
                assert(v@ =~= expected.1);
                (LinkPhase::Connecting, v)
            },
            (LinkPhase::Pairing, LinkEvent::ConnectionParamsRequested) => {
                let v = vec![LinkAction::AcceptConnectionParams, LinkAction::AwaitConnectionEvent];
                assert(v@ =~= expected.1);
                (LinkPhase::Pairing, v)
            },
            (LinkPhase::Pairing, LinkEvent::OtherConnectionEvent) => {
                let v = vec![LinkAction::AwaitConnectionEvent];
                assert(v@ =~= expected.1);
                (LinkPhase::Pairing, v)
            },
            (LinkPhase::OpeningGatt, LinkEvent::GattFailed) => {
                (LinkPhase::Connecting, retry_actions(LinkStatus::GattError))
            },
            (LinkPhase::OpeningGatt, LinkEvent::GattReady) => {
                let v = vec![LinkAction::RunSession];
                assert(v@ =~= expected.1);
                (LinkPhase::Streaming, v)
            },
            (LinkPhase::Streaming, LinkEvent::ConnectionParamsRequested) => {
                let v = vec![LinkAction::AcceptConnectionParams];
                assert(v@ =~= expected.1);
                (LinkPhase::Streaming, v)
            },
            (LinkPhase::Streaming, LinkEvent::SessionEnded) => {
                let v = vec![
                    LinkAction::Show(LinkStatus::Reconnecting),
                    LinkAction::Sleep { ms: RECONNECT_DELAY_MS },
                    LinkAction::Show(LinkStatus::Connecting),
                    LinkAction::Connect,
                ];
                assert(v@ =~= expected.1);
                (LinkPhase::Connecting, v)
            },
            _ => {
                let v: Vec<LinkAction> = Vec::new();
                assert(v@ =~= expected.1);
                (self, v)
            },
        }
    }
}

// ---------------------------------------------------------------------------
// Laws
// ---------------------------------------------------------------------------

/// The controller serves HID reports only over an encrypted link, so the HID
/// service is opened only once pairing completed or the link was encrypted,
/// and reports are streamed only from a GATT client opened that way.
pub proof fn lemma_hid_only_after_security(phase: LinkPhase, event: LinkEvent)
    ensures
        transition(phase, event).1.contains(LinkAction::OpenGatt) ==> phase == LinkPhase::Pairing
            && (event is PairingComplete || event is Encrypted),
        transition(phase, event).1.contains(LinkAction::RunSession) ==> phase
            == LinkPhase::OpeningGatt && event == LinkEvent::GattReady,
        transition(phase, event).0 == LinkPhase::Streaming ==> phase == LinkPhase::Streaming
            || phase == LinkPhase::OpeningGatt,
        transition(phase, event).0 == LinkPhase::OpeningGatt ==> phase == LinkPhase::OpeningGatt
            || phase == LinkPhase::Pairing,
{
    let acts = transition(phase, event).1;
    if acts.contains(LinkAction::OpenGatt) {
        let i = choose|i: int| 0 <= i < acts.len() && acts[i] == LinkAction::OpenGatt;
        assert(acts[i] == LinkAction::OpenGatt);
    }
    if acts.contains(LinkAction::RunSession) {
        let i = choose|i: int| 0 <= i < acts.len() && acts[i] == LinkAction::RunSession;
        assert(acts[i] == LinkAction::RunSession);
    }
}

/// Once a controller has been found, every failure (connect, security
/// request, pairing, disconnect, GATT, end of session) goes back to
/// connecting: the last action is a new connection attempt, after a pause.
pub proof fn lemma_failures_reconnect(phase: LinkPhase, event: LinkEvent)
    requires
        ({
            ||| phase == LinkPhase::Connecting && event == LinkEvent::ConnectFailed
            ||| phase == LinkPhase::Securing && event == LinkEvent::SecurityRequestFailed
            ||| phase == LinkPhase::Pairing && event == LinkEvent::PairingFailed
            ||| phase == LinkPhase::Pairing && event == LinkEvent::Disconnected
            ||| phase == LinkPhase::OpeningGatt && event == LinkEvent::GattFailed
            ||| phase == LinkPhase::Streaming && event == LinkEvent::SessionEnded
        }),
    ensures
        transition(phase, event).0 == LinkPhase::Connecting,
        transition(phase, event).1.last() == LinkAction::Connect,
        exists|i: int|
            0 <= i < transition(phase, event).1.len() && (#[trigger] transition(phase, event).1[i]) is Sleep,
{
    let acts = transition(phase, event).1;
    if phase == LinkPhase::Pairing && event == LinkEvent::Disconnected {
        assert(acts[0] is Sleep);
    } else {
        assert(acts[1] is Sleep);
    }
}

/// A bond is kept exactly when pairing completes with a bond.
pub proof fn lemma_bond_stored(phase: LinkPhase, event: LinkEvent)
    ensures
        transition(phase, event).1.contains(LinkAction::StoreBond) <==> phase == LinkPhase::Pairing
            && event == (LinkEvent::PairingComplete { bonded: true }),
{
    let acts = transition(phase, event).1;
    if acts.contains(LinkAction::StoreBond) {
        let i = choose|i: int| 0 <= i < acts.len() && acts[i] == LinkAction::StoreBond;
        assert(acts[i] == LinkAction::StoreBond);
    }
    if phase == LinkPhase::Pairing && event == (LinkEvent::PairingComplete { bonded: true }) {
        assert(acts[0] == LinkAction::StoreBond);
    }
}

/// Once the host stack has stopped, nothing more happens.
pub proof fn lemma_halted_is_final(event: LinkEvent)
    ensures
        transition(LinkPhase::Halted, event) == (LinkPhase::Halted, Seq::<LinkAction>::empty()),
{
}

} // verus!
