//! Uplink monitor: the state machine that keeps the radio associated with
//! the configured access point.
//!
//! The monitor does not touch the radio. The caller performs each
//! [`Action`] and reports what came of it as an [`Event`]; the monitor
//! decides what follows.

use vstd::prelude::*;
use vstd::string::StringExecFns;

verus! {

/// Seconds that each of the two waits of a reconnect may take.
pub const TIMEOUT: u8 = 20;

/// Seconds between two ticks of the monitor.
pub const PERIOD: u8 = 1;

/// How an access point secures its network.
#[derive(Clone, Copy, Debug, PartialEq, Eq, Structural)]
pub enum AuthMethod {
    /// No security: the network is open.
    Open,
    WEP,
    WPA,
    WPA2Personal,
    WPAWPA2Personal,
    WPA2Enterprise,
    WPA3Personal,
    WPA2WPA3Personal,
    WAPIPersonal,
}

/// What a scan tells of one access point.
#[derive(Clone, Debug, PartialEq, Eq)]
pub struct AccessPoint {
    pub ssid: String,
    pub bssid: [u8; 6],
    pub channel: u8,
    pub auth_method: AuthMethod,
}

/// What the radio is configured with to join a network.
#[derive(Clone, Debug, PartialEq, Eq)]
pub struct ClientConfiguration {
    pub ssid: String,
    pub password: String,
    pub auth_method: AuthMethod,
    pub bssid: Option<[u8; 6]>,
    pub channel: Option<u8>,
}

/// Why a reconnect was given up. `E` is the radio's own kind of error.
#[derive(Clone, Debug, PartialEq, Eq)]
pub enum ConnectError<E> {
    /// No access point in range announces the configured network.
    NetworkNotFound,
    /// A wait ran into its timeout.
    LinkTimeout,
    /// The radio failed with this error.
    Radio(E),
    /// An event arrived that does not answer the action that was asked for.
    OutOfTurn,
}

/// Where the monitor stands.
#[derive(Clone, Copy, Debug, PartialEq, Eq, Structural)]
pub enum LinkState {
    Disconnected,
    Scanning,
    Configuring,
    Starting,
    AwaitingLinkUp,
    AwaitingAddress,
    Connected,
}

/// What came of the action the monitor asked for last. `E` is the radio's
/// own kind of error.
#[derive(Clone, Debug, PartialEq, Eq)]
pub enum Event<E> {
    /// The link was polled: whether it is associated, and its address.
    Link { connected: bool, address: [u8; 4] },
    /// The scan ended with these access points in range.
    Scanned(Vec<AccessPoint>),
    /// The radio took the configuration.
    Configured,
    /// The radio said whether it is started.
    RadioState { started: bool },
    /// The radio was started.
    RadioEnabled,
    /// The association was initiated.
    Associating,
    /// The wait for the link ended, in time or by its timeout.
    LinkUp { in_time: bool },
    /// The wait for an address ended, in time or by its timeout.
    AddressAssigned { in_time: bool },
    /// The radio failed to do what was asked, with this error.
    Failed(E),
}

/// What the caller is to do next. `Rest`, `Retry` and `Stop` end a tick;
/// every other action is answered by one event.
#[derive(Clone, Debug, PartialEq, Eq)]
pub enum Action<E> {
    /// Ask the radio whether it is associated and for its address.
    Poll,
    /// Scan for access points in range.
    Scan,
    /// Hand this configuration to the radio.
    Configure(ClientConfiguration),
    /// Ask the radio whether it is started.
    QueryStarted,
    /// Start the radio.
    Start,
    /// Initiate the association.
    Connect,
    /// Wait until the link is up, `timeout` seconds at most.
    AwaitLinkUp { timeout: u8 },
    /// Wait until the link is associated and has a non-zero address,
    /// `timeout` seconds at most.
    AwaitAddress { timeout: u8 },
    /// Nothing to do in this tick: sleep one period, then poll.
    Rest,
    /// The reconnect was given up: log why, sleep one period, then poll.
    Retry(ConnectError<E>),
    /// The link could not be polled: hand this error to the error handler.
    Stop(E),
}

/// Whether an associated link with this address counts as connected: the
/// address must not be 0.0.0.0.
pub open spec fn link_is_up(connected: bool, address: [u8; 4]) -> bool {
    connected && !(address[0] == 0 && address[1] == 0 && address[2] == 0 && address[3] == 0)
}

/// Whether `index` is the first access point of `scan` that announces
/// `ssid`.
pub open spec fn is_first_match(scan: Seq<AccessPoint>, ssid: Seq<char>, index: int) -> bool {
    &&& 0 <= index < scan.len()
    &&& scan[index].ssid@ == ssid
    &&& forall|j: int| 0 <= j < index ==> (#[trigger] scan[j]).ssid@ != ssid
}

/// Whether some access point of `scan` announces `ssid`.
pub open spec fn announces(scan: Seq<AccessPoint>, ssid: Seq<char>) -> bool {
    exists|i: int| 0 <= i < scan.len() && (#[trigger] scan[i]).ssid@ == ssid
}

/// The first access point of `scan` that announces `ssid`, where there is
/// one.
pub open spec fn first_match(scan: Seq<AccessPoint>, ssid: Seq<char>) -> int {
    choose|i: int| is_first_match(scan, ssid, i)
}

/// The configuration that joins `network` with the given credentials: the
/// security method, the station address and the channel are those found by
/// the scan.
pub open spec fn client_configuration(
    ssid: String,
    psk: String,
    network: AccessPoint,
) -> ClientConfiguration {
    ClientConfiguration {
        ssid,
        password: psk,
        auth_method: network.auth_method,
        bssid: Some(network.bssid),
        channel: Some(network.channel),
    }
}

/// The protocol: the state after `event` arrives in `state`, and the action
/// that answers it, for a monitor configured with `ssid` and `psk`.
pub open spec fn next<E>(ssid: String, psk: String, state: LinkState, event: Event<E>) -> (
    LinkState,
    Action<E>,
) {
    match (state, event) {
        (LinkState::Disconnected, Event::Failed(error))
        | (LinkState::Connected, Event::Failed(error)) => (
            LinkState::Disconnected,
            Action::Stop(error),
        ),
        (_, Event::Failed(error)) => (
            LinkState::Disconnected,
            Action::Retry(ConnectError::Radio(error)),
        ),
        (LinkState::Disconnected, Event::Link { connected, address }) => if link_is_up(
            connected,
            address,
        ) {
            (LinkState::Connected, Action::Rest)
        } else {
            (LinkState::Scanning, Action::Scan)
        },
        (LinkState::Connected, Event::Link { connected, address }) => if connected {
            (LinkState::Connected, Action::Rest)
        } else {
            (LinkState::Disconnected, Action::Rest)
        },
        (LinkState::Scanning, Event::Scanned(scan)) => if announces(scan@, ssid@) {
            (
                LinkState::Configuring,
                Action::Configure(
                    client_configuration(ssid, psk, scan@[first_match(scan@, ssid@)]),
                ),
            )
        } else {
            (LinkState::Disconnected, Action::Retry(ConnectError::NetworkNotFound))
        },
        (LinkState::Configuring, Event::Configured) => (
            LinkState::Starting,
            Action::QueryStarted,
        ),
        (LinkState::Starting, Event::RadioState { started }) => if started {
            (LinkState::Starting, Action::Connect)
        } else {
            (LinkState::Starting, Action::Start)
        },
        (LinkState::Starting, Event::RadioEnabled) => (LinkState::Starting, Action::Connect),
        (LinkState::Starting, Event::Associating) => (
            LinkState::AwaitingLinkUp,
            Action::AwaitLinkUp { timeout: TIMEOUT },
        ),
        (LinkState::AwaitingLinkUp, Event::LinkUp { in_time }) => if in_time {
            (LinkState::AwaitingAddress, Action::AwaitAddress { timeout: TIMEOUT })
        } else {
            (LinkState::Disconnected, Action::Retry(ConnectError::LinkTimeout))
        },
        (LinkState::AwaitingAddress, Event::AddressAssigned { in_time }) => if in_time {
            (LinkState::Connected, Action::Rest)
        } else {
            (LinkState::Disconnected, Action::Retry(ConnectError::LinkTimeout))
        },
        _ => (LinkState::Disconnected, Action::Retry(ConnectError::OutOfTurn)),
    }
}

/// The state that a run of events leaves the monitor in.
pub open spec fn run<E>(
    ssid: String,
    psk: String,
    state: LinkState,
    events: Seq<Event<E>>,
) -> LinkState
    decreases events.len(),
{
    if events.len() == 0 {
        state
    } else {
        run(ssid, psk, next(ssid, psk, state, events[0]).0, events.drop_first())
    }
}

/// Tells whether an associated link with `address` counts as connected.
pub fn is_link_up(connected: bool, address: &[u8; 4]) -> (up: bool)
    ensures
        up == link_is_up(connected, *address),
{
    connected && !(address[0] == 0 && address[1] == 0 && address[2] == 0 && address[3] == 0)
}

/// Finds the first access point of `scan` that announces `ssid`.
pub fn find_network(scan: &Vec<AccessPoint>, ssid: &String) -> (found: Option<usize>)
    ensures
        found is Some <==> announces(scan@, ssid@),
        found matches Some(index) ==> is_first_match(scan@, ssid@, index as int) && index
            == first_match(scan@, ssid@),
{
    let mut index: usize = 0;
    while index < scan.len()
        invariant
            index <= scan.len(),
            forall|j: int| 0 <= j < index ==> (#[trigger] scan@[j]).ssid@ != ssid@,
        decreases scan.len() - index,
    {
        if scan[index].ssid == *ssid {
            proof {
                lemma_first_match_unique(scan@, ssid@, index as int);
            }
            return Some(index);
        }
        index += 1;
    }
    None
}

/// Two first matches are the same index, so `first_match` names the one
/// there is.
pub proof fn lemma_first_match_unique(scan: Seq<AccessPoint>, ssid: Seq<char>, index: int)
    requires
        is_first_match(scan, ssid, index),
    ensures
        announces(scan, ssid),
        first_match(scan, ssid) == index,
{
    let chosen = first_match(scan, ssid);
    if chosen < index {
        assert(scan[chosen].ssid@ != ssid);
    }
    if index < chosen {
        assert(scan[index].ssid@ != ssid);
    }
}

impl<E> ConnectError<E> {
    /// The text that describes the failure, for a monitor looking for
    /// `ssid`.
    pub open spec fn spec_message(self, ssid: Seq<char>) -> Seq<char> {
        match self {
            ConnectError::NetworkNotFound => "Cannot find "@ + ssid,
            ConnectError::LinkTimeout => "Reached 20 second timeout while trying to connect to WiFi"@,
            ConnectError::Radio(_) => "The radio reported a failure"@,
            ConnectError::OutOfTurn => "The radio answered out of turn"@,
        }
    }

    /// Describes the failure in words.
    pub fn message(&self, ssid: &str) -> (text: String)
        ensures
            text@ == self.spec_message(ssid@),
    {
        match self {
            ConnectError::NetworkNotFound => String::from_str("Cannot find ").concat(ssid),
            ConnectError::LinkTimeout => String::from_str(
                "Reached 20 second timeout while trying to connect to WiFi",
            ),
            ConnectError::Radio(_) => String::from_str("The radio reported a failure"),
            ConnectError::OutOfTurn => String::from_str("The radio answered out of turn"),
        }
    }
}

/// The monitor of one radio.
pub struct WifiService {
    ssid: String,
    psk: String,
    state: LinkState,
}

impl WifiService {
    /// The identifier of the network to keep joined.
    pub closed spec fn spec_ssid(&self) -> String {
        self.ssid
    }

    /// The key of that network.
    pub closed spec fn spec_psk(&self) -> String {
        self.psk
    }

    /// Where the monitor stands.
    pub closed spec fn spec_state(&self) -> LinkState {
        self.state
    }

    /// Whether two states of the monitor watch the same network.
    pub open spec fn same_network(&self, other: &Self) -> bool {
        self.spec_ssid() == other.spec_ssid() && self.spec_psk() == other.spec_psk()
    }

    /// A monitor for the network `ssid` with key `psk`, not connected yet.
    pub fn new(ssid: String, psk: String) -> (service: Self)
        ensures
            service.spec_ssid() == ssid,
            service.spec_psk() == psk,
            service.spec_state() == LinkState::Disconnected,
    {
        WifiService { ssid, psk, state: LinkState::Disconnected }
    }

    #[verifier::when_used_as_spec(spec_state)]
    pub fn state(&self) -> (state: LinkState)
        ensures
            state == self.spec_state(),
    {
        self.state
    }

    /// The identifier of the network to keep joined.
    pub fn ssid(&self) -> (ssid: &String)
        ensures
            *ssid == self.spec_ssid(),
    {
        &self.ssid
    }

    /// Starts the monitor: it takes the link for down and polls it.
    pub fn start<E>(&mut self) -> (action: Action<E>)
        ensures
            final(self).same_network(old(self)),
            final(self).spec_state() == LinkState::Disconnected,
            action == Action::<E>::Poll,
    {
        self.state = LinkState::Disconnected;
        Action::Poll
    }

    /// Begins a reconnect, whatever stood before: the first step is the
    /// scan.
    pub fn connect<E>(&mut self) -> (action: Action<E>)
        ensures
            final(self).same_network(old(self)),
            final(self).spec_state() == LinkState::Scanning,
            action == Action::<E>::Scan,
    {
        self.state = LinkState::Scanning;
        Action::Scan
    }

    /// Takes what came of the last action and says what to do next, as
    /// [`next`] lays down.
    pub fn step<E>(&mut self, event: Event<E>) -> (action: Action<E>)
        ensures
            final(self).same_network(old(self)),
            (final(self).spec_state(), action) == next(
                old(self).spec_ssid(),
                old(self).spec_psk(),
                old(self).spec_state(),
                event,
            ),
    {
        let (state, action) = match event {
            Event::Failed(error) => match self.state {
                LinkState::Disconnected | LinkState::Connected => (
                    LinkState::Disconnected,
                    Action::Stop(error),
                ),
                _ => (LinkState::Disconnected, Action::Retry(ConnectError::Radio(error))),
            },
            Event::Link { connected, address } => match self.state {
                LinkState::Disconnected => if is_link_up(connected, &address) {
                    (LinkState::Connected, Action::Rest)
                } else {
                    (LinkState::Scanning, Action::Scan)
                },
                LinkState::Connected => if connected {
                    (LinkState::Connected, Action::Rest)
                } else {
                    (LinkState::Disconnected, Action::Rest)
                },
                _ => (LinkState::Disconnected, Action::Retry(ConnectError::OutOfTurn)),
            },
            Event::Scanned(scan) => match self.state {
                LinkState::Scanning => match find_network(&scan, &self.ssid) {
                    Some(index) => {
                        let network = &scan[index];
                        let configuration = ClientConfiguration {
                            ssid: self.ssid.clone(),
                            password: self.psk.clone(),
                            auth_method: network.auth_method,
                            bssid: Some(network.bssid),
                            channel: Some(network.channel),
                        };
                        (LinkState::Configuring, Action::Configure(configuration))
                    },
                    None => (
                        LinkState::Disconnected,
                        Action::Retry(ConnectError::NetworkNotFound),
                    ),
                },
                _ => (LinkState::Disconnected, Action::Retry(ConnectError::OutOfTurn)),
            },
            Event::Configured => match self.state {
                LinkState::Configuring => (LinkState::Starting, Action::QueryStarted),
                _ => (LinkState::Disconnected, Action::Retry(ConnectError::OutOfTurn)),
            },
            Event::RadioState { started } => match self.state {
                LinkState::Starting => if started {
                    (LinkState::Starting, Action::Connect)
                } else {
                    (LinkState::Starting, Action::Start)
                },
                _ => (LinkState::Disconnected, Action::Retry(ConnectError::OutOfTurn)),
            },
            Event::RadioEnabled => match self.state {
                LinkState::Starting => (LinkState::Starting, Action::Connect),
                _ => (LinkState::Disconnected, Action::Retry(ConnectError::OutOfTurn)),
            },
            Event::Associating => match self.state {
                LinkState::Starting => (
                    LinkState::AwaitingLinkUp,
                    Action::AwaitLinkUp { timeout: TIMEOUT },
                ),
                _ => (LinkState::Disconnected, Action::Retry(ConnectError::OutOfTurn)),
            },
            Event::LinkUp { in_time } => match self.state {
                LinkState::AwaitingLinkUp => if in_time {
                    (LinkState::AwaitingAddress, Action::AwaitAddress { timeout: TIMEOUT })
                } else {
                    (LinkState::Disconnected, Action::Retry(ConnectError::LinkTimeout))
                },
                _ => (LinkState::Disconnected, Action::Retry(ConnectError::OutOfTurn)),
            },
            Event::AddressAssigned { in_time } => match self.state {
                LinkState::AwaitingAddress => if in_time {
                    (LinkState::Connected, Action::Rest)
                } else {
                    (LinkState::Disconnected, Action::Retry(ConnectError::LinkTimeout))
                },
                _ => (LinkState::Disconnected, Action::Retry(ConnectError::OutOfTurn)),
            },
        };
        self.state = state;
        action
    }
}

/// The monitor takes the link for connected only on the radio's word: when
/// the wait for an address ended in time, or when a poll found the link
/// associated (and, coming from `Disconnected`, with a non-zero address).
pub proof fn lemma_connected_only_when_confirmed<E>(
    ssid: String,
    psk: String,
    state: LinkState,
    event: Event<E>,
)
    requires
        next(ssid, psk, state, event).0 == LinkState::Connected,
    ensures
        ({
            ||| state == LinkState::AwaitingAddress && event == (Event::<E>::AddressAssigned {
                in_time: true,
            })
            ||| state == LinkState::Disconnected && event is Link && link_is_up(
                event->connected,
                event->address,
            )
            ||| state == LinkState::Connected && event is Link && event->connected
        }),
{
}

/// A failure of the radio is handed on with the very error it came with:
/// to the error handler where the poll failed, and as the reason of the
/// retry where a step of the reconnect failed. Either way the monitor is
/// back in `Disconnected`.
pub proof fn lemma_radio_error_is_handed_on<E>(
    ssid: String,
    psk: String,
    state: LinkState,
    error: E,
)
    ensures
        next(ssid, psk, state, Event::Failed(error)) == (
            LinkState::Disconnected,
            if state == LinkState::Disconnected || state == LinkState::Connected {
                Action::Stop(error)
            } else {
                Action::Retry(ConnectError::Radio(error))
            },
        ),
{
}

/// Both waits of a reconnect are bounded by the fixed timeout.
pub proof fn lemma_waits_are_bounded<E>(
    ssid: String,
    psk: String,
    state: LinkState,
    event: Event<E>,
)
    ensures
        ({
            let action = next(ssid, psk, state, event).1;
            &&& action is AwaitLinkUp ==> action->AwaitLinkUp_timeout == TIMEOUT
            &&& action is AwaitAddress ==> action->AwaitAddress_timeout == TIMEOUT
        }),
{
}

/// A scan that does not show the configured network ends the reconnect with
/// `NetworkNotFound`, and the monitor is back in `Disconnected`.
pub proof fn lemma_absent_network_is_reported<E>(
    ssid: String,
    psk: String,
    scan: Vec<AccessPoint>,
)
    requires
        !announces(scan@, ssid@),
    ensures
        next(ssid, psk, LinkState::Scanning, Event::<E>::Scanned(scan)) == (
            LinkState::Disconnected,
            Action::<E>::Retry(ConnectError::NetworkNotFound),
        ),
{
}

/// Whether a run can make no progress towards a connection: no poll finds
/// the link associated and no scan shows the network `ssid`.
pub open spec fn network_stays_away<E>(ssid: Seq<char>, events: Seq<Event<E>>) -> bool {
    forall|i: int|
        0 <= i < events.len() ==> match #[trigger] events[i] {
            Event::Link { connected, .. } => !connected,
            Event::Scanned(scan) => !announces(scan@, ssid),
            _ => true,
        }
}

/// While the network stays away the monitor never gets past the scan: from
/// `Disconnected` or `Scanning`, every run without the network ends in one
/// of these two states, and so never in `Connected`.
pub proof fn lemma_no_network_no_connection<E>(
    ssid: String,
    psk: String,
    state: LinkState,
    events: Seq<Event<E>>,
)
    requires
        state == LinkState::Disconnected || state == LinkState::Scanning,
        network_stays_away(ssid@, events),
    ensures
        run(ssid, psk, state, events) == LinkState::Disconnected || run(ssid, psk, state, events)
            == LinkState::Scanning,
        run(ssid, psk, state, events) != LinkState::Connected,
    decreases events.len(),
{
    if events.len() > 0 {
        let first = events[0];
        let rest = events.drop_first();
        lemma_no_network_no_connection(ssid, psk, next(ssid, psk, state, first).0, rest);
    }
}

/// There is no cap on attempts: whatever failed before, the next poll that
/// finds the link down begins a full reconnect with the scan.
pub proof fn lemma_every_tick_retries<E>(ssid: String, psk: String, address: [u8; 4])
    ensures
        next(
            ssid,
            psk,
            LinkState::Disconnected,
            Event::<E>::Link { connected: false, address },
        ) == (LinkState::Scanning, Action::<E>::Scan),
{
}

/// The events of a reconnect in which every step succeeds, for a radio that
/// was not started yet.
pub open spec fn successful_attempt<E>(scan: Vec<AccessPoint>) -> Seq<Event<E>> {
    seq![
        Event::Scanned(scan),
        Event::Configured,
        Event::RadioState { started: false },
        Event::RadioEnabled,
        Event::Associating,
        Event::LinkUp { in_time: true },
        Event::AddressAssigned { in_time: true },
    ]
}

/// A reconnect in which every step succeeds ends in `Connected`, provided
/// the scan shows the network.
pub proof fn lemma_successful_attempt_connects<E>(
    ssid: String,
    psk: String,
    scan: Vec<AccessPoint>,
)
    requires
        announces(scan@, ssid@),
    ensures
        run(ssid, psk, LinkState::Scanning, successful_attempt::<E>(scan)) == LinkState::Connected,
{
    let e = successful_attempt::<E>(scan);
    let e1 = e.drop_first();
    let e2 = e1.drop_first();
    let e3 = e2.drop_first();
    let e4 = e3.drop_first();
    let e5 = e4.drop_first();
    let e6 = e5.drop_first();
    let e7 = e6.drop_first();
    assert(e7.len() == 0);
    assert(run(ssid, psk, LinkState::Connected, e7) == LinkState::Connected);
    assert(run(ssid, psk, LinkState::AwaitingAddress, e6) == LinkState::Connected);
    assert(run(ssid, psk, LinkState::AwaitingLinkUp, e5) == LinkState::Connected);
    assert(run(ssid, psk, LinkState::Starting, e4) == LinkState::Connected);
    assert(run(ssid, psk, LinkState::Starting, e3) == LinkState::Connected);
    assert(run(ssid, psk, LinkState::Starting, e2) == LinkState::Connected);
    assert(run(ssid, psk, LinkState::Configuring, e1) == LinkState::Connected);
}


} // verus!
