//! The connection lifecycle as a state machine.
//!
//! The caller runs the loop: it performs the command that the session asks for
//! (scan, wait, publish, connect, ...) and hands the outcome back as an event;
//! the session answers with its next state and the next command. Every phase
//! has exactly one outstanding command, so the machine never runs two
//! operations at once and handles notifications strictly in arrival order.
use vstd::prelude::*;
use crate::ble::{heart_rate_measurement, heart_rate_measurement_uuid};
use crate::discovery::{find_hr_device, find_hr_characteristic, first_heart_rate_device,
    heart_rate_characteristic_index, peripherals_view};
use crate::error::{SessionError, select_adapter};
use crate::heart_rate::{MAX_HEART_RATE, sample_level, spec_sample_level};

verus! {

/// One outbound message.
#[derive(Clone, Copy, Debug, PartialEq, Eq, Structural)]
pub enum Outbound {
    /// The connection status, published when a session opens and when it closes.
    Connected(bool),
    /// A heart-rate percentage, as a level out of `MAX_HEART_RATE`.
    Percent(u8),
}

/// What the caller has to do next.
#[derive(Clone, Copy, Debug, PartialEq, Eq, Structural)]
pub enum Command {
    /// Start a scan, let it settle, and enumerate the known peripherals.
    Scan,
    /// Wait the fixed retry delay.
    Wait,
    /// Encode and send one message.
    Publish(Outbound),
    /// Connect to the peripheral at this index of the last enumeration.
    Connect(usize),
    /// Discover the services of the connected peripheral and list the UUIDs of
    /// its characteristics.
    DiscoverServices,
    /// Subscribe to the characteristic at this index of that list and open its
    /// notification stream.
    Subscribe(usize),
    /// Wait for the next notification, or for the end of the stream.
    NextNotification,
    /// Disconnect from the peripheral.
    Disconnect,
}

/// The outcome of a command.
pub enum Event {
    /// The peripherals of a scan: for each, its advertised services, or `None`
    /// when its properties could not be read.
    Scanned(Vec<Option<Vec<u128>>>),
    /// The scan could not be started or its peripherals not enumerated.
    ScanFailed,
    /// The delay has passed.
    Waited,
    /// A message was sent (`true`) or could not be sent (`false`).
    Published(bool),
    /// The connection succeeded or failed.
    ConnectDone(bool),
    /// The UUIDs of the peripheral's characteristics, or `None` when service
    /// discovery failed.
    ServicesDiscovered(Option<Vec<u128>>),
    /// The subscription succeeded or failed.
    SubscribeDone(bool),
    /// A notification: the characteristic's UUID and the payload.
    Notified(u128, Vec<u8>),
    /// The notification stream ended.
    StreamEnded,
    /// The disconnection is done, whatever its outcome.
    DisconnectDone,
}

/// The phase of the lifecycle; each one names the command it waits on.
#[derive(Clone, Copy, Debug, PartialEq, Eq, Structural)]
pub enum Phase {
    /// Waiting on a scan.
    Scanning,
    /// Waiting the retry delay before the next scan.
    Waiting,
    /// A heart-rate peripheral was found; waiting on the `true` status message.
    DeviceFound,
    /// Waiting on the connection.
    Connecting,
    /// Connected; waiting on service discovery.
    Connected,
    /// Waiting on the subscription.
    Subscribing,
    /// Waiting on the next notification.
    Streaming,
    /// Waiting on a percentage message.
    Forwarding,
    /// The stream ended; waiting on the disconnection.
    Disconnecting,
    /// The session is over, for this reason; waiting on the `false` status message.
    Disconnected(SessionError),
}

/// The state of the bridge between two commands.
#[derive(Clone, Copy, Debug, PartialEq, Eq, Structural)]
pub struct Session {
    pub phase: Phase,
    /// Index of the chosen peripheral in the last enumeration.
    pub device: usize,
    /// Index of the heart-rate characteristic in the last discovery.
    pub characteristic: usize,
    /// Level of the last accepted notification.
    pub level: u8,
}

/// The command that a state waits on.
pub open spec fn command_of(s: Session) -> Command {
    match s.phase {
        Phase::Scanning => Command::Scan,
        Phase::Waiting => Command::Wait,
        Phase::DeviceFound => Command::Publish(Outbound::Connected(true)),
        Phase::Connecting => Command::Connect(s.device),
        Phase::Connected => Command::DiscoverServices,
        Phase::Subscribing => Command::Subscribe(s.characteristic),
        Phase::Streaming => Command::NextNotification,
        Phase::Forwarding => Command::Publish(Outbound::Percent(s.level)),
        Phase::Disconnecting => Command::Disconnect,
        Phase::Disconnected(_) => Command::Publish(Outbound::Connected(false)),
    }
}

/// Whether an event answers the command of a phase. A notification of the
/// heart-rate characteristic carries at least the flags and the rate.
pub open spec fn event_fits(phase: Phase, e: Event) -> bool {
    match phase {
        Phase::Scanning => e is Scanned || e is ScanFailed,
        Phase::Waiting => e is Waited,
        Phase::DeviceFound | Phase::Forwarding | Phase::Disconnected(_) => e is Published,
        Phase::Connecting => e is ConnectDone,
        Phase::Connected => e is ServicesDiscovered,
        Phase::Subscribing => e is SubscribeDone,
        Phase::Streaming => match e {
            Event::Notified(c, p) => c == heart_rate_measurement_uuid() ==> p@.len() >= 2,
            Event::StreamEnded => true,
            _ => false,
        },
        Phase::Disconnecting => e is DisconnectDone,
    }
}

/// The state with another phase.
pub open spec fn with_phase(s: Session, phase: Phase) -> Session {
    Session { phase, device: s.device, characteristic: s.characteristic, level: s.level }
}

/// The state that follows `s` on the event `e`.
pub open spec fn next_state(s: Session, e: Event) -> Session {
    match (s.phase, e) {
        (Phase::Scanning, Event::Scanned(list)) => match first_heart_rate_device(peripherals_view(list@)) {
            Some(i) => Session { phase: Phase::DeviceFound, device: i as usize, characteristic: s.characteristic, level: s.level },
            None => with_phase(s, Phase::Waiting),
        },
        (Phase::Scanning, Event::ScanFailed) => with_phase(s, Phase::Waiting),
        (Phase::Waiting, Event::Waited) => with_phase(s, Phase::Scanning),
        (Phase::DeviceFound, Event::Published(ok)) =>
            if ok { with_phase(s, Phase::Connecting) }
            else { with_phase(s, Phase::Disconnected(SessionError::PublishFailed)) },
        (Phase::Connecting, Event::ConnectDone(ok)) =>
            if ok { with_phase(s, Phase::Connected) }
            else { with_phase(s, Phase::Disconnected(SessionError::ConnectFailed)) },
        (Phase::Connected, Event::ServicesDiscovered(found)) => match found {
            Some(chars) => match heart_rate_characteristic_index(chars@) {
                Some(k) => Session { phase: Phase::Subscribing, device: s.device, characteristic: k as usize, level: s.level },
                None => with_phase(s, Phase::Disconnected(SessionError::CharacteristicNotFound)),
            },
            None => with_phase(s, Phase::Disconnected(SessionError::ServiceDiscoveryFailed)),
        },
        (Phase::Subscribing, Event::SubscribeDone(ok)) =>
            if ok { with_phase(s, Phase::Streaming) }
            else { with_phase(s, Phase::Disconnected(SessionError::SubscribeFailed)) },
        (Phase::Streaming, Event::Notified(c, p)) =>
            match spec_sample_level(heart_rate_measurement_uuid(), c, p@) {
                Some(l) => Session { phase: Phase::Forwarding, device: s.device, characteristic: s.characteristic, level: l },
                None => s,
            },
        (Phase::Streaming, Event::StreamEnded) => with_phase(s, Phase::Disconnecting),
        (Phase::Forwarding, Event::Published(ok)) =>
            if ok { with_phase(s, Phase::Streaming) }
            else { with_phase(s, Phase::Disconnected(SessionError::PublishFailed)) },
        (Phase::Disconnecting, Event::DisconnectDone) =>
            with_phase(s, Phase::Disconnected(SessionError::StreamEnded)),
        (Phase::Disconnected(_), Event::Published(_)) => with_phase(s, Phase::Waiting),
        _ => s,
    }
}

/// Whether a phase lies inside a session: after its `true` status message was
/// asked for and before its `false` one was.
pub open spec fn session_open(phase: Phase) -> bool {
    !(phase is Scanning || phase is Waiting || phase is Disconnected)
}

/// The message that a state asks to publish, if any.
pub open spec fn published(s: Session) -> Seq<Outbound> {
    match command_of(s) {
        Command::Publish(o) => seq![o],
        _ => Seq::empty(),
    }
}

/// Whether every event of a run answers the command it follows.
pub open spec fn run_fits(s: Session, events: Seq<Event>) -> bool
    decreases events.len(),
{
    events.len() == 0 || (event_fits(s.phase, events[0]) && run_fits(next_state(s, events[0]), events.drop_first()))
}

/// The state at the end of a run.
pub open spec fn run_end(s: Session, events: Seq<Event>) -> Session
    decreases events.len(),
{
    if events.len() == 0 {
        s
    } else {
        run_end(next_state(s, events[0]), events.drop_first())
    }
}

/// The messages that a run asks to publish, in order.
pub open spec fn run_published(s: Session, events: Seq<Event>) -> Seq<Outbound>
    decreases events.len(),
{
    if events.len() == 0 {
        Seq::empty()
    } else {
        let t = next_state(s, events[0]);
        published(t) + run_published(t, events.drop_first())
    }
}

/// Reads a sequence of messages against the bracketing rule, from a session
/// that is open or not: `true` opens a session, a percentage needs an open
/// one, `false` closes it. The result is whether a session is open at the end,
/// or `None` where the rule is broken.
pub open spec fn bracket_end(open: bool, msgs: Seq<Outbound>) -> Option<bool>
    decreases msgs.len(),
{
    if msgs.len() == 0 {
        Some(open)
    } else {
        match msgs[0] {
            Outbound::Connected(true) => if open { None } else { bracket_end(true, msgs.drop_first()) },
            Outbound::Connected(false) => if open { bracket_end(false, msgs.drop_first()) } else { None },
            Outbound::Percent(_) => if open { bracket_end(true, msgs.drop_first()) } else { None },
        }
    }
}

proof fn lemma_step_bracketed(s: Session, e: Event, rest: Seq<Outbound>)
    requires
        event_fits(s.phase, e),
    ensures
        bracket_end(session_open(s.phase), published(next_state(s, e)) + rest)
            == bracket_end(session_open(next_state(s, e).phase), rest),
{
    let t = next_state(s, e);
    let msgs = published(t) + rest;
    if published(t).len() == 1 {
        assert(msgs[0] == published(t)[0]);
        assert(msgs.drop_first() =~= rest);
    } else {
        assert(msgs =~= rest);
    }
}

/// Status messages bracket the percentages: along any run in which each event
/// answers the command before it, a `true` status is published only outside a
/// session, each percentage only inside the session that a `true` opened, and
/// a `false` status closes every session before the bridge scans again.
pub proof fn lemma_status_brackets_percentages(s: Session, events: Seq<Event>)
    requires
        run_fits(s, events),
    ensures
        bracket_end(session_open(s.phase), run_published(s, events))
            == Some(session_open(run_end(s, events).phase)),
        s.phase is Scanning && run_end(s, events).phase is Scanning
            ==> bracket_end(false, run_published(s, events)) == Some(false),
    decreases events.len(),
{
    if events.len() > 0 {
        let t = next_state(s, events[0]);
        lemma_step_bracketed(s, events[0], run_published(t, events.drop_first()));
        lemma_status_brackets_percentages(t, events.drop_first());
    }
}

impl Session {
    /// A state is well formed when its level is a percentage.
    pub open spec fn wf(&self) -> bool {
        self.level <= MAX_HEART_RATE
    }

    /// The bridge at start: scanning, with no session open.
    pub fn new() -> (s: Session)
        ensures
            s.phase == Phase::Scanning,
            s.wf(),
            command_of(s) == Command::Scan,
    {
        Session { phase: Phase::Scanning, device: 0, characteristic: 0, level: 0 }
    }

    /// Starts the bridge on the adapters that the system enumerates. With no
    /// adapter it fails with `AdapterAbsent` and yields no session, so no scan
    /// is ever asked for; otherwise it picks the first adapter and a session
    /// whose first command is a scan.
    pub fn start(adapter_count: usize) -> (r: Result<(usize, Session), SessionError>)
        ensures
            adapter_count == 0 <==> r is Err,
            r matches Err(e) ==> e == SessionError::AdapterAbsent,
            r matches Ok((adapter, s)) ==> adapter == 0 && s.phase == Phase::Scanning && s.wf()
                && command_of(s) == Command::Scan,
    {
        match select_adapter(adapter_count) {
            Ok(adapter) => Ok((adapter, Session::new())),
            Err(e) => Err(e),
        }
    }

    /// The command that this state waits on.
    pub fn command(&self) -> (r: Command)
        ensures
            r == command_of(*self),
    {
        match self.phase {
            Phase::Scanning => Command::Scan,
            Phase::Waiting => Command::Wait,
            Phase::DeviceFound => Command::Publish(Outbound::Connected(true)),
            Phase::Connecting => Command::Connect(self.device),
            Phase::Connected => Command::DiscoverServices,
            Phase::Subscribing => Command::Subscribe(self.characteristic),
            Phase::Streaming => Command::NextNotification,
            Phase::Forwarding => Command::Publish(Outbound::Percent(self.level)),
            Phase::Disconnecting => Command::Disconnect,
            Phase::Disconnected(_) => Command::Publish(Outbound::Connected(false)),
        }
    }

    /// Whether `event` answers the command that this state waits on.
    pub fn expects(&self, event: &Event) -> (r: bool)
        ensures
            r == event_fits(self.phase, *event),
    {
        match self.phase {
            Phase::Scanning => match event {
                Event::Scanned(_) | Event::ScanFailed => true,
                _ => false,
            },
            Phase::Waiting => match event {
                Event::Waited => true,
                _ => false,
            },
            Phase::DeviceFound | Phase::Forwarding | Phase::Disconnected(_) => match event {
                Event::Published(_) => true,
                _ => false,
            },
            Phase::Connecting => match event {
                Event::ConnectDone(_) => true,
                _ => false,
            },
            Phase::Connected => match event {
                Event::ServicesDiscovered(_) => true,
                _ => false,
            },
            Phase::Subscribing => match event {
                Event::SubscribeDone(_) => true,
                _ => false,
            },
            Phase::Streaming => match event {
                Event::Notified(c, p) => *c != heart_rate_measurement() || p.len() >= 2,
                Event::StreamEnded => true,
                _ => false,
            },
            Phase::Disconnecting => match event {
                Event::DisconnectDone => true,
                _ => false,
            },
        }
    }

    /// Moves to the state that follows `event` and returns the next command.
    pub fn step(&mut self, event: Event) -> (cmd: Command)
        requires
            old(self).wf(),
            event_fits(old(self).phase, event),
        ensures
            *final(self) == next_state(*old(self), event),
            final(self).wf(),
            cmd == command_of(*final(self)),
    {
        let ghost e = event;
        match self.phase {
            Phase::Scanning => {
                match event {
                    Event::Scanned(list) => match find_hr_device(&list) {
                        Some(i) => {
                            self.phase = Phase::DeviceFound;
                            self.device = i;
                        },
                        None => {
                            self.phase = Phase::Waiting;
                        },
                    },
                    _ => {
                        self.phase = Phase::Waiting;
                    },
                }
            },
            Phase::Waiting => {
                self.phase = Phase::Scanning;
            },
            Phase::DeviceFound => {
                if let Event::Published(ok) = event {
                    if ok {
                        self.phase = Phase::Connecting;
                    } else {
                        self.phase = Phase::Disconnected(SessionError::PublishFailed);
                    }
                }
            },
            Phase::Connecting => {
                if let Event::ConnectDone(ok) = event {
                    if ok {
                        self.phase = Phase::Connected;
                    } else {
                        self.phase = Phase::Disconnected(SessionError::ConnectFailed);
                    }
                }
            },
            Phase::Connected => {
                if let Event::ServicesDiscovered(found) = event {
                    match found {
                        Some(chars) => match find_hr_characteristic(&chars) {
                            Some(k) => {
                                self.phase = Phase::Subscribing;
                                self.characteristic = k;
                            },
                            None => {
                                self.phase = Phase::Disconnected(SessionError::CharacteristicNotFound);
                            },
                        },
                        None => {
                            self.phase = Phase::Disconnected(SessionError::ServiceDiscoveryFailed);
                        },
                    }
                }
            },
            Phase::Subscribing => {
                if let Event::SubscribeDone(ok) = event {
                    if ok {
                        self.phase = Phase::Streaming;
                    } else {
                        self.phase = Phase::Disconnected(SessionError::SubscribeFailed);
                    }
                }
            },
            Phase::Streaming => {
                match event {
                    Event::Notified(c, payload) => {
                        let hr = heart_rate_measurement();
                        match sample_level(hr, c, &payload) {
                            Some(l) => {
                                self.phase = Phase::Forwarding;
                                self.level = l;
                            },
                            None => {},
                        }
                    },
                    _ => {
                        self.phase = Phase::Disconnecting;
                    },
                }
            },
            Phase::Forwarding => {
                if let Event::Published(ok) = event {
                    if ok {
                        self.phase = Phase::Streaming;
                    } else {
                        self.phase = Phase::Disconnected(SessionError::PublishFailed);
                    }
                }
            },
            Phase::Disconnecting => {
                self.phase = Phase::Disconnected(SessionError::StreamEnded);
            },
            Phase::Disconnected(_) => {
                self.phase = Phase::Waiting;
            },
        }
        self.command()
    }
}

} // verus!
