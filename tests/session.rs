use hr_osc_bridge::ble::{heart_rate_measurement, heart_rate_service, uuid_from_u16};
use hr_osc_bridge::error::SessionError;
use hr_osc_bridge::session::{Command, Event, Outbound, Phase, Session};

fn drive(session: &mut Session, events: Vec<Event>) -> Vec<Command> {
    let mut commands = vec![session.command()];
    for event in events {
        assert!(session.expects(&event));
        commands.push(session.step(event));
    }
    commands
}

fn published(commands: &[Command]) -> Vec<Outbound> {
    commands
        .iter()
        .filter_map(|c| match c {
            Command::Publish(o) => Some(*o),
            _ => None,
        })
        .collect()
}

fn connect_events() -> Vec<Event> {
    vec![
        Event::Scanned(vec![Some(vec![uuid_from_u16(0x180F)]), Some(vec![heart_rate_service()])]),
        Event::Published(true),
        Event::ConnectDone(true),
    ]
}

#[test]
fn three_notifications_then_stream_end() {
    let hr = heart_rate_measurement();
    let mut session = Session::new();
    let mut events = connect_events();
    events.extend(vec![
        Event::ServicesDiscovered(Some(vec![uuid_from_u16(0x2A38), hr])),
        Event::SubscribeDone(true),
        Event::Notified(hr, vec![0, 60]),
        Event::Published(true),
        Event::Notified(hr, vec![0, 100]),
        Event::Published(true),
        Event::Notified(hr, vec![0, 220]),
        Event::Published(true),
        Event::StreamEnded,
        Event::DisconnectDone,
        Event::Published(true),
        Event::Waited,
    ]);
    let commands = drive(&mut session, events);
    assert_eq!(
        published(&commands),
        vec![
            Outbound::Connected(true),
            Outbound::Percent(60),
            Outbound::Percent(100),
            Outbound::Percent(200),
            Outbound::Connected(false),
        ]
    );
    assert_eq!(commands[2], Command::Connect(1));
    assert_eq!(commands[4], Command::Subscribe(1));
    assert_eq!(commands[commands.len() - 4], Command::Disconnect);
    assert_eq!(commands[commands.len() - 2], Command::Wait);
    assert_eq!(commands[commands.len() - 1], Command::Scan);
    assert_eq!(session.phase, Phase::Scanning);
}

#[test]
fn no_heart_rate_peripheral_publishes_nothing() {
    let mut session = Session::new();
    let events = vec![
        Event::Scanned(vec![Some(vec![uuid_from_u16(0x180F)]), None]),
        Event::Waited,
    ];
    let commands = drive(&mut session, events);
    assert_eq!(commands, vec![Command::Scan, Command::Wait, Command::Scan]);
    assert!(published(&commands).is_empty());
}

#[test]
fn failed_scan_waits_and_rescans() {
    let mut session = Session::new();
    let commands = drive(&mut session, vec![Event::ScanFailed, Event::Waited]);
    assert_eq!(commands, vec![Command::Scan, Command::Wait, Command::Scan]);
}

#[test]
fn missing_characteristic_closes_session() {
    let mut session = Session::new();
    let mut events = connect_events();
    events.push(Event::ServicesDiscovered(Some(vec![uuid_from_u16(0x2A38)])));
    let mut commands = drive(&mut session, events);
    assert_eq!(session.phase, Phase::Disconnected(SessionError::CharacteristicNotFound));
    commands.push(session.step(Event::Published(true)));
    commands.push(session.step(Event::Waited));
    assert_eq!(published(&commands), vec![Outbound::Connected(true), Outbound::Connected(false)]);
    assert_eq!(session.phase, Phase::Scanning);
    assert_eq!(session.command(), Command::Scan);
}

#[test]
fn failed_connect_closes_session() {
    let mut session = Session::new();
    let events = vec![
        Event::Scanned(vec![Some(vec![heart_rate_service()])]),
        Event::Published(true),
        Event::ConnectDone(false),
    ];
    let commands = drive(&mut session, events);
    assert_eq!(session.phase, Phase::Disconnected(SessionError::ConnectFailed));
    assert_eq!(commands.last(), Some(&Command::Publish(Outbound::Connected(false))));
}

#[test]
fn failed_discovery_and_subscribe_close_session() {
    let mut session = Session::new();
    let mut events = connect_events();
    events.push(Event::ServicesDiscovered(None));
    drive(&mut session, events);
    assert_eq!(session.phase, Phase::Disconnected(SessionError::ServiceDiscoveryFailed));

    let mut session = Session::new();
    let mut events = connect_events();
    events.push(Event::ServicesDiscovered(Some(vec![heart_rate_measurement()])));
    events.push(Event::SubscribeDone(false));
    drive(&mut session, events);
    assert_eq!(session.phase, Phase::Disconnected(SessionError::SubscribeFailed));
}

#[test]
fn failed_publish_closes_session() {
    let hr = heart_rate_measurement();
    let mut session = Session::new();
    let mut events = connect_events();
    events.extend(vec![
        Event::ServicesDiscovered(Some(vec![hr])),
        Event::SubscribeDone(true),
        Event::Notified(hr, vec![0, 90]),
        Event::Published(false),
    ]);
    let commands = drive(&mut session, events);
    assert_eq!(session.phase, Phase::Disconnected(SessionError::PublishFailed));
    assert_eq!(
        published(&commands),
        vec![Outbound::Connected(true), Outbound::Percent(90), Outbound::Connected(false)]
    );

    let mut session = Session::new();
    let commands = drive(
        &mut session,
        vec![Event::Scanned(vec![Some(vec![heart_rate_service()])]), Event::Published(false)],
    );
    assert_eq!(session.phase, Phase::Disconnected(SessionError::PublishFailed));
    assert_eq!(published(&commands), vec![Outbound::Connected(true), Outbound::Connected(false)]);
}

#[test]
fn other_characteristic_notification_is_ignored() {
    let hr = heart_rate_measurement();
    let mut session = Session::new();
    let mut events = connect_events();
    events.extend(vec![
        Event::ServicesDiscovered(Some(vec![hr])),
        Event::SubscribeDone(true),
        Event::Notified(uuid_from_u16(0x2A38), vec![]),
    ]);
    let commands = drive(&mut session, events);
    assert_eq!(commands.last(), Some(&Command::NextNotification));
    assert_eq!(session.phase, Phase::Streaming);
}

#[test]
fn mismatched_events_are_not_expected() {
    let hr = heart_rate_measurement();
    let session = Session::new();
    assert!(!session.expects(&Event::Waited));
    assert!(!session.expects(&Event::Published(true)));
    assert!(session.expects(&Event::ScanFailed));
    let streaming = Session { phase: Phase::Streaming, device: 0, characteristic: 0, level: 0 };
    assert!(!streaming.expects(&Event::Notified(hr, vec![0])));
    assert!(streaming.expects(&Event::Notified(hr, vec![0, 1])));
    assert!(streaming.expects(&Event::Notified(7, vec![])));
    assert!(streaming.expects(&Event::StreamEnded));
}
