use reweather::network_service::{
    Action, ConnectionState, Event, Fault, NetworkService, Reading, FRAME_LEN,
};

/// The far end of one connection: what it received and whether the server
/// has closed the stream.
#[derive(Default)]
struct Peer {
    received: Vec<u8>,
    closed: bool,
}

/// What the sensor and the socket do in one scripted connection.
#[derive(Clone)]
struct Script {
    temperature: Result<f64, String>,
    pressure: Result<f64, String>,
    write: Result<(), String>,
    close: Result<(), String>,
}

impl Script {
    fn good(temperature: f64, pressure: f64) -> Self {
        Script { temperature: Ok(temperature), pressure: Ok(pressure), write: Ok(()), close: Ok(()) }
    }
}

/// Runs the accept loop over the scripted connections, doing what the server
/// asks, and returns the peers and the faults handed to the error handler.
fn serve(service: &mut NetworkService, scripts: &[Script]) -> (Vec<Peer>, Vec<Fault<String>>) {
    let mut peers: Vec<Peer> = Vec::new();
    let mut faults = Vec::new();
    let mut action: Action<String> = service.start();
    loop {
        let event = match action {
            Action::Accept => {
                if peers.len() == scripts.len() {
                    return (peers, faults);
                }
                peers.push(Peer::default());
                Event::Accepted
            }
            Action::ReadTemperature => match scripts[peers.len() - 1].temperature.clone() {
                Ok(value) => Event::Temperature(value.to_bits()),
                Err(error) => Event::Failed(error),
            },
            Action::ReadPressure => match scripts[peers.len() - 1].pressure.clone() {
                Ok(value) => Event::Pressure(value.to_bits()),
                Err(error) => Event::Failed(error),
            },
            Action::Write(bytes) => match scripts[peers.len() - 1].write.clone() {
                Ok(()) => {
                    let peer = peers.last_mut().unwrap();
                    assert!(!peer.closed);
                    peer.received.extend_from_slice(&bytes);
                    Event::Written
                }
                Err(error) => Event::Failed(error),
            },
            Action::Close => match scripts[peers.len() - 1].close.clone() {
                Ok(()) => {
                    peers.last_mut().unwrap().closed = true;
                    Event::Closed
                }
                Err(error) => Event::Failed(error),
            },
            Action::Report(fault) => {
                if let Some(peer) = peers.last_mut() {
                    peer.closed = true;
                }
                faults.push(fault);
                assert_eq!(service.state(), ConnectionState::Listening);
                if peers.len() == scripts.len() {
                    return (peers, faults);
                }
                peers.push(Peer::default());
                Event::Accepted
            }
        };
        action = service.step(event);
    }
}

fn doubles(bytes: &[u8]) -> [f64; 2] {
    let mut first = [0u8; 8];
    let mut second = [0u8; 8];
    first.copy_from_slice(&bytes[0..8]);
    second.copy_from_slice(&bytes[8..16]);
    [f64::from_le_bytes(first), f64::from_le_bytes(second)]
}

fn is_failed(fault: &Fault<String>, text: &str) -> bool {
    match fault {
        Fault::Failed(error) => error == text,
        Fault::OutOfTurn => false,
    }
}

#[test]
fn client_reads_sixteen_bytes_and_end_of_stream() {
    let mut service = NetworkService::new(3000);
    let (peers, faults) = serve(&mut service, &[Script::good(23.5, 101325.0)]);
    assert!(faults.is_empty());
    assert_eq!(peers.len(), 1);
    assert_eq!(peers[0].received.len(), 16);
    assert_eq!(doubles(&peers[0].received), [23.5, 101325.0]);
    assert!(peers[0].closed);
    assert_eq!(service.state(), ConnectionState::Listening);
    assert_eq!(service.port(), 3000);
}

#[test]
fn frame_is_two_little_endian_doubles() {
    let reading = Reading { temperature: 23.5f64.to_bits(), pressure: 101325.0f64.to_bits() };
    let bytes = reading.encode();
    assert_eq!(bytes.len(), FRAME_LEN);
    assert_eq!(
        bytes,
        vec![
            0x00, 0x00, 0x00, 0x00, 0x00, 0x80, 0x37, 0x40, 0x00, 0x00, 0x00, 0x00, 0xD0, 0xBC,
            0xF8, 0x40
        ]
    );
    assert_eq!(&bytes[0..8], &23.5f64.to_le_bytes());
    assert_eq!(&bytes[8..16], &101325.0f64.to_le_bytes());
}

#[test]
fn encode_is_not_the_identity_on_bit_patterns() {
    let reading = Reading { temperature: 0x0102_0304_0506_0708, pressure: 0x1112_1314_1516_1718 };
    assert_eq!(
        reading.encode(),
        vec![
            0x08, 0x07, 0x06, 0x05, 0x04, 0x03, 0x02, 0x01, 0x18, 0x17, 0x16, 0x15, 0x14, 0x13,
            0x12, 0x11
        ]
    );
}

#[test]
fn decode_undoes_encode() {
    for (t, p) in [(23.5f64, 101325.0f64), (-40.0, 30000.0), (0.0, -0.0), (f64::MAX, f64::MIN_POSITIVE)] {
        let reading = Reading { temperature: t.to_bits(), pressure: p.to_bits() };
        assert_eq!(Reading::decode(&reading.encode()), Some(reading));
    }
    let nan = Reading { temperature: f64::NAN.to_bits(), pressure: f64::INFINITY.to_bits() };
    assert_eq!(Reading::decode(&nan.encode()), Some(nan));
}

#[test]
fn decode_refuses_other_lengths() {
    assert_eq!(Reading::decode(&[]), None);
    assert_eq!(Reading::decode(&[0u8; 15]), None);
    assert_eq!(Reading::decode(&[0u8; 17]), None);
    assert_eq!(Reading::decode(&[0u8; 16]), Some(Reading { temperature: 0, pressure: 0 }));
}

#[test]
fn every_connection_gets_a_fresh_reading() {
    let mut service = NetworkService::new(3000);
    let scripts = [Script::good(20.0, 100000.0), Script::good(21.0, 100100.0), Script::good(22.0, 100200.0)];
    let (peers, faults) = serve(&mut service, &scripts);
    assert!(faults.is_empty());
    assert_eq!(doubles(&peers[0].received), [20.0, 100000.0]);
    assert_eq!(doubles(&peers[1].received), [21.0, 100100.0]);
    assert_eq!(doubles(&peers[2].received), [22.0, 100200.0]);
    assert!(peers.iter().all(|peer| peer.closed && peer.received.len() == 16));
}

#[test]
fn a_failed_connection_is_reported_and_the_next_is_served() {
    let mut bus_error = Script::good(23.5, 101325.0);
    bus_error.temperature = Err("bus error".to_string());
    let mut compensation = Script::good(23.5, 101325.0);
    compensation.pressure = Err("Pressure compensation failed".to_string());
    let mut broken_pipe = Script::good(23.5, 101325.0);
    broken_pipe.write = Err("broken pipe".to_string());
    let mut reset = Script::good(23.5, 101325.0);
    reset.close = Err("connection reset".to_string());
    let scripts = [bus_error, compensation, broken_pipe, reset, Script::good(1.5, 2.5)];

    let mut service = NetworkService::new(3000);
    let (peers, faults) = serve(&mut service, &scripts);
    assert_eq!(faults.len(), 4);
    assert!(is_failed(&faults[0], "bus error"));
    assert!(is_failed(&faults[1], "Pressure compensation failed"));
    assert!(is_failed(&faults[2], "broken pipe"));
    assert!(is_failed(&faults[3], "connection reset"));
    assert!(peers[0].received.is_empty());
    assert!(peers[1].received.is_empty());
    assert!(peers[2].received.is_empty());
    assert_eq!(peers[3].received.len(), 16);
    assert_eq!(doubles(&peers[4].received), [1.5, 2.5]);
    assert!(peers.iter().all(|peer| peer.closed));
}

#[test]
fn a_failed_accept_is_reported() {
    let mut service = NetworkService::new(3000);
    let _: Action<String> = service.start();
    let action = service.step(Event::Failed("too many open files".to_string()));
    assert!(matches!(action, Action::Report(Fault::Failed(ref e)) if e == "too many open files"));
    assert_eq!(service.state(), ConnectionState::Listening);
}

#[test]
fn stages_follow_one_another() {
    let mut service = NetworkService::new(3000);
    assert_eq!(service.state(), ConnectionState::Listening);
    assert!(matches!(service.start::<String>(), Action::Accept));
    assert!(matches!(service.step::<String>(Event::Accepted), Action::ReadTemperature));
    assert_eq!(service.state(), ConnectionState::ReadingTemperature);
    assert!(matches!(service.step::<String>(Event::Temperature(7)), Action::ReadPressure));
    assert_eq!(service.state(), ConnectionState::ReadingPressure { temperature: 7 });
    assert!(matches!(service.step::<String>(Event::Pressure(9)), Action::Write(_)));
    assert_eq!(service.state(), ConnectionState::Writing);
    assert!(matches!(service.step::<String>(Event::Written), Action::Close));
    assert_eq!(service.state(), ConnectionState::Closing);
    assert!(matches!(service.step::<String>(Event::Closed), Action::Accept));
    assert_eq!(service.state(), ConnectionState::Listening);
}

#[test]
fn events_out_of_turn_give_the_connection_up() {
    let mut service = NetworkService::new(3000);
    let _: Action<String> = service.start();
    assert!(matches!(service.step::<String>(Event::Written), Action::Report(Fault::OutOfTurn)));
    assert_eq!(service.state(), ConnectionState::Listening);

    service.step::<String>(Event::Accepted);
    assert!(matches!(service.step::<String>(Event::Pressure(1)), Action::Report(Fault::OutOfTurn)));
    assert_eq!(service.state(), ConnectionState::Listening);

    service.step::<String>(Event::Accepted);
    service.step::<String>(Event::Temperature(1));
    assert!(matches!(service.step::<String>(Event::Temperature(2)), Action::Report(Fault::OutOfTurn)));
    assert_eq!(service.state(), ConnectionState::Listening);
}

#[test]
fn start_forgets_an_open_connection() {
    let mut service = NetworkService::new(9);
    let _: Action<String> = service.start();
    service.step::<String>(Event::Accepted);
    service.step::<String>(Event::Temperature(1));
    assert!(matches!(service.start::<String>(), Action::Accept));
    assert_eq!(service.state(), ConnectionState::Listening);
    assert_eq!(service.port(), 9);
}
