//! Telemetry server: the wire format of a reading and the protocol that
//! serves one reading per inbound connection.
//!
//! The server itself does no input or output. It is a state machine: the
//! caller performs the [`Action`] it is handed and reports what came of it as
//! an [`Event`].

use vstd::prelude::*;
use vstd::bytes::{
    lemma_auto_spec_u64_to_from_le_bytes,
    spec_u64_from_le_bytes,
    spec_u64_to_le_bytes,
    u64_from_le_bytes,
    u64_to_le_bytes,
};
use vstd::slice::slice_subrange;

verus! {

/// Number of bytes written to each peer.
pub const FRAME_LEN: usize = 16;

/// One compensated reading. Each value is held as the bit pattern of an
/// IEEE-754 double: temperature in degrees Celsius, pressure in pascals.
#[derive(Clone, Copy, Debug, PartialEq, Eq, Structural)]
pub struct Reading {
    pub temperature: u64,
    pub pressure: u64,
}

impl Reading {
    /// The bytes on the wire: the temperature, little-endian, in bytes 0 to
    /// 7, then the pressure, little-endian, in bytes 8 to 15.
    pub open spec fn frame(self) -> Seq<u8> {
        spec_u64_to_le_bytes(self.temperature) + spec_u64_to_le_bytes(self.pressure)
    }

    /// The reading that sixteen bytes stand for.
    pub open spec fn parse(bytes: Seq<u8>) -> Reading
        recommends
            bytes.len() == FRAME_LEN,
    {
        Reading {
            temperature: spec_u64_from_le_bytes(bytes.subrange(0, 8)),
            pressure: spec_u64_from_le_bytes(bytes.subrange(8, 16)),
        }
    }

    /// Encodes the reading for the wire.
    pub fn encode(&self) -> (bytes: Vec<u8>)
        ensures
            bytes@ == self.frame(),
            bytes@.len() == FRAME_LEN,
    {
        let mut bytes = u64_to_le_bytes(self.temperature);
        let mut tail = u64_to_le_bytes(self.pressure);
        bytes.append(&mut tail);
        bytes
    }

    /// Decodes what a peer received. Anything but sixteen bytes is no frame.
    pub fn decode(bytes: &[u8]) -> (r: Option<Reading>)
        ensures
            r is Some <==> bytes@.len() == FRAME_LEN,
            r matches Some(reading) ==> reading == Self::parse(bytes@) && reading.frame()
                == bytes@,
    {
        if bytes.len() != FRAME_LEN {
            return None;
        }
        let reading = Reading {
            temperature: u64_from_le_bytes(slice_subrange(bytes, 0, 8)),
            pressure: u64_from_le_bytes(slice_subrange(bytes, 8, 16)),
        };
        proof {
            lemma_parse_frame(bytes@);
        }
        Some(reading)
    }
}

/// A frame is sixteen bytes long, and parsing it gives back the reading it
/// was made from, bit for bit.
pub proof fn lemma_frame_parse(reading: Reading)
    ensures
        reading.frame().len() == FRAME_LEN,
        Reading::parse(reading.frame()) == reading,
{
    lemma_auto_spec_u64_to_from_le_bytes();
    let head = spec_u64_to_le_bytes(reading.temperature);
    let tail = spec_u64_to_le_bytes(reading.pressure);
    assert(reading.frame().subrange(0, 8) =~= head);
    assert(reading.frame().subrange(8, 16) =~= tail);
}

/// Any sixteen bytes are the frame of the reading they parse to.
pub proof fn lemma_parse_frame(bytes: Seq<u8>)
    requires
        bytes.len() == FRAME_LEN,
    ensures
        Reading::parse(bytes).frame() == bytes,
{
    lemma_auto_spec_u64_to_from_le_bytes();
    let head = bytes.subrange(0, 8);
    let tail = bytes.subrange(8, 16);
    assert(head + tail =~= bytes);
}

/// Where the server stands with the connection it is serving.
#[derive(Clone, Copy, Debug, PartialEq, Eq, Structural)]
pub enum ConnectionState {
    /// No connection is open; the next one is awaited.
    Listening,
    /// A connection was accepted and the temperature is being read.
    ReadingTemperature,
    /// The temperature is known and the pressure is being read.
    ReadingPressure { temperature: u64 },
    /// The encoded reading is being written to the peer.
    Writing,
    /// The connection is being shut down in both directions.
    Closing,
}

/// What came of the action the server asked for last.
pub enum Event<E> {
    /// A peer connected.
    Accepted,
    /// The sensor gave a temperature.
    Temperature(u64),
    /// The sensor gave a pressure.
    Pressure(u64),
    /// The whole frame was written.
    Written,
    /// The connection was shut down.
    Closed,
    /// The action failed: the bus, the compensation, or the socket.
    Failed(E),
}

/// Why a connection was given up.
pub enum Fault<E> {
    /// The step that was under way failed with this error.
    Failed(E),
    /// An event arrived that does not answer the action that was asked for.
    OutOfTurn,
}

/// What the caller is to do next. Every action but `Report` is answered by
/// one event; after `Report` the caller accepts the next connection and
/// answers with what came of that.
pub enum Action<E> {
    /// Wait for a peer to connect.
    Accept,
    /// Take the sensor, read the temperature, release the sensor.
    ReadTemperature,
    /// Take the sensor, read the pressure, release the sensor.
    ReadPressure,
    /// Write all of these bytes to the peer.
    Write(Vec<u8>),
    /// Shut the connection down in both directions.
    Close,
    /// Drop the connection, if one is open, and hand the fault to the error
    /// handler; then wait for the next peer.
    Report(Fault<E>),
}

/// An action with the bytes to write as a sequence.
pub enum ActionView<E> {
    Accept,
    ReadTemperature,
    ReadPressure,
    Write(Seq<u8>),
    Close,
    Report(Fault<E>),
}

impl<E> View for Action<E> {
    type V = ActionView<E>;

    open spec fn view(&self) -> ActionView<E> {
        match *self {
            Action::Accept => ActionView::Accept,
            Action::ReadTemperature => ActionView::ReadTemperature,
            Action::ReadPressure => ActionView::ReadPressure,
            Action::Write(bytes) => ActionView::Write(bytes@),
            Action::Close => ActionView::Close,
            Action::Report(fault) => ActionView::Report(fault),
        }
    }
}

/// The protocol: the state after `event` arrives in `state`, and the action
/// that answers it.
///
/// A connection runs `Accepted`, then the two sensor readings, then the
/// write of the encoded reading, then the close. A failure at any stage, or
/// an event out of turn, gives the connection up; the server reports it and
/// listens again.
pub open spec fn next<E>(state: ConnectionState, event: Event<E>) -> (ConnectionState, ActionView<E>) {
    match (state, event) {
        (_, Event::Failed(error)) => (
            ConnectionState::Listening,
            ActionView::Report(Fault::Failed(error)),
        ),
        (ConnectionState::Listening, Event::Accepted) => (
            ConnectionState::ReadingTemperature,
            ActionView::ReadTemperature,
        ),
        (ConnectionState::ReadingTemperature, Event::Temperature(temperature)) => (
            ConnectionState::ReadingPressure { temperature },
            ActionView::ReadPressure,
        ),
        (ConnectionState::ReadingPressure { temperature }, Event::Pressure(pressure)) => (
            ConnectionState::Writing,
            ActionView::Write(Reading { temperature, pressure }.frame()),
        ),
        (ConnectionState::Writing, Event::Written) => (
            ConnectionState::Closing,
            ActionView::Close,
        ),
        (ConnectionState::Closing, Event::Closed) => (
            ConnectionState::Listening,
            ActionView::Accept,
        ),
        _ => (ConnectionState::Listening, ActionView::Report(Fault::OutOfTurn)),
    }
}

/// The telemetry server of one listening socket.
pub struct NetworkService {
    port: u16,
    state: ConnectionState,
}

impl NetworkService {
    /// The port the server listens on, on all interfaces.
    pub closed spec fn spec_port(&self) -> u16 {
        self.port
    }

    /// Where the server stands.
    pub closed spec fn spec_state(&self) -> ConnectionState {
        self.state
    }

    /// A server for `port` that serves no connection yet.
    pub fn new(port: u16) -> (service: Self)
        ensures
            service.spec_port() == port,
            service.spec_state() == ConnectionState::Listening,
    {
        NetworkService { port, state: ConnectionState::Listening }
    }

    #[verifier::when_used_as_spec(spec_port)]
    pub fn port(&self) -> (port: u16)
        ensures
            port == self.spec_port(),
    {
        self.port
    }

    #[verifier::when_used_as_spec(spec_state)]
    pub fn state(&self) -> (state: ConnectionState)
        ensures
            state == self.spec_state(),
    {
        self.state
    }

    /// Starts serving: whatever stood before, no connection is open now and
    /// the first one is to be accepted.
    pub fn start<E>(&mut self) -> (action: Action<E>)
        ensures
            final(self).spec_port() == old(self).spec_port(),
            final(self).spec_state() == ConnectionState::Listening,
            action@ == ActionView::<E>::Accept,
    {
        self.state = ConnectionState::Listening;
        Action::Accept
    }

    /// Takes what came of the last action and says what to do next, as
    /// [`next`] lays down.
    pub fn step<E>(&mut self, event: Event<E>) -> (action: Action<E>)
        ensures
            final(self).spec_port() == old(self).spec_port(),
            (final(self).spec_state(), action@) == next(old(self).spec_state(), event),
    {
        let (state, action) = match (self.state, event) {
            (_, Event::Failed(error)) => (
                ConnectionState::Listening,
                Action::Report(Fault::Failed(error)),
            ),
            (ConnectionState::Listening, Event::Accepted) => (
                ConnectionState::ReadingTemperature,
                Action::ReadTemperature,
            ),
            (ConnectionState::ReadingTemperature, Event::Temperature(temperature)) => (
                ConnectionState::ReadingPressure { temperature },
                Action::ReadPressure,
            ),
            (ConnectionState::ReadingPressure { temperature }, Event::Pressure(pressure)) => (
                ConnectionState::Writing,
                Action::Write(Reading { temperature, pressure }.encode()),
            ),
            (ConnectionState::Writing, Event::Written) => (
                ConnectionState::Closing,
                Action::Close,
            ),
            (ConnectionState::Closing, Event::Closed) => (
                ConnectionState::Listening,
                Action::Accept,
            ),
            _ => (ConnectionState::Listening, Action::Report(Fault::OutOfTurn)),
        };
        self.state = state;
        action
    }
}

/// The server writes to a peer only the frame of the two values that the
/// sensor gave for that very connection, and only once both are there.
pub proof fn lemma_write_carries_fresh_reading<E>(state: ConnectionState, event: Event<E>)
    requires
        next(state, event).1 is Write,
    ensures
        state is ReadingPressure,
        event is Pressure,
        next(state, event).0 == ConnectionState::Writing,
        next(state, event).1 == ActionView::<E>::Write(
            Reading { temperature: state->temperature, pressure: event->Pressure_0 }.frame(),
        ),
        next(state, event).1->Write_0.len() == FRAME_LEN,
{
    lemma_frame_parse(Reading { temperature: state->temperature, pressure: event->Pressure_0 });
}

/// A completed write is followed by the close of the connection, and the
/// close by the wait for the next peer.
pub proof fn lemma_write_then_close<E>()
    ensures
        next(ConnectionState::Writing, Event::<E>::Written) == (
            ConnectionState::Closing,
            ActionView::<E>::Close,
        ),
        next(ConnectionState::Closing, Event::<E>::Closed) == (
            ConnectionState::Listening,
            ActionView::<E>::Accept,
        ),
{
}

/// A failure gives the connection up whatever its stage: it is reported, the
/// server listens again, and nothing of the connection is kept.
pub proof fn lemma_failure_abandons<E>(state: ConnectionState, error: E)
    ensures
        next(state, Event::Failed(error)) == (
            ConnectionState::Listening,
            ActionView::Report(Fault::Failed(error)),
        ),
{
}

} // verus!
