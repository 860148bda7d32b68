//! The transport over which the driver reaches the device.

use vstd::prelude::*;

verus! {

/// One transfer that was asked of a transport, with what came of it: the
/// transport's error, or, for a read, the bytes the device answered.
pub enum Transfer<E> {
    Write { device: u8, bytes: Seq<u8>, outcome: Result<(), E> },
    WriteRead { device: u8, bytes: Seq<u8>, length: nat, outcome: Result<Seq<u8>, E> },
}

impl<E> Transfer<E> {
    /// What a read was answered with; for a write, only whether it failed.
    pub open spec fn answer(self) -> Result<Seq<u8>, E> {
        match self {
            Transfer::Write { outcome: Ok(_), .. } => Ok(Seq::empty()),
            Transfer::Write { outcome: Err(error), .. } => Err(error),
            Transfer::WriteRead { outcome, .. } => outcome,
        }
    }

    /// Whether the transfer is a read that was answered in full.
    pub open spec fn answered(self) -> bool {
        self matches Transfer::WriteRead { length, outcome: Ok(bytes), .. } && bytes.len()
            == length
    }
}

/// The transfers that a transport was asked for, oldest first.
pub type History<E> = Seq<Transfer<E>>;

/// The outcome of a read whose transport reported `result` and left `data`
/// in the buffer.
pub open spec fn read_outcome<E>(result: Result<(), E>, data: Seq<u8>) -> Result<Seq<u8>, E> {
    match result {
        Ok(_) => Ok(data),
        Err(error) => Err(error),
    }
}

/// A register-oriented bus with seven-bit device addresses.
///
/// A transport answers for its history: every transfer it was asked for,
/// oldest first, each with the arguments it was called with and with what
/// it returned. The two operations add exactly the transfer they were
/// called for. Nothing is promised of what a device answers, nor of whether
/// a transfer succeeds.
///
/// The library holds no transport of its own. What is proved of the driver
/// is proved from this promise, and holds of the transports that keep it:
/// those whose `write` and `write_read` are one transfer on the bus with
/// the arguments given, and whose results are what came of that transfer.
pub trait Bus {
    /// What the transport reports when a transfer fails.
    type Error;

    /// Every transfer the transport was asked for, oldest first.
    spec fn history(&self) -> History<Self::Error>;

    /// Sends `bytes` to the device at `address`.
    fn write(&mut self, address: u8, bytes: &[u8]) -> (r: Result<(), Self::Error>)
        ensures
            final(self).history() == old(self).history().push(
                (Transfer::Write { device: address, bytes: bytes@, outcome: r }),
            ),
    ;

    /// Sends `bytes` to the device at `address`, then reads from it until
    /// `buffer` is full, as one transaction.
    fn write_read(&mut self, address: u8, bytes: &[u8], buffer: &mut [u8]) -> (r: Result<
        (),
        Self::Error,
    >)
        ensures
            final(buffer)@.len() == old(buffer)@.len(),
            final(self).history() == old(self).history().push(
                (Transfer::WriteRead {
                    device: address,
                    bytes: bytes@,
                    length: old(buffer)@.len(),
                    outcome: read_outcome(r, final(buffer)@),
                }),
            ),
    ;
}

} // verus!
