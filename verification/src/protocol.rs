//! The conversation between the driver and its host.
//!
//! The driver does no I/O. An operation is a chain of steps: each step either asks the host for
//! one bus transaction or delay, or ends the operation with a result. The host performs what it
//! is asked for and hands the outcome back, together with the [`Pending`] value it was given.

use vstd::prelude::*;

use crate::types::{AddressSlot, Error, PowerMode, RawReading};

verus! {

/// Size of the buffer for received bytes: the longest read covers registers `0x00` to `0x13`.
pub const TRANSFER_LEN: usize = 0x14;

/// What the host is asked to do.
#[derive(Copy, Clone, Debug, PartialEq, Eq, Structural)]
pub enum Action {
    /// Write the single byte `byte` to `address`.
    WriteByte { address: u8, byte: u8 },
    /// Write the two bytes `register` and `value`, in this order, to `address`.
    WriteRegister { address: u8, register: u8, value: u8 },
    /// Read `len` bytes from `address`. `len` is at most [`TRANSFER_LEN`].
    Read { address: u8, len: usize },
    /// Wait for this many microseconds.
    DelayUs { us: u32 },
}

/// Kinds of bus faults.
#[derive(Copy, Clone, Debug, PartialEq, Eq, Structural)]
pub enum FaultKind {
    /// Bus error.
    Bus,
    /// Arbitration was lost.
    ArbitrationLoss,
    /// An address or data byte was not acknowledged.
    NoAcknowledge,
    /// The receive buffer was overrun.
    Overrun,
    /// Any other fault.
    Other,
}

/// How an action went.
#[derive(Debug)]
pub enum Event<E> {
    /// The action succeeded. After a read of `len` bytes these are the first `len` of the buffer;
    /// the rest of it, and all of it after any other action, is ignored.
    Completed([u8; TRANSFER_LEN]),
    /// The bus reported an error of the given kind.
    Failed(E, FaultKind),
}

/// The place of an operation that waits for the outcome of an action.
#[derive(Copy, Clone, Debug, PartialEq, Eq, Structural)]
pub enum Pending {
    /// Initialization: `sent` bytes of the bus reset sequence have been sent.
    BusReset { sent: u8, power_mode: PowerMode },
    /// Initialization: the sensor settles after the bus reset sequence.
    Settling { power_mode: PowerMode },
    /// Initialization: `MOD1` selects the 1-byte read protocol.
    ReadProtocol { power_mode: PowerMode },
    /// Initialization: the register map is read back.
    ReadBack { power_mode: PowerMode },
    /// Initialization: `CONFIG` gets its default value.
    DefaultConfig { power_mode: PowerMode },
    /// `MOD1` is written and `MOD2` follows; `target` is the power mode to record at the end.
    Mod1 { target: Option<PowerMode> },
    /// `MOD2` is written, after `MOD1`.
    Mod2 { target: Option<PowerMode> },
    /// `CONFIG` is written; `scale` is the sensitivity scale to record at the end.
    Config { scale: Option<u8> },
    /// `CONFIG2` is written, after `CONFIG`.
    Config2 { scale: Option<u8> },
    /// `MOD1` is written with the number of a new address slot.
    AddressChange { slot: AddressSlot },
    /// A byte is read at the new address.
    AddressProbe,
    /// The trigger byte is written.
    Trigger,
    /// A data frame is read.
    Frame,
}

impl Pending {
    /// A bound on the number of outcomes that the operation still waits for.
    pub open spec fn remaining(self) -> nat {
        match self {
            Pending::BusReset { sent, .. } => if sent < 4 {
                (8 - sent) as nat
            } else {
                4
            },
            Pending::Settling { .. } => 3,
            Pending::ReadProtocol { .. } => 5,
            Pending::ReadBack { .. } => 4,
            Pending::DefaultConfig { .. } => 3,
            Pending::Mod1 { .. } => 2,
            Pending::Mod2 { .. } => 1,
            Pending::Config { .. } => 2,
            Pending::Config2 { .. } => 1,
            Pending::AddressChange { .. } => 2,
            Pending::AddressProbe => 1,
            Pending::Trigger => 1,
            Pending::Frame => 1,
        }
    }
}

/// What a successful operation gives.
#[derive(Copy, Clone, Debug, PartialEq, Eq, Structural)]
pub enum Outcome {
    /// The operation is done.
    Done,
    /// A frame was read.
    Measured(RawReading),
}

/// One step of an operation.
#[derive(Debug)]
pub enum Step<E> {
    /// The action to perform next, and the value to hand back with its outcome.
    Perform(Action, Pending),
    /// The operation has ended.
    Finished(Result<Outcome, Error<E>>),
}

} // verus!
