//! Power state of a peripheral and its single-byte wire codec.
//!
//! A device reports its power state as a one-byte telemetry payload;
//! decoding is total and maps every unrecognized payload to `Unknown`
//! ("unknown is safe", not an error). Operator commands carry one of
//! the three controllable states and encode to a single byte.

use vstd::prelude::*;

verus! {

/// Observed power state of a peripheral.
///
/// `Starting` and `Unknown` are observation-only: they are decoded from
/// telemetry but never sent as a command.
#[derive(Clone, Copy, Debug, PartialEq, Eq, Structural)]
pub enum PowerState {
    On,
    Standby,
    Sleep,
    Starting,
    Unknown,
}

/// A controllable power state, as carried by an operator command.
#[derive(Clone, Copy, Debug, PartialEq, Eq, Structural)]
pub enum PowerStateCommand {
    On,
    Sleep,
    Standby,
}

/// Meaning of a telemetry payload: one recognized byte gives a definite
/// state, everything else (wrong length or unknown byte) is `Unknown`.
pub open spec fn spec_decode(data: Seq<u8>) -> PowerState {
    if data.len() == 1 {
        if data[0] == 0x00u8 {
            PowerState::Sleep
        } else if data[0] == 0x01u8 || data[0] == 0x0Bu8 {
            PowerState::On
        } else if data[0] == 0x02u8 {
            PowerState::Standby
        } else if data[0] == 0x09u8 {
            PowerState::Starting
        } else {
            PowerState::Unknown
        }
    } else {
        PowerState::Unknown
    }
}

/// Wire byte of a controllable state.
pub open spec fn spec_encode(cmd: PowerStateCommand) -> u8 {
    match cmd {
        PowerStateCommand::On => 0x01u8,
        PowerStateCommand::Sleep => 0x00u8,
        PowerStateCommand::Standby => 0x02u8,
    }
}

/// The observed state a controllable state corresponds to.
pub open spec fn command_state(cmd: PowerStateCommand) -> PowerState {
    match cmd {
        PowerStateCommand::On => PowerState::On,
        PowerStateCommand::Sleep => PowerState::Sleep,
        PowerStateCommand::Standby => PowerState::Standby,
    }
}

impl PowerState {
    /// Decode a telemetry payload. Total: every payload, of any length,
    /// yields a state, never an error.
    pub fn decode(data: &[u8]) -> (r: PowerState)
        ensures
            r == spec_decode(data@),
    {
        if data.len() == 1 {
            match data[0] {
                0x00u8 => PowerState::Sleep,
                0x01u8 => PowerState::On,
                0x0Bu8 => PowerState::On,
                0x02u8 => PowerState::Standby,
                0x09u8 => PowerState::Starting,
                _ => PowerState::Unknown,
            }
        } else {
            PowerState::Unknown
        }
    }
}

impl PowerStateCommand {
    /// Encode a command for the wire.
    pub fn encode(self) -> (r: u8)
        ensures
            r == spec_encode(self),
    {
        match self {
            PowerStateCommand::On => 0x01u8,
            PowerStateCommand::Sleep => 0x00u8,
            PowerStateCommand::Standby => 0x02u8,
        }
    }
}

impl PowerState {
    /// Human-readable name of the state, for presentation.
    pub fn label(&self) -> (r: &'static str)
        ensures
            r@ == self.spec_label(),
    {
        match self {
            PowerState::On => "On",
            PowerState::Standby => "Standby",
            PowerState::Sleep => "Sleep",
            PowerState::Starting => "Starting",
            PowerState::Unknown => "Unknown",
        }
    }

    /// The characters of each state's human-readable name.
    pub open spec fn spec_label(self) -> Seq<char> {
        match self {
            PowerState::On => "On"@,
            PowerState::Standby => "Standby"@,
            PowerState::Sleep => "Sleep"@,
            PowerState::Starting => "Starting"@,
            PowerState::Unknown => "Unknown"@,
        }
    }
}

impl Default for PowerState {
    /// A device starts out with its power state unobserved.
    fn default() -> (r: Self)
        ensures
            r == PowerState::Unknown,
    {
        PowerState::Unknown
    }
}

/// Encoding a controllable state and decoding the resulting one-byte
/// payload gives that state back.
pub proof fn lemma_decode_encode_round_trip(cmd: PowerStateCommand)
    ensures
        spec_decode(seq![spec_encode(cmd)]) == command_state(cmd),
{
}

} // verus!
