//! The write-enable/busy-poll discipline around mutating commands.
//!
//! Every mutating operation walks one path: send write-enable, send the
//! command, then poll status register 1 until its busy bit clears.  The
//! protocol is a four-state machine; [`step`] computes the next state from
//! the event the bus reported.  The caller performs the sends and polls and
//! feeds the events back; the only way out of `Busy` is a poll whose status
//! byte has the busy bit clear.

use vstd::prelude::*;

verus! {

/// Where a mutating operation stands in the write-gate protocol.
#[derive(Debug, Clone, Copy, PartialEq, Eq, Structural)]
pub enum WritePhase {
    /// No mutating command in flight.
    Idle,
    /// Write-enable has been sent; the command may follow.
    WriteEnabled,
    /// The mutating command has been sent; no status seen yet.
    CommandIssued,
    /// The chip reported busy; keep polling.
    Busy,
}

/// What the bus last did for the protocol.
#[derive(Debug, Clone, Copy, PartialEq, Eq, Structural)]
pub enum GateEvent {
    /// The write-enable transaction completed.
    EnableSent,
    /// The mutating command transaction completed.
    CommandSent,
    /// Status register 1 was read; this is its byte.
    StatusPolled(u8),
}

/// The busy bit of a status-register-1 byte.
pub open spec fn spec_busy(status: u8) -> bool {
    status & 0x01 != 0
}

/// Whether a status-register-1 byte reports an operation in progress.
pub fn status_busy(status: u8) -> (r: bool)
    ensures
        r == spec_busy(status),
{
    status & 0x01 != 0
}

/// The write-enable latch bit of a status-register-1 byte.
pub fn status_write_enabled(status: u8) -> (r: bool)
    ensures
        r == ((status & 0x02) != 0),
{
    status & 0x02 != 0
}

/// The protocol's transition function.  An event that does not belong to
/// the current phase changes nothing.
pub open spec fn spec_step(phase: WritePhase, event: GateEvent) -> WritePhase {
    match (phase, event) {
        (WritePhase::Idle, GateEvent::EnableSent) => WritePhase::WriteEnabled,
        (WritePhase::WriteEnabled, GateEvent::CommandSent) => WritePhase::CommandIssued,
        (WritePhase::CommandIssued, GateEvent::StatusPolled(s)) => if spec_busy(s) {
            WritePhase::Busy
        } else {
            WritePhase::Idle
        },
        (WritePhase::Busy, GateEvent::StatusPolled(s)) => if spec_busy(s) {
            WritePhase::Busy
        } else {
            WritePhase::Idle
        },
        (p, _) => p,
    }
}

/// Advance the protocol by one observed event.
pub fn step(phase: WritePhase, event: GateEvent) -> (r: WritePhase)
    ensures
        r == spec_step(phase, event),
{
    match (phase, event) {
        (WritePhase::Idle, GateEvent::EnableSent) => WritePhase::WriteEnabled,
        (WritePhase::WriteEnabled, GateEvent::CommandSent) => WritePhase::CommandIssued,
        (WritePhase::CommandIssued, GateEvent::StatusPolled(s)) => if status_busy(s) {
            WritePhase::Busy
        } else {
            WritePhase::Idle
        },
        (WritePhase::Busy, GateEvent::StatusPolled(s)) => if status_busy(s) {
            WritePhase::Busy
        } else {
            WritePhase::Idle
        },
        (p, _) => p,
    }
}

/// The only transition out of `Busy` is a status poll whose busy bit is
/// clear, and it leads to `Idle`; every other event leaves the phase `Busy`.
pub proof fn lemma_busy_exit(event: GateEvent)
    ensures
        spec_step(WritePhase::Busy, event) == WritePhase::Idle <==> (event matches
            GateEvent::StatusPolled(s) && !spec_busy(s)),
        spec_step(WritePhase::Busy, event) == WritePhase::Idle || spec_step(
            WritePhase::Busy,
            event,
        ) == WritePhase::Busy,
{
}

/// A mutating operation reaches the chip only through the write gate: from
/// `Idle`, the command can be issued only after the write-enable event, and
/// after the command the phase leaves `CommandIssued` or `Busy` only once a
/// poll reports the busy bit clear.
pub proof fn lemma_gate_order(phase: WritePhase, event: GateEvent)
    ensures
        spec_step(WritePhase::Idle, event) == WritePhase::WriteEnabled <==> event
            == GateEvent::EnableSent,
        spec_step(phase, event) == WritePhase::CommandIssued && phase != WritePhase::CommandIssued
            ==> phase == WritePhase::WriteEnabled && event == GateEvent::CommandSent,
{
}

} // verus!
