use w25q::gate::{status_busy, status_write_enabled, step, GateEvent, WritePhase};

#[test]
fn busy_and_wel_bits_are_read_from_status_register_one() {
    assert!(status_busy(0x01));
    assert!(status_busy(0xFF));
    assert!(!status_busy(0x00));
    assert!(!status_busy(0xFE));
    assert!(status_write_enabled(0x02));
    assert!(!status_write_enabled(0x01));
}

#[test]
fn a_mutating_operation_walks_the_write_gate() {
    let p = WritePhase::Idle;
    let p = step(p, GateEvent::EnableSent);
    assert_eq!(p, WritePhase::WriteEnabled);
    let p = step(p, GateEvent::CommandSent);
    assert_eq!(p, WritePhase::CommandIssued);
    let p = step(p, GateEvent::StatusPolled(0x03));
    assert_eq!(p, WritePhase::Busy);
    let p = step(p, GateEvent::StatusPolled(0x01));
    assert_eq!(p, WritePhase::Busy);
    let p = step(p, GateEvent::StatusPolled(0x00));
    assert_eq!(p, WritePhase::Idle);
}

#[test]
fn a_command_that_finishes_at_once_skips_busy() {
    let p = step(WritePhase::CommandIssued, GateEvent::StatusPolled(0x00));
    assert_eq!(p, WritePhase::Idle);
}

#[test]
fn out_of_order_events_change_nothing() {
    assert_eq!(step(WritePhase::Idle, GateEvent::CommandSent), WritePhase::Idle);
    assert_eq!(step(WritePhase::Idle, GateEvent::StatusPolled(0)), WritePhase::Idle);
    assert_eq!(step(WritePhase::WriteEnabled, GateEvent::EnableSent), WritePhase::WriteEnabled);
    assert_eq!(step(WritePhase::Busy, GateEvent::EnableSent), WritePhase::Busy);
    assert_eq!(step(WritePhase::Busy, GateEvent::CommandSent), WritePhase::Busy);
}
