use usblog::buffer::BufState;
use usblog::controller::Controller;
use usblog::drain::{chunk_bytes, drain_step, DrainAction, DrainEvent, DrainState, TransportError};

#[test]
fn connecting_enables_and_starts_flushing() {
    let mut c = Controller::new(16);
    c.disable();
    let (s, a) = drain_step(&mut c, DrainState::WaitConnection, DrainEvent::Connected);
    assert!(c.enabled);
    assert!(s == DrainState::Draining && a == DrainAction::Flush);
}

#[test]
fn quiet_flush_backs_off() {
    let mut c = Controller::new(16);
    let (s, a) = drain_step(&mut c, DrainState::Draining, DrainEvent::FlushDone(Ok(())));
    assert!(s == DrainState::Draining && a == DrainAction::Backoff);
    assert!(c.enabled);
}

#[test]
fn disconnect_disables_and_waits_again() {
    let mut c = Controller::new(16);
    c.write(&[1, 2]);
    c.swap();
    let (s, a) = drain_step(
        &mut c,
        DrainState::Draining,
        DrainEvent::FlushDone(Err(TransportError::Disabled)),
    );
    assert!(s == DrainState::WaitConnection && a == DrainAction::AwaitConnection);
    assert!(!c.enabled);
    assert!(c.buf0.state == BufState::Active && c.buf0.cursor() == 0);
    assert!(c.buf1.state == BufState::Active && c.buf1.cursor() == 0);
}

#[test]
fn oversize_rejection_is_fatal() {
    let mut c = Controller::new(16);
    let (s, a) = drain_step(
        &mut c,
        DrainState::Draining,
        DrainEvent::FlushDone(Err(TransportError::BufferOverflow)),
    );
    assert!(s == DrainState::Draining && a == DrainAction::Fault);
}

#[test]
fn chunks_split_exactly() {
    let bytes: Vec<u8> = (0u8..10).collect();
    let chunks = chunk_bytes(&bytes, 4);
    assert_eq!(chunks, vec![vec![0, 1, 2, 3], vec![4, 5, 6, 7], vec![8, 9]]);
}

#[test]
fn one_chunk_when_size_is_generous() {
    let bytes = vec![1u8, 2, 3];
    let chunks = chunk_bytes(&bytes, 64);
    assert_eq!(chunks, vec![vec![1u8, 2, 3]]);
}

#[test]
fn no_chunks_for_no_bytes() {
    let bytes: Vec<u8> = Vec::new();
    let chunks = chunk_bytes(&bytes, 8);
    assert!(chunks.is_empty());
}

#[test]
fn chunk_boundary_is_exact() {
    let bytes = vec![5u8; 8];
    let chunks = chunk_bytes(&bytes, 4);
    assert_eq!(chunks.len(), 2);
    assert!(chunks.iter().all(|ch| ch.len() == 4));
}
