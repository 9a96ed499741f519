use usblog::buffer::BufState;
use usblog::controller::Controller;
use usblog::drain::TransportError;

#[test]
fn forty_then_thirty_swaps_and_flushes_first_buffer() {
    // Capacity 64: 40 bytes land in buffer 0; 30 more do not fit, so the
    // buffers swap and the 30 land in buffer 1. Draining then hands out
    // buffer 0's 40 bytes and resets it.
    let mut c = Controller::new(64);
    c.write(&[7u8; 40]);
    assert_eq!(c.buf0.cursor(), 40);
    assert!(c.buf0.state == BufState::Active);
    c.write(&[8u8; 30]);
    assert!(c.buf0.state == BufState::Flushing);
    assert_eq!(c.buf0.cursor(), 40);
    assert!(c.buf1.state == BufState::Active);
    assert_eq!(c.buf1.cursor(), 30);
    assert_eq!(c.current_idx, 1);

    let mut seen: Vec<u8> = Vec::new();
    let r: Result<(), TransportError> = c.flush(|v: Vec<u8>| {
        seen = v;
        Ok(())
    });
    assert!(r.is_ok());
    assert_eq!(seen, vec![7u8; 40]);
    assert!(c.buf0.state == BufState::Active);
    assert_eq!(c.buf0.cursor(), 0);
    assert_eq!(c.buf1.cursor(), 30);
}

#[test]
fn flush_with_nothing_to_do_skips_sender() {
    let mut c = Controller::new(64);
    c.write(&[1, 2, 3]);
    let mut calls = 0;
    let r: Result<(), TransportError> = c.flush(|_v: Vec<u8>| {
        calls += 1;
        Ok(())
    });
    assert!(r.is_ok());
    assert_eq!(calls, 0);
    assert_eq!(c.buf0.cursor(), 3);
}

#[test]
fn failed_send_still_resets_and_disable_cleans_up() {
    let mut c = Controller::new(64);
    c.write(&[5u8; 64]);
    c.swap();
    assert!(c.buf0.state == BufState::Flushing);
    let r: Result<(), TransportError> = c.flush(|_v: Vec<u8>| Err(TransportError::Disabled));
    assert_eq!(r, Err(TransportError::Disabled));
    // The buffer is reset whether or not the sender succeeded.
    assert!(c.buf0.state == BufState::Active);
    assert_eq!(c.buf0.cursor(), 0);
    // The drain task reacts to the disconnect by disabling: both buffers clean.
    c.disable();
    assert!(!c.enabled);
    assert!(c.buf0.state == BufState::Active && c.buf0.cursor() == 0);
    assert!(c.buf1.state == BufState::Active && c.buf1.cursor() == 0);
}

#[test]
fn two_exact_fills_use_both_buffers_without_loss() {
    // `accepts` is inclusive, so 64 bytes fill a 64-byte buffer exactly;
    // the next 64 trigger a swap and fill buffer 1 exactly. Nothing is lost.
    let mut c = Controller::new(64);
    c.write(&[1u8; 64]);
    assert_eq!(c.buf0.cursor(), 64);
    assert!(c.buf0.state == BufState::Active);
    c.write(&[2u8; 64]);
    assert!(c.buf0.state == BufState::Flushing);
    assert_eq!(c.buf0.cursor(), 64);
    assert!(c.buf1.state == BufState::Active);
    assert_eq!(c.buf1.cursor(), 64);
}

#[test]
fn overflowing_write_with_both_buffers_full_is_dropped() {
    let mut c = Controller::new(64);
    c.write(&[1u8; 64]);
    c.write(&[2u8; 64]);
    c.write(&[3u8; 65]);
    // The oversize write found no room anywhere: dropped, no partial write.
    assert_eq!(c.buf0.cursor(), 64);
    assert_eq!(c.buf1.cursor(), 64);
    assert!(c.buf0.data.iter().all(|&b| b == 1));
    assert!(c.buf1.data.iter().all(|&b| b == 2));
}

#[test]
fn disabled_controller_ignores_writes_and_swaps() {
    let mut c = Controller::new(16);
    c.write(&[1, 2]);
    c.disable();
    c.write(&[3, 4]);
    assert_eq!(c.buf0.cursor(), 0);
    assert_eq!(c.buf1.cursor(), 0);
    c.swap();
    assert_eq!(c.current_idx, 0);
    assert!(c.buf0.state == BufState::Active);
    c.enable();
    c.write(&[3, 4]);
    assert_eq!(c.buf0.cursor(), 2);
}

#[test]
fn slot_zero_drains_first_when_both_are_flushing() {
    let mut c = Controller::new(8);
    c.write(&[1]);
    c.swap();
    c.write(&[2]);
    c.swap();
    assert!(c.buf0.state == BufState::Flushing);
    assert!(c.buf1.state == BufState::Flushing);
    assert_eq!(c.get_flushing(), Some(0));
    let mut seen: Vec<u8> = Vec::new();
    let r: Result<(), TransportError> = c.flush(|v: Vec<u8>| {
        seen = v;
        Ok(())
    });
    assert!(r.is_ok());
    assert_eq!(seen, vec![1]);
    assert_eq!(c.get_flushing(), Some(1));
}

#[test]
fn get_flushing_and_manual_reset_drive_the_low_level_path() {
    let mut c = Controller::new(8);
    c.write(&[1, 2, 3]);
    assert_eq!(c.get_flushing(), None);
    c.swap();
    assert_eq!(c.get_flushing(), Some(0));
    let bytes = c.buffer_bytes(0);
    assert_eq!(bytes, vec![1, 2, 3]);
    c.reset_buffer(0);
    assert_eq!(c.get_flushing(), None);
    assert_eq!(c.buf0.cursor(), 0);
    assert!(c.buf0.state == BufState::Active);
}
