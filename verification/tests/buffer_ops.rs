use usblog::buffer::{BufState, LogBuffer};

#[test]
fn fresh_buffer_is_empty_and_active() {
    let b = LogBuffer::new(64);
    assert_eq!(b.cursor(), 0);
    assert_eq!(b.capacity, 64);
    assert!(b.state == BufState::Active);
    assert!(!b.is_flushing());
}

#[test]
fn accepts_is_inclusive_at_capacity() {
    let b = LogBuffer::new(64);
    assert!(b.accepts(64));
    assert!(!b.accepts(65));
    assert!(b.accepts(0));
}

#[test]
fn write_appends_and_advances_cursor() {
    let mut b = LogBuffer::new(8);
    b.write(&[1, 2, 3]);
    assert_eq!(b.cursor(), 3);
    b.write(&[4]);
    assert_eq!(b.cursor(), 4);
    assert_eq!(b.data, vec![1, 2, 3, 4]);
}

#[test]
fn flush_marks_flushing_and_reset_reactivates() {
    let mut b = LogBuffer::new(4);
    b.write(&[9, 9]);
    b.flush();
    assert!(b.is_flushing());
    assert_eq!(b.cursor(), 2);
    b.reset();
    assert!(!b.is_flushing());
    assert_eq!(b.cursor(), 0);
    assert!(b.state == BufState::Active);
}

#[test]
fn accepts_stays_false_until_reset() {
    let mut b = LogBuffer::new(4);
    b.write(&[1, 2, 3]);
    assert!(!b.accepts(2));
    b.write(&[4]);
    assert!(!b.accepts(2));
    b.flush();
    assert!(!b.accepts(2));
    b.reset();
    assert!(b.accepts(2));
}
