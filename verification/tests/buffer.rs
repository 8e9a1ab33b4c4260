use eir::buffer::Buffer;
use eir::buffer::BUFFER_LEN;
use eir::buffer::QUEUE_LEN;

#[test]
fn capacities_are_as_declared() {
    assert_eq!(BUFFER_LEN, 1024);
    assert_eq!(QUEUE_LEN, 2);
}

#[test]
fn new_buffer_is_empty() {
    let buffer = Buffer::new();
    assert_eq!(buffer.len(), 0);
    assert!(buffer.is_empty());
    assert_eq!(buffer.as_slice(), &[] as &[u8]);
}

#[test]
fn buffer_keeps_the_bytes_it_was_made_from() {
    let buffer = Buffer::from_slice(&[7, 0, 255, 3]).unwrap();
    assert_eq!(buffer.len(), 4);
    assert!(!buffer.is_empty());
    assert_eq!(buffer.as_slice(), &[7, 0, 255, 3]);
}

#[test]
fn buffer_of_no_bytes_is_made() {
    let buffer = Buffer::from_slice(&[]).unwrap();
    assert_eq!(buffer.len(), 0);
    assert!(buffer.is_empty());
}

#[test]
fn buffer_takes_a_payload_of_its_capacity() {
    let payload: Vec<u8> = (0..BUFFER_LEN).map(|i| (i % 251) as u8).collect();
    let buffer = Buffer::from_slice(&payload).unwrap();
    assert_eq!(buffer.len(), BUFFER_LEN);
    assert_eq!(buffer.as_slice(), payload.as_slice());
}

#[test]
fn copy_of_a_payload_that_fits_keeps_its_bytes() {
    let buffer = Buffer::copy_of(&[9, 8, 7]);
    assert_eq!(buffer.as_slice(), &[9, 8, 7]);
    let none = Buffer::copy_of(&[]);
    assert!(none.is_empty());
    let payload = vec![0x5Au8; BUFFER_LEN];
    let full = Buffer::copy_of(&payload);
    assert_eq!(full.len(), BUFFER_LEN);
    assert_eq!(full.as_slice(), payload.as_slice());
}

#[test]
fn buffer_refuses_a_payload_over_its_capacity() {
    let payload = vec![1u8; BUFFER_LEN + 1];
    assert!(Buffer::from_slice(&payload).is_none());
    let far_over = vec![1u8; 3 * BUFFER_LEN];
    assert!(Buffer::from_slice(&far_over).is_none());
}
