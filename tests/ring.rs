use defmtusb::ring::{Controller, BUFFERSIZE};
use loopq::embassy::AsyncBuffer;

fn fresh_buffer() -> &'static AsyncBuffer<BUFFERSIZE> {
    Box::leak(Box::new(AsyncBuffer::new()))
}

fn drain(buffer: &'static AsyncBuffer<BUFFERSIZE>) -> Vec<u8> {
    let mut consumer = buffer.consumer();
    let mut out = Vec::new();
    loop {
        let view = consumer.try_readable_bytes();
        if view.is_empty() {
            break;
        }
        out.extend_from_slice(&view);
        let n = view.len();
        view.consume(n);
    }
    out
}

fn frame(len: usize, seed: u8) -> Vec<u8> {
    (0..len).map(|i| seed.wrapping_add(i as u8)).collect()
}

#[test]
fn capacity_is_sixty_four() {
    assert_eq!(BUFFERSIZE, 64);
}

#[test]
fn writes_arrive_concatenated_in_call_order() {
    let buffer = fresh_buffer();
    let mut c = Controller::new(buffer.producer());
    c.write(&[1, 2, 3]);
    c.write(&[]);
    c.write(&[4, 5]);
    c.write(&[6]);
    drop(c);
    assert_eq!(drain(buffer), vec![1, 2, 3, 4, 5, 6]);
}

#[test]
fn second_frame_is_truncated_at_capacity() {
    let buffer = fresh_buffer();
    let mut c = Controller::new(buffer.producer());
    let first = frame(40, 0);
    let second = frame(40, 100);
    c.write(&first);
    c.write(&second);
    drop(c);
    let got = drain(buffer);
    assert_eq!(got.len(), 64);
    assert_eq!(&got[..40], &first[..]);
    assert_eq!(&got[40..], &second[..24]);
}

#[test]
fn write_into_full_buffer_drops_everything() {
    let buffer = fresh_buffer();
    let mut c = Controller::new(buffer.producer());
    c.write(&frame(64, 7));
    c.write(&[9, 9, 9]);
    drop(c);
    assert_eq!(drain(buffer), frame(64, 7));
}

#[test]
fn write_larger_than_capacity_keeps_leading_bytes() {
    let buffer = fresh_buffer();
    let mut c = Controller::new(buffer.producer());
    let big = frame(100, 3);
    c.write(&big);
    drop(c);
    assert_eq!(drain(buffer), big[..64].to_vec());
}

#[test]
fn write_across_wrap_uses_both_regions() {
    let buffer = fresh_buffer();
    let mut consumer = buffer.consumer();
    let mut c = Controller::new(buffer.producer());
    c.write(&frame(50, 0));
    let view = consumer.try_readable_bytes();
    assert_eq!(view.len(), 50);
    view.consume(50);
    // 14 bytes fit before the end of storage, the other 16 wrap to the front.
    let wrapped = frame(30, 200);
    c.write(&wrapped);
    let mut got = Vec::new();
    loop {
        let view = consumer.try_readable_bytes();
        if view.is_empty() {
            break;
        }
        got.extend_from_slice(&view);
        let n = view.len();
        view.consume(n);
    }
    assert_eq!(got, wrapped);
}
