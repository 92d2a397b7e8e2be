use bbqueue::BBBuffer;
use headtrack::channel::{try_read, try_write, CHANNEL_CAPACITY};

fn drain(consumer: &mut bbqueue::Consumer<'_, 128>) -> Vec<u8> {
    let mut all = Vec::new();
    while let Some(bytes) = try_read(consumer) {
        all.extend_from_slice(&bytes);
    }
    all
}

#[test]
fn capacity_is_fixed() {
    assert_eq!(CHANNEL_CAPACITY, 128);
}

#[test]
fn empty_channel_has_nothing_to_read() {
    let buffer: BBBuffer<128> = BBBuffer::new();
    let (_producer, mut consumer) = buffer.try_split().unwrap();
    assert_eq!(try_read(&mut consumer), None);
    assert_eq!(try_read(&mut consumer), None);
}

#[test]
fn what_is_written_is_read_back() {
    let buffer: BBBuffer<128> = BBBuffer::new();
    let (mut producer, mut consumer) = buffer.try_split().unwrap();
    assert!(try_write(&mut producer, &[1, 2, 3, 4, 5]));
    assert_eq!(try_read(&mut consumer), Some(vec![1, 2, 3, 4, 5]));
    assert_eq!(try_read(&mut consumer), None);
}

#[test]
fn writes_come_out_in_the_order_they_went_in() {
    let buffer: BBBuffer<128> = BBBuffer::new();
    let (mut producer, mut consumer) = buffer.try_split().unwrap();
    assert!(try_write(&mut producer, &[10, 11]));
    assert!(try_write(&mut producer, &[20]));
    assert!(try_write(&mut producer, &[30, 31, 32]));
    assert_eq!(drain(&mut consumer), vec![10, 11, 20, 30, 31, 32]);
}

#[test]
fn write_without_room_fails_and_changes_nothing() {
    let buffer: BBBuffer<128> = BBBuffer::new();
    let (mut producer, mut consumer) = buffer.try_split().unwrap();
    let first: Vec<u8> = (0..100u8).collect();
    assert!(try_write(&mut producer, &first));
    let second: Vec<u8> = (100..140u8).collect();
    assert!(!try_write(&mut producer, &second));
    assert!(!try_write(&mut producer, &second));
    assert_eq!(drain(&mut consumer), first);
}

#[test]
fn write_larger_than_the_channel_fails() {
    let buffer: BBBuffer<128> = BBBuffer::new();
    let (mut producer, mut consumer) = buffer.try_split().unwrap();
    let huge = [7u8; 129];
    assert!(!try_write(&mut producer, &huge));
    assert_eq!(try_read(&mut consumer), None);
    let full = [9u8; 128];
    assert!(try_write(&mut producer, &full));
    assert_eq!(try_read(&mut consumer), Some(full.to_vec()));
}

#[test]
fn room_comes_back_once_bytes_are_read() {
    let buffer: BBBuffer<128> = BBBuffer::new();
    let (mut producer, mut consumer) = buffer.try_split().unwrap();
    let first = [1u8; 120];
    let second = [2u8; 30];
    assert!(try_write(&mut producer, &first));
    assert!(!try_write(&mut producer, &second));
    assert_eq!(try_read(&mut consumer), Some(first.to_vec()));
    assert!(try_write(&mut producer, &second));
    assert_eq!(try_read(&mut consumer), Some(second.to_vec()));
    assert_eq!(try_read(&mut consumer), None);
}

#[test]
fn order_holds_while_the_buffer_goes_round() {
    let buffer: BBBuffer<128> = BBBuffer::new();
    let (mut producer, mut consumer) = buffer.try_split().unwrap();
    let mut written: Vec<u8> = Vec::new();
    let mut read: Vec<u8> = Vec::new();
    let mut next: u8 = 0;
    for round in 0..200usize {
        let len = 1 + (round * 7) % 40;
        let chunk: Vec<u8> = (0..len)
            .map(|_| {
                next = next.wrapping_add(1);
                next
            })
            .collect();
        if try_write(&mut producer, &chunk) {
            written.extend_from_slice(&chunk);
        }
        if round % 3 == 2 {
            if let Some(bytes) = try_read(&mut consumer) {
                read.extend_from_slice(&bytes);
            }
        }
        assert!(read.len() <= written.len());
        assert_eq!(&written[..read.len()], &read[..]);
    }
    read.extend_from_slice(&drain(&mut consumer));
    assert_eq!(read, written);
    assert!(written.len() > 128);
}

#[test]
fn empty_write_is_taken_and_adds_nothing() {
    let buffer: BBBuffer<128> = BBBuffer::new();
    let (mut producer, mut consumer) = buffer.try_split().unwrap();
    assert!(try_write(&mut producer, &[]));
    assert_eq!(try_read(&mut consumer), None);
    assert!(try_write(&mut producer, &[5]));
    assert_eq!(try_read(&mut consumer), Some(vec![5]));
}
