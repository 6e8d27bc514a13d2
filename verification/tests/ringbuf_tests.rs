use synth_engine::RingBuffer;

fn peek(rb: &RingBuffer, len: usize) -> Vec<u32> {
    let mut target: Vec<u32> = vec![0; len];
    rb.copy_data(&mut target);
    target
}

#[test]
fn write_then_peek_returns_written_values() {
    let mut rb = RingBuffer::new(8);
    let written = rb.write(&[10, 20, 30, 40, 50]);
    assert_eq!(written, 5);
    assert_eq!(rb.buffered_unread_count(), 5);
    assert_eq!(peek(&rb, 5), vec![10, 20, 30, 40, 50]);
}

#[test]
fn wraparound_preserves_order() {
    let mut rb = RingBuffer::new(5);
    assert_eq!(rb.write(&[1, 2, 3, 4]), 4);
    rb.advance_read(3);
    // the next write wraps past the end of the 5-slot storage
    assert_eq!(rb.write(&[5, 6, 7]), 3);
    assert_eq!(peek(&rb, 4), vec![4, 5, 6, 7]);
}

#[test]
fn repeated_wraparound_roundtrips() {
    let mut rb = RingBuffer::new(7);
    let mut next: u32 = 0;
    let mut expected: Vec<u32> = Vec::new();
    for round in 0..25 {
        let chunk: Vec<u32> = (0..(round % 5 + 1)).map(|_| {
            next += 1;
            next
        }).collect();
        if rb.available_to_write() >= chunk.len() {
            assert_eq!(rb.write(&chunk), chunk.len());
            expected.extend_from_slice(&chunk);
        }
        assert_eq!(peek(&rb, rb.buffered_unread_count()), expected);
        let drain = expected.len() / 2;
        rb.advance_read(drain);
        expected.drain(..drain);
    }
}

#[test]
fn write_to_full_buffer_returns_zero() {
    let mut rb = RingBuffer::new(4);
    assert_eq!(rb.write(&[1, 2, 3]), 3);
    assert_eq!(rb.available_to_write(), 0);
    // a full buffer accepts nothing and nothing changes
    assert_eq!(rb.write(&[9, 9, 9]), 0);
    assert_eq!(rb.available_to_write(), 0);
    assert_eq!(rb.buffered_unread_count(), 3);
    assert_eq!(peek(&rb, 3), vec![1, 2, 3]);
}

#[test]
fn capacity_is_total_slots_minus_one() {
    let rb = RingBuffer::new(256);
    assert_eq!(rb.capacity(), 255);
}

#[test]
fn free_space_and_buffered_partition_capacity() {
    let mut rb = RingBuffer::new(256);
    assert_eq!(rb.available_to_write() + rb.buffered_unread_count(), rb.capacity());
    rb.write(&[7; 100]);
    assert_eq!(rb.available_to_write() + rb.buffered_unread_count(), rb.capacity());
    rb.advance_read(40);
    assert_eq!(rb.available_to_write() + rb.buffered_unread_count(), rb.capacity());
    rb.write(&[8; 200]);
    assert_eq!(rb.available_to_write() + rb.buffered_unread_count(), rb.capacity());
}

#[test]
fn oversized_write_caps_at_capacity() {
    // 256 slots give 255 usable: a 300-sample write stores the first 255
    let mut rb = RingBuffer::new(256);
    let samples: Vec<u32> = (0..300).collect();
    let written = rb.write(&samples);
    assert_eq!(written, 255);
    assert_eq!(rb.available_to_write(), 0);
    assert_eq!(peek(&rb, 255), samples[..255].to_vec());
}

#[test]
fn peek_does_not_consume() {
    let mut rb = RingBuffer::new(8);
    rb.write(&[5, 6, 7]);
    assert_eq!(peek(&rb, 3), vec![5, 6, 7]);
    assert_eq!(peek(&rb, 3), vec![5, 6, 7]);
    assert_eq!(rb.buffered_unread_count(), 3);
}

#[test]
fn peek_fills_only_buffered_prefix() {
    let mut rb = RingBuffer::new(8);
    rb.write(&[1, 2]);
    let mut target: Vec<u32> = vec![99; 5];
    rb.copy_data(&mut target);
    assert_eq!(target, vec![1, 2, 99, 99, 99]);
}

#[test]
fn empty_buffer_reports_zero_buffered() {
    let rb = RingBuffer::new(16);
    assert_eq!(rb.buffered_unread_count(), 0);
    assert_eq!(rb.available_to_write(), 15);
}

#[test]
fn sample_words_roundtrip_bit_exactly() {
    // sample words are the bit patterns of single-precision samples
    let mut rb = RingBuffer::new(16);
    let samples = [0.0f32, 0.1, -0.25, 1.0, -1.0];
    let words: Vec<u32> = samples.iter().map(|s| s.to_bits()).collect();
    assert_eq!(rb.write(&words), 5);
    let got = peek(&rb, 5);
    for (w, s) in got.iter().zip(samples.iter()) {
        assert_eq!(f32::from_bits(*w).to_bits(), s.to_bits());
    }
}
