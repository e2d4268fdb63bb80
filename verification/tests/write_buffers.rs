use syn2mas::{MasWriteBuffer, WRITE_BUFFER_BATCH_SIZE};

#[test]
fn batch_size_is_4096_rows() {
    assert_eq!(WRITE_BUFFER_BATCH_SIZE, 4096);
}

#[test]
fn rows_wait_until_a_batch_is_full() {
    let mut buffer = MasWriteBuffer::new();
    for row in 0..WRITE_BUFFER_BATCH_SIZE - 1 {
        assert_eq!(buffer.write(row), None);
        assert_eq!(buffer.len(), row + 1);
    }
    let batch = buffer.write(WRITE_BUFFER_BATCH_SIZE - 1).unwrap();
    assert_eq!(batch, (0..WRITE_BUFFER_BATCH_SIZE).collect::<Vec<usize>>());
    assert_eq!(buffer.len(), 0);
    assert_eq!(buffer.finish(), None);
}

#[test]
fn finish_hands_out_what_is_left() {
    let mut buffer = MasWriteBuffer::new();
    assert_eq!(buffer.write("first"), None);
    assert_eq!(buffer.write("second"), None);
    assert_eq!(buffer.write("third"), None);
    assert_eq!(buffer.finish(), Some(vec!["first", "second", "third"]));
}

#[test]
fn finish_of_an_empty_buffer_hands_out_nothing() {
    let buffer: MasWriteBuffer<u8> = MasWriteBuffer::new();
    assert_eq!(buffer.len(), 0);
    assert_eq!(buffer.finish(), None);
}

#[test]
fn every_row_comes_out_once_and_in_order() {
    let total = 2 * WRITE_BUFFER_BATCH_SIZE + 10;
    let mut buffer = MasWriteBuffer::new();
    let mut out: Vec<usize> = Vec::new();
    let mut batches = 0;
    for row in 0..total {
        if let Some(batch) = buffer.write(row) {
            assert_eq!(batch.len(), WRITE_BUFFER_BATCH_SIZE);
            out.extend(batch);
            batches += 1;
        }
    }
    assert_eq!(batches, 2);
    let rest = buffer.finish().unwrap();
    assert_eq!(rest.len(), 10);
    out.extend(rest);
    assert_eq!(out, (0..total).collect::<Vec<usize>>());
}

#[test]
fn flush_empties_the_buffer_for_further_use() {
    let mut buffer = MasWriteBuffer::new();
    assert_eq!(buffer.flush(), None);
    assert_eq!(buffer.write(1), None);
    assert_eq!(buffer.write(2), None);
    assert_eq!(buffer.flush(), Some(vec![1, 2]));
    assert_eq!(buffer.len(), 0);
    assert_eq!(buffer.flush(), None);
    assert_eq!(buffer.write(3), None);
    assert_eq!(buffer.finish(), Some(vec![3]));
}

#[test]
fn batch_fills_anew_after_a_flush() {
    let mut buffer = MasWriteBuffer::new();
    assert_eq!(buffer.write(0usize), None);
    assert_eq!(buffer.flush(), Some(vec![0]));
    for row in 1..WRITE_BUFFER_BATCH_SIZE {
        assert_eq!(buffer.write(row), None);
    }
    let batch = buffer.write(WRITE_BUFFER_BATCH_SIZE).unwrap();
    assert_eq!(batch.len(), WRITE_BUFFER_BATCH_SIZE);
    assert_eq!(batch[0], 1);
    assert_eq!(batch[WRITE_BUFFER_BATCH_SIZE - 1], WRITE_BUFFER_BATCH_SIZE);
}
