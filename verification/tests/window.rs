//! The sliding window keeps exactly the most recent samples, in order,
//! however the stream is cut into chunks.

use frosk::dsp::Buffer;

#[test]
fn gui_test_deque_slice() {
    let mut c = Buffer::new(20);

    for i in 1..=30 {
        c.process_chunk(&[i as i32]);
    }

    let combined: Vec<i32> = c.snapshot();
    assert_eq!(combined.len(), 20);
    for i in 0..20 {
        assert_eq!(combined[i], (i + 11) as i32);
    }
}

#[test]
fn gui_test_rb_slice() {
    let mut b = Buffer::new(20);

    let source: Vec<i32> = (1..=30).collect();
    for chunk in source.chunks(5) {
        b.process_chunk(chunk);
    }

    let combined: Vec<i32> = b.snapshot();
    assert_eq!(combined.len(), 20);
    for i in 0..20 {
        assert_eq!(combined[i], (i + 11) as i32);
    }
}

#[test]
fn dsp_test_deque_slice() {
    let mut c = Buffer::new(20);

    for i in 1..=30 {
        c.process_chunk(&[i as i32]);
    }

    let combined: Vec<i32> = c.snapshot();
    assert_eq!(combined.len(), 20);
    for i in 0..20 {
        assert_eq!(combined[i], (i + 11) as i32);
    }
}

#[test]
fn dsp_test_rb_slice() {
    let mut b = Buffer::new(20);

    let source: Vec<i32> = (1..=30).collect();
    for chunk in source.chunks(5) {
        b.process_chunk(chunk);
    }

    let combined: Vec<i32> = b.snapshot();
    assert_eq!(combined.len(), 20);
    for i in 0..20 {
        assert_eq!(combined[i], (i + 11) as i32);
    }
}

#[test]
fn window_oversized_chunk_keeps_tail() {
    let mut b = Buffer::new(3);
    b.process_chunk(&[1, 2, 3, 4, 5, 6, 7]);
    assert_eq!(b.snapshot(), vec![5, 6, 7]);
}

#[test]
fn window_starts_silent() {
    let b = Buffer::new(4);
    assert_eq!(b.len(), 4);
    assert_eq!(b.snapshot(), vec![0, 0, 0, 0]);
}
