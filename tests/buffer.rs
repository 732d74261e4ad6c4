use async_imap::buffer::{Buffer, BLOCK_SIZE, MAX_CAPACITY};
use async_imap::error::{Error, IoErrorKind};

#[test]
fn test_buffer_empty() {
    let buf = Buffer::new();
    assert_eq!(buf.used(), 0);

    let buf = Buffer::new();
    assert_eq!(buf.free_len(), BLOCK_SIZE);
    assert_eq!(buf.free_len(), buf.capacity());
}

#[test]
fn test_buffer_extend_use() {
    let mut buf = Buffer::new();
    buf.extend_used(3);
    assert_eq!(buf.used(), 3);
    assert_eq!(buf.free_len(), BLOCK_SIZE - 3);

    // Extend past the end of the buffer.
    buf.extend_used(BLOCK_SIZE);
    assert_eq!(buf.used(), BLOCK_SIZE);
    assert_eq!(buf.used(), BLOCK_SIZE);
    assert_eq!(buf.capacity(), buf.used());
    assert_eq!(buf.free_len(), 0);
}

#[test]
fn test_buffer_write_read() {
    let mut buf = Buffer::new();
    buf.write_free(b"hello");

    assert_eq!(buf.data(), b"hello");
    assert_eq!(buf.free_len(), buf.capacity() - buf.used());
}

#[test]
fn test_buffer_grow() {
    let mut buf = Buffer::new();
    assert_eq!(buf.capacity(), BLOCK_SIZE);
    buf.grow(1).unwrap();
    assert_eq!(buf.capacity(), 2 * BLOCK_SIZE);

    buf.grow(BLOCK_SIZE + 1).unwrap();
    assert_eq!(buf.capacity(), 4 * BLOCK_SIZE);

    let ret = buf.grow(MAX_CAPACITY);
    assert!(ret.is_err());
}

#[test]
fn test_buffer_ensure_capacity() {
    // Initial state: 1 byte capacity left, initial size.
    let mut buf = Buffer::new();
    buf.extend_used(BLOCK_SIZE - 1);
    assert_eq!(buf.free_len(), 1);
    assert_eq!(buf.capacity(), BLOCK_SIZE);

    // Still has capacity, no size request.
    buf.ensure_capacity(0).unwrap();
    assert_eq!(buf.free_len(), 1);
    assert_eq!(buf.capacity(), BLOCK_SIZE);

    // No more capacity, initial size.
    buf.extend_used(1);
    assert_eq!(buf.free_len(), 0);
    assert_eq!(buf.capacity(), BLOCK_SIZE);

    // No capacity, no size request.
    buf.ensure_capacity(0).unwrap();
    assert_eq!(buf.free_len(), BLOCK_SIZE);
    assert_eq!(buf.capacity(), 2 * BLOCK_SIZE);

    // Some capacity, size request: the free tail must hold the request.
    buf.extend_used(5);
    assert_eq!(buf.used(), BLOCK_SIZE + 5);
    buf.ensure_capacity(3 * BLOCK_SIZE - 6).unwrap();
    assert_eq!(buf.free_len(), 3 * BLOCK_SIZE - 5);
    assert_eq!(buf.capacity(), 4 * BLOCK_SIZE);
}

#[test]
fn test_ensure_capacity_loop() {
    let mut buf = Buffer::new();

    for i in 1..500 {
        // Ask for `i` bytes.
        buf.ensure_capacity(i).unwrap();

        // Test that we can read at least as much as requested.
        let used = buf.free_len();
        assert!(used >= i);

        // Use as much as allowed.
        buf.extend_used(used);
    }
}

#[test]
fn test_buffer_take_and_return_block() {
    // This test identifies blocks by their size.
    let mut buf = Buffer::new();
    buf.grow(1).unwrap();
    let block_size = buf.capacity();

    let block = buf.take_block();
    assert_eq!(block.len(), block_size);
    assert_ne!(buf.capacity(), block_size);

    buf.return_block(block);
    assert_eq!(buf.capacity(), block_size);
}

#[test]
fn test_buffer_reset_with_data() {
    // This test identifies blocks by their size.
    let data: [u8; 2 * BLOCK_SIZE] = [b'a'; 2 * BLOCK_SIZE];
    let mut buf = Buffer::new();
    let block_size = buf.capacity();
    assert_eq!(block_size, BLOCK_SIZE);
    buf.reset_with_data(&data);
    assert_ne!(buf.capacity(), block_size);
    assert_eq!(buf.capacity(), 3 * BLOCK_SIZE);
    assert!(buf.free_len() > 0);

    let data: [u8; 0] = [];
    let mut buf = Buffer::new();
    buf.reset_with_data(&data);
    assert_eq!(buf.capacity(), BLOCK_SIZE);
}

#[test]
fn buffer_reset_keeps_data_and_a_free_byte() {
    let mut buf = Buffer::new();
    buf.reset_with_data(b"rest of line");
    assert_eq!(buf.data(), b"rest of line");
    assert_eq!(buf.used(), 12);
    assert_eq!(buf.capacity(), BLOCK_SIZE);
}

#[test]
fn buffer_grow_past_ceiling_is_too_large() {
    let mut buf = Buffer::new();
    match buf.ensure_capacity(MAX_CAPACITY + 1) {
        Err(Error::Io(IoErrorKind::TooLarge)) => {}
        other => panic!("unexpected: {:?}", other),
    }
    assert_eq!(buf.capacity(), BLOCK_SIZE);
    buf.ensure_capacity(MAX_CAPACITY - BLOCK_SIZE).unwrap();
    assert_eq!(buf.capacity(), MAX_CAPACITY - BLOCK_SIZE);
    buf.extend_used(1);
    buf.ensure_capacity(MAX_CAPACITY - BLOCK_SIZE).unwrap();
    assert_eq!(buf.capacity(), MAX_CAPACITY);
}

#[test]
fn ensure_capacity_counts_the_free_tail() {
    let mut buf = Buffer::new();
    buf.extend_used(4000);
    buf.ensure_capacity(200).unwrap();
    assert!(buf.free_len() >= 200);
    assert_eq!(buf.capacity(), 2 * BLOCK_SIZE);
    assert_eq!(buf.used(), 4000);
    buf.ensure_capacity(100).unwrap();
    assert_eq!(buf.capacity(), 2 * BLOCK_SIZE);
}

#[test]
fn failed_growth_keeps_the_buffer() {
    let mut buf = Buffer::new();
    buf.write_free(b"abc");
    assert!(buf.ensure_capacity(MAX_CAPACITY).is_err());
    assert_eq!(buf.capacity(), BLOCK_SIZE);
    assert_eq!(buf.data(), b"abc");
}
