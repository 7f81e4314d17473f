use vsock::{Error, LocalTxBuf, StreamWrite};

#[test]
fn new_buffer_is_empty() {
    let buf = LocalTxBuf::new();
    assert!(buf.is_empty());
    assert_eq!(buf.pending(), b"");
}

#[test]
fn push_keeps_byte_order_across_pushes() {
    let mut buf = LocalTxBuf::new();
    assert_eq!(buf.push(b"hel"), Ok(()));
    assert!(!buf.is_empty());
    assert_eq!(buf.push(b""), Ok(()));
    assert_eq!(buf.push(b"lo wor"), Ok(()));
    assert_eq!(buf.push(b"ld"), Ok(()));
    assert_eq!(buf.pending(), b"hello world");
}

#[test]
fn flushed_drops_what_the_stream_took() {
    let mut buf = LocalTxBuf::new();
    buf.push(b"hello world").unwrap();
    assert_eq!(buf.flushed(StreamWrite::Written(6)), Ok(6));
    assert_eq!(buf.pending(), b"world");
    assert_eq!(buf.flushed(StreamWrite::Written(0)), Ok(0));
    assert_eq!(buf.pending(), b"world");
    assert_eq!(buf.flushed(StreamWrite::Written(5)), Ok(5));
    assert!(buf.is_empty());
}

#[test]
fn flushed_keeps_everything_when_the_stream_would_block() {
    let mut buf = LocalTxBuf::new();
    buf.push(b"data").unwrap();
    assert_eq!(buf.flushed(StreamWrite::WouldBlock), Ok(0));
    assert_eq!(buf.pending(), b"data");
}

#[test]
fn flushed_reports_a_failed_write() {
    let mut buf = LocalTxBuf::new();
    buf.push(b"data").unwrap();
    assert_eq!(buf.flushed(StreamWrite::Failed), Err(Error::UnixWrite));
    assert_eq!(buf.pending(), b"data");
}

#[test]
fn buffer_can_be_refilled_after_a_flush() {
    let mut buf = LocalTxBuf::new();
    buf.push(b"abc").unwrap();
    assert_eq!(buf.flushed(StreamWrite::Written(3)), Ok(3));
    assert!(buf.is_empty());
    buf.push(b"de").unwrap();
    assert_eq!(buf.pending(), b"de");
}
