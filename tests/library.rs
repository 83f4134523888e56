use bytes::Bytes;
use h3_quic::buf::WriteBuf;
use h3_quic::connection::check_datagram_size;
use h3_quic::error::{Error, SendDatagramError, TransportError};
use h3_quic::poll::Poll;
use h3_quic::stream_id::{InvalidStreamId, StreamId, MAX_STREAM_ID};

#[test]
fn transport_error_classification() {
    let t = TransportError::timed_out();
    assert!(t.is_timeout());
    assert_eq!(t.err_code(), None);
    let c = TransportError::with_code(0x10c);
    assert!(!c.is_timeout());
    assert_eq!(c.err_code(), Some(0x10c));
}

#[test]
fn erasing_an_error_keeps_its_classification() {
    let lost = SendDatagramError::ConnectionLost(TransportError::with_code(3));
    let erased = TransportError::from_error(&lost);
    assert_eq!(erased, TransportError { timeout: false, code: Some(3) });
    let erased = TransportError::from_error(&SendDatagramError::Disabled);
    assert_eq!(erased, TransportError { timeout: false, code: None });
    let erased = TransportError::from_error(&TransportError::timed_out());
    assert_eq!(erased, TransportError { timeout: true, code: None });
}

#[test]
fn datagram_error_codes() {
    assert_eq!(SendDatagramError::UnsupportedByPeer.err_code(), None);
    assert_eq!(SendDatagramError::Disabled.err_code(), None);
    assert_eq!(SendDatagramError::TooLarge.err_code(), None);
    let lost = SendDatagramError::ConnectionLost(TransportError::with_code(42));
    assert_eq!(lost.err_code(), Some(42));
    let lost_timeout = SendDatagramError::ConnectionLost(TransportError::timed_out());
    assert_eq!(lost_timeout.err_code(), None);
    assert!(!lost_timeout.is_timeout());
    assert!(!SendDatagramError::TooLarge.is_timeout());
}

#[test]
fn datagram_error_descriptions() {
    assert_eq!(SendDatagramError::UnsupportedByPeer.to_string(), "datagrams not supported by peer");
    assert_eq!(SendDatagramError::Disabled.to_string(), "datagram support disabled");
    assert_eq!(SendDatagramError::TooLarge.description(), "datagram too large");
    assert_eq!(
        SendDatagramError::ConnectionLost(TransportError::with_code(1)).description(),
        "connection lost"
    );
}

#[test]
fn stream_id_bounds() {
    assert_eq!(StreamId::try_from_u64(0).unwrap().value(), 0);
    assert_eq!(StreamId::try_from_u64(MAX_STREAM_ID).unwrap().value(), (1u64 << 62) - 1);
    assert_eq!(StreamId::try_from_u64(1u64 << 62), Err(InvalidStreamId { value: 1u64 << 62 }));
    assert_eq!(StreamId::try_from_u64(u64::MAX), Err(InvalidStreamId { value: u64::MAX }));
}

#[test]
fn write_buf_cursor() {
    let mut buf = WriteBuf::new(vec![10, 20, 30, 40]);
    assert_eq!(buf.remaining(), 4);
    assert_eq!(buf.chunk(), &[10u8, 20, 30, 40][..]);
    buf.advance(1);
    assert_eq!(buf.chunk(), &[20u8, 30, 40][..]);
    buf.advance(0);
    assert_eq!(buf.remaining(), 3);
    buf.advance(3);
    assert!(!buf.has_remaining());
    assert_eq!(buf.chunk(), &[] as &[u8]);
}

#[test]
fn empty_write_buf() {
    let buf = WriteBuf::new(Vec::new());
    assert_eq!(buf.remaining(), 0);
    assert!(!buf.has_remaining());
}

#[test]
fn datagram_size_check() {
    let five = Bytes::from_static(b"hello");
    assert_eq!(check_datagram_size(&five, 5), Ok(()));
    assert_eq!(check_datagram_size(&five, 4), Err(SendDatagramError::TooLarge));
    assert_eq!(check_datagram_size(&five, 0), Err(SendDatagramError::TooLarge));
    assert_eq!(check_datagram_size(&Bytes::new(), 0), Ok(()));
}

#[test]
fn poll_states() {
    let r: Poll<u8> = Poll::Ready(1);
    let p: Poll<u8> = Poll::Pending;
    assert!(r.is_ready() && !r.is_pending());
    assert!(p.is_pending() && !p.is_ready());
}
