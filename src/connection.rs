//! The connection capability and the detachable stream opener.

use vstd::prelude::*;
use crate::buf::bytes_content;
use crate::error::{Error, SendDatagramError};
use crate::poll::Poll;
use crate::stream::{RecvStream, SendStream};

verus! {

/// A connection of the transport.
///
/// Model: whether the connection is closed, and the largest datagram payload
/// it can currently carry (`None` where datagrams cannot be sent at all).
/// Once closed, a connection stays closed: it accepts and opens no stream
/// and yields no datagram. A stream it hands out is open for writing and has
/// not reported end-of-stream.
pub trait Connection {
    /// The type produced by `poll_accept_bidi()`.
    type BidiStream: SendStream + RecvStream;
    /// The type of the sending part of `BidiStream`.
    type SendStream: SendStream;
    /// The type produced by `poll_accept_recv()`.
    type RecvStream: RecvStream;
    /// A producer of outgoing unidirectional and bidirectional streams.
    type OpenStreams: OpenStreams<
        SendStream = Self::SendStream,
        RecvStream = Self::RecvStream,
        BidiStream = Self::BidiStream,
    >;
    /// Error type yielded by this trait's methods.
    type Error: Error;

    /// Whether the connection is closing or closed.
    spec fn spec_closed(&self) -> bool;

    /// The largest datagram payload the connection can carry, if datagrams
    /// can be sent at all.
    spec fn spec_max_datagram_size(&self) -> Option<usize>;

    /// Accept an incoming unidirectional stream.
    ///
    /// `None` means that the connection is closing or closed.
    fn poll_accept_recv(&mut self, cx: &mut std::task::Context<'_>) -> (r: Poll<Result<Option<Self::RecvStream>, Self::Error>>)
        ensures
            old(self).spec_closed() ==> final(self).spec_closed(),
            old(self).spec_closed() ==> r matches Poll::Ready(Ok(None)),
            r matches Poll::Ready(Ok(Some(st))) ==> !st.spec_at_end(),
    ;

    /// Accept an incoming bidirectional stream.
    ///
    /// `None` means that the connection is closing or closed.
    fn poll_accept_bidi(&mut self, cx: &mut std::task::Context<'_>) -> (r: Poll<Result<Option<Self::BidiStream>, Self::Error>>)
        ensures
            old(self).spec_closed() ==> final(self).spec_closed(),
            old(self).spec_closed() ==> r matches Poll::Ready(Ok(None)),
            r matches Poll::Ready(Ok(Some(st))) ==> !st.spec_send_closed() && !st.spec_at_end(),
    ;

    /// Poll the connection to create a new bidirectional stream.
    fn poll_open_bidi(&mut self, cx: &mut std::task::Context<'_>) -> (r: Poll<Result<Self::BidiStream, Self::Error>>)
        ensures
            old(self).spec_closed() ==> final(self).spec_closed(),
            old(self).spec_closed() ==> r matches Poll::Ready(Err(_)),
            r matches Poll::Ready(Ok(st)) ==> !st.spec_send_closed() && !st.spec_at_end(),
    ;

    /// Poll the connection to create a new unidirectional stream.
    fn poll_open_send(&mut self, cx: &mut std::task::Context<'_>) -> (r: Poll<Result<Self::SendStream, Self::Error>>)
        ensures
            old(self).spec_closed() ==> final(self).spec_closed(),
            old(self).spec_closed() ==> r matches Poll::Ready(Err(_)),
            r matches Poll::Ready(Ok(st)) ==> !st.spec_send_closed(),
    ;

    /// Get an object to open outgoing streams; it shares this connection's
    /// state.
    fn opener(&self) -> (r: Self::OpenStreams)
        ensures
            r.spec_closed() == self.spec_closed(),
    ;

    /// Close the connection immediately, sending `code` and `reason` to the
    /// peer.
    fn close(&mut self, code: u64, reason: &[u8])
        ensures
            final(self).spec_closed(),
    ;

    /// Poll the connection for incoming datagrams.
    ///
    /// `None` means that no more datagrams will arrive.
    fn poll_accept_datagram(&mut self, cx: &mut std::task::Context<'_>) -> (r: Poll<Result<Option<bytes::Bytes>, Self::Error>>)
        ensures
            old(self).spec_closed() ==> final(self).spec_closed(),
            old(self).spec_closed() ==> r matches Poll::Ready(Ok(None)),
    ;

    /// Send a datagram, without waiting.
    ///
    /// A payload larger than the connection can carry is reported as too
    /// large; a datagram is only accepted where it fits.
    fn send_datagram(&mut self, data: bytes::Bytes) -> (r: Result<(), SendDatagramError>)
        ensures
            old(self).spec_closed() ==> final(self).spec_closed(),
            (old(self).spec_max_datagram_size() matches Some(m) && bytes_content(data).len() > m)
                ==> r == Err::<(), SendDatagramError>(SendDatagramError::TooLarge),
            r is Ok ==> (old(self).spec_max_datagram_size() matches Some(m) && bytes_content(data).len() <= m),
    ;
}

/// A handle that opens outgoing streams of a connection.
///
/// Model: whether the underlying connection is closed.
pub trait OpenStreams {
    /// The type produced by `poll_open_bidi()`.
    type BidiStream: SendStream + RecvStream;
    /// The type produced by `poll_open_uni()`.
    type SendStream: SendStream;
    /// The type of the receiving part of `BidiStream`.
    type RecvStream: RecvStream;
    /// Error type yielded by these trait methods.
    type Error: Error;

    /// Whether the underlying connection is closing or closed.
    spec fn spec_closed(&self) -> bool;

    /// Poll the connection to create a new bidirectional stream.
    fn poll_open_bidi(&mut self, cx: &mut std::task::Context<'_>) -> (r: Poll<Result<Self::BidiStream, Self::Error>>)
        ensures
            old(self).spec_closed() ==> final(self).spec_closed(),
            old(self).spec_closed() ==> r matches Poll::Ready(Err(_)),
            r matches Poll::Ready(Ok(st)) ==> !st.spec_send_closed() && !st.spec_at_end(),
    ;

    /// Poll the connection to create a new unidirectional stream.
    fn poll_open_uni(&mut self, cx: &mut std::task::Context<'_>) -> (r: Poll<Result<Self::SendStream, Self::Error>>)
        ensures
            old(self).spec_closed() ==> final(self).spec_closed(),
            old(self).spec_closed() ==> r matches Poll::Ready(Err(_)),
            r matches Poll::Ready(Ok(st)) ==> !st.spec_send_closed(),
    ;

    /// Close the connection immediately, sending `code` and `reason` to the
    /// peer.
    fn close(&mut self, code: u64, reason: &[u8])
        ensures
            final(self).spec_closed(),
    ;
}

/// Decide whether a datagram payload fits under `max_size` bytes; the one
/// failure is that it is too large.
pub fn check_datagram_size(data: &bytes::Bytes, max_size: usize) -> (r: Result<(), SendDatagramError>)
    ensures
        r is Ok <==> bytes_content(*data).len() <= max_size,
        r is Err ==> r == Err::<(), SendDatagramError>(SendDatagramError::TooLarge),
{
    if data.len() <= max_size {
        Ok(())
    } else {
        Err(SendDatagramError::TooLarge)
    }
}

} // verus!
