//! The send and receive capabilities of a stream, and their composition.

use vstd::prelude::*;
use crate::buf::WriteBuf;
use crate::error::Error;
use crate::poll::Poll;
use crate::stream_id::StreamId;

verus! {

/// The write half of a stream.
///
/// Model: the half's identifier, and whether it is closed for writing
/// (finished or reset). Closing is terminal.
pub trait SendStream {
    /// The error type returned by fallible send methods.
    type Error: Error;

    /// The identifier of this half.
    spec fn spec_send_id(&self) -> StreamId;

    /// Whether the half was finished or reset.
    spec fn spec_send_closed(&self) -> bool;

    /// Attempts to write data into the stream.
    ///
    /// Returns the number of bytes written; `buf` is advanced by exactly that
    /// number. A half that is closed rejects the write. Returning zero
    /// without suspending should not happen, but is not ruled out here.
    fn poll_send(&mut self, cx: &mut std::task::Context<'_>, buf: &mut WriteBuf) -> (r: Poll<Result<usize, Self::Error>>)
        requires
            old(buf).wf(),
        ensures
            final(buf).wf(),
            final(self).spec_send_id() == old(self).spec_send_id(),
            old(self).spec_send_closed() ==> final(self).spec_send_closed(),
            old(self).spec_send_closed() ==> r matches Poll::Ready(Err(_)),
            r matches Poll::Ready(Ok(n)) ==> n <= old(buf)@.len() && final(buf)@ == old(buf)@.skip(n as int),
            !(r is Ready && r->Ready_0 is Ok) ==> final(buf)@ == old(buf)@,
    ;

    /// Poll to finish the sending side of the stream.
    ///
    /// Once it resolves successfully the half is closed for further writes.
    fn poll_finish(&mut self, cx: &mut std::task::Context<'_>) -> (r: Poll<Result<(), Self::Error>>)
        ensures
            final(self).spec_send_id() == old(self).spec_send_id(),
            old(self).spec_send_closed() ==> final(self).spec_send_closed(),
            r matches Poll::Ready(Ok(_)) ==> final(self).spec_send_closed(),
    ;

    /// Abruptly cancel the sending side with an application error code.
    fn reset(&mut self, reset_code: u64)
        ensures
            final(self).spec_send_id() == old(self).spec_send_id(),
            final(self).spec_send_closed(),
    ;

    /// The identifier of this half.
    fn send_id(&self) -> (r: StreamId)
        ensures
            r == self.spec_send_id(),
    ;
}

/// The read half of a stream.
///
/// Model: the half's identifier, and whether end-of-stream was reached.
/// End-of-stream is permanent.
pub trait RecvStream {
    /// The error type that can occur when receiving data.
    type Error: Error;

    /// The identifier of this half.
    spec fn spec_recv_id(&self) -> StreamId;

    /// Whether end-of-stream was reported.
    spec fn spec_at_end(&self) -> bool;

    /// Poll the stream for more data.
    ///
    /// `None` means that no more data will come; once reported, every later
    /// poll reports it again.
    fn poll_data(&mut self, cx: &mut std::task::Context<'_>) -> (r: Poll<Result<Option<bytes::Bytes>, Self::Error>>)
        ensures
            final(self).spec_recv_id() == old(self).spec_recv_id(),
            old(self).spec_at_end() ==> final(self).spec_at_end(),
            old(self).spec_at_end() ==> r matches Poll::Ready(Ok(None)),
            r matches Poll::Ready(Ok(None)) ==> final(self).spec_at_end(),
    ;

    /// Ask the peer to stop sending on this stream, with an application
    /// error code.
    fn stop_sending(&mut self, error_code: u64)
        ensures
            final(self).spec_recv_id() == old(self).spec_recv_id(),
            old(self).spec_at_end() ==> final(self).spec_at_end(),
    ;

    /// The identifier of this half.
    fn recv_id(&self) -> (r: StreamId)
        ensures
            r == self.spec_recv_id(),
    ;
}

/// A bidirectional stream that can be split into independently owned halves.
pub trait BidiStream: SendStream + RecvStream {
    /// The type of the send half.
    type SendStream: SendStream;
    /// The type of the receive half.
    type RecvStream: RecvStream;

    /// Split this stream into its two halves; each keeps the state that the
    /// stream had on its side.
    fn split(self) -> (r: (<Self as BidiStream>::SendStream, <Self as BidiStream>::RecvStream))
        ensures
            r.0.spec_send_id() == self.spec_send_id(),
            r.0.spec_send_closed() == self.spec_send_closed(),
            r.1.spec_recv_id() == self.spec_recv_id(),
            r.1.spec_at_end() == self.spec_at_end(),
    ;
}

} // verus!
