//! A stream: what may be sent and received on it, and how it ends.

use crate::channel::WriteRequest;
use crate::error::TokioSmuxError;
use crate::frame::{Cmd, Frame, FrameView, Sid};
use tokio::sync::{mpsc, oneshot};
use vstd::prelude::*;

verus! {

/// What the session has said about closing a stream.
#[derive(Clone, Copy, Debug, PartialEq, Eq, Structural)]
pub enum CloseSignal {
    /// The session closes the stream.
    Received,
    /// The session is gone.
    Closed,
    /// The session has said nothing.
    Empty,
}

/// Calls `tokio::sync::oneshot::Receiver::try_recv`, and tells its outcomes apart. What it returns
/// depends on what the session has done so far, so nothing is claimed of it.
#[verifier::external_body]
fn try_recv_close(close_rx: &mut oneshot::Receiver<()>) -> CloseSignal {
    match close_rx.try_recv() {
        Ok(()) => CloseSignal::Received,
        Err(oneshot::error::TryRecvError::Closed) => CloseSignal::Closed,
        Err(oneshot::error::TryRecvError::Empty) => CloseSignal::Empty,
    }
}

/// Whether `signal` is an answer that asking `close_rx` can give: a possible outcome of the one call
/// that asks it. Nothing else makes a signal an answer.
pub closed spec fn is_answer(close_rx: oneshot::Receiver<()>, signal: CloseSignal) -> bool {
    exists|asked: &mut oneshot::Receiver<()>|
        *asked == close_rx && #[trigger] call_ensures(try_recv_close, (asked,), signal)
}

/// Whether the session has said nothing so far, whenever `close_rx` is asked.
pub open spec fn is_silent(close_rx: oneshot::Receiver<()>) -> bool {
    forall|signal: CloseSignal| #[trigger]
        is_answer(close_rx, signal) ==> signal == CloseSignal::Empty
}

/// Whether the session has closed the stream or is gone, whenever `close_rx` is asked.
pub open spec fn has_spoken(close_rx: oneshot::Receiver<()>) -> bool {
    forall|signal: CloseSignal| #[trigger]
        is_answer(close_rx, signal) ==> signal != CloseSignal::Empty
}

/// An answer comes of asking, and of nothing else.
proof fn answers_come_of_asking(close_rx: oneshot::Receiver<()>, signal: CloseSignal)
    ensures
        is_answer(close_rx, signal) <==> exists|asked: &mut oneshot::Receiver<()>|
            *asked == close_rx && #[trigger] call_ensures(try_recv_close, (asked,), signal),
{
}

/// A stream of a session.
pub struct Stream {
    pub sid: Sid,
    /// Where the frames of this stream arrive.
    pub frame_rx: mpsc::Receiver<Frame>,
    /// Where the frames that the stream writes go.
    pub write_tx: Option<mpsc::Sender<WriteRequest>>,
    /// Where the session closes the stream for writing.
    pub close_rx: oneshot::Receiver<()>,
    /// Where the session is told that the stream is gone.
    pub drop_tx: Option<mpsc::Sender<Sid>>,
    /// Whether the remote has ended the stream.
    pub receive_remote_fin: bool,
    /// Whether the session has closed the stream.
    pub closed: bool,
}

/// The state of a stream.
#[verifier::ext_equal]
pub struct StreamView {
    pub sid: Sid,
    pub receive_remote_fin: bool,
    pub closed: bool,
}

impl View for Stream {
    type V = StreamView;

    open spec fn view(&self) -> StreamView {
        StreamView {
            sid: self.sid,
            receive_remote_fin: self.receive_remote_fin,
            closed: self.closed,
        }
    }
}

/// What comes of receiving on a stream.
pub enum Received {
    /// The remote has ended the stream.
    End,
    /// Data.
    Data(Seq<u8>),
    /// The session has ended the stream, and all data was received.
    Closed,
    /// A data frame without data.
    NoData,
    /// A frame with this command, which no stream receives.
    Unexpected(u8),
}

impl StreamView {
    /// The state of a new stream.
    pub open spec fn new(sid: Sid) -> StreamView {
        StreamView { sid, receive_remote_fin: false, closed: false }
    }

    /// Whether the stream is over for writing, as far as it knows.
    pub open spec fn is_over(self) -> bool {
        self.closed || self.receive_remote_fin
    }

    /// The state once the session's word on closing the stream is taken in.
    pub open spec fn upon(self, signal: CloseSignal) -> StreamView {
        StreamView { closed: self.closed || (!self.is_over() && signal != CloseSignal::Empty), ..self }
    }

    /// The frame that carries `data`.
    pub open spec fn message(self, data: Seq<u8>) -> FrameView {
        FrameView::bare(1, Cmd::Psh, self.sid).carrying(data)
    }

    /// The frame that ends the stream.
    pub open spec fn fin(self) -> FrameView {
        FrameView::bare(1, Cmd::Fin, self.sid)
    }

    /// What comes of receiving `frame`, or of the session having no more frames.
    pub open spec fn receiving(self, frame: Option<FrameView>) -> Received {
        if self.receive_remote_fin {
            Received::End
        } else {
            match frame {
                None => Received::Closed,
                Some(frame) => match frame.cmd {
                    Cmd::Fin => Received::End,
                    Cmd::Psh => match frame.data {
                        None => Received::NoData,
                        Some(data) => Received::Data(data),
                    },
                    cmd => Received::Unexpected(cmd.byte()),
                },
            }
        }
    }

    /// The state after receiving `frame`.
    pub open spec fn after(self, frame: Option<FrameView>) -> StreamView {
        StreamView {
            receive_remote_fin: self.receive_remote_fin || (frame matches Some(frame) && frame.cmd
                == Cmd::Fin),
            ..self
        }
    }
}

/// Whether `res` is how `received` is reported.
pub open spec fn reports(
    res: Result<Option<Vec<u8>>, TokioSmuxError>,
    received: Received,
) -> bool {
    match received {
        Received::End => res matches Ok(None),
        Received::Data(data) => res matches Ok(Some(got)) && got@ == data,
        Received::Closed => res matches Err(TokioSmuxError::StreamClosed),
        Received::NoData => res matches Err(TokioSmuxError::Default { msg }) && msg@
            == "receive unexpected none data"@,
        Received::Unexpected(byte) => res matches Err(
            TokioSmuxError::StreamReceiveUnexpectedCmd { cmd_value },
        ) && cmd_value == byte,
    }
}

/// The view of an optional frame.
pub open spec fn view_of(frame: Option<Frame>) -> Option<FrameView> {
    match frame {
        Some(frame) => Some(frame@),
        None => None,
    }
}

/// What is due when a stream goes away.
pub struct Farewell {
    /// The id of the stream, which the session is told.
    pub sid: Sid,
    /// Where to tell the session.
    pub drop_tx: Option<mpsc::Sender<Sid>>,
    /// The end of the stream for the remote, and where to write it.
    pub fin: Option<(mpsc::Sender<WriteRequest>, WriteRequest)>,
}

impl Stream {
    /// A new stream.
    pub fn new(
        sid: Sid,
        frame_rx: mpsc::Receiver<Frame>,
        write_tx: mpsc::Sender<WriteRequest>,
        close_rx: oneshot::Receiver<()>,
    ) -> (res: Stream)
        ensures
            res@ == StreamView::new(sid),
            res.sid == sid && !res.receive_remote_fin && !res.closed,
            res.frame_rx == frame_rx,
            res.write_tx == Some(write_tx),
            res.close_rx == close_rx,
            res.drop_tx is None,
    {
        Stream {
            sid,
            frame_rx,
            write_tx: Some(write_tx),
            close_rx,
            drop_tx: None,
            receive_remote_fin: false,
            closed: false,
        }
    }

    /// The id of the stream.
    pub fn sid(&self) -> (res: Sid)
        ensures
            res == self@.sid,
            res == self.sid,
    {
        self.sid
    }

    /// Sets where the session is told that the stream is gone.
    pub fn with_drop_tx(&mut self, drop_tx: Option<mpsc::Sender<Sid>>)
        ensures
            *final(self) == (Stream { drop_tx, ..*old(self) }),
    {
        self.drop_tx = drop_tx;
    }

    /// Sends `data` as one message: the frame that has to be written. It fails where the data is
    /// too large for a frame, and where the stream is over.
    pub fn send_message(&mut self, data: Vec<u8>) -> (res: Result<Frame, TokioSmuxError>)
        ensures
            data@.len() > u16::MAX ==> {
                &&& *final(self) == *old(self)
                &&& res matches Err(TokioSmuxError::StreamWriteTooLargeData)
            },
            data@.len() <= u16::MAX ==> {
                &&& old(self)@.is_over() ==> *final(self) == *old(self)
                &&& exists|signal: CloseSignal| #[trigger]
                    old(self)@.upon(signal) == final(self)@
                &&& *final(self) == Stream {
                    closed: final(self).closed,
                    close_rx: final(self).close_rx,
                    ..*old(self)
                }
                &&& if final(self)@.is_over() {
                    res matches Err(TokioSmuxError::StreamClosed)
                } else {
                    res matches Ok(frame) && frame@ == final(self)@.message(data@)
                }
            },
            res matches Ok(frame) ==> {
                &&& frame.ver == 1
                &&& frame.cmd == Cmd::Psh
                &&& frame.sid == old(self).sid
                &&& frame.length == data@.len()
                &&& frame.data == Some(data)
            },
            res is Ok ==> data@.len() <= u16::MAX && !old(self).closed && !old(
                self,
            ).receive_remote_fin && is_answer(old(self).close_rx, CloseSignal::Empty),
            res matches Err(err) ==> (err is StreamWriteTooLargeData <==> data@.len() > u16::MAX)
                && (err is StreamClosed <==> data@.len() <= u16::MAX),
            data@.len() <= u16::MAX && res is Err && !old(self).closed && !old(
                self,
            ).receive_remote_fin ==> exists|signal: CloseSignal| #[trigger]
                is_answer(old(self).close_rx, signal) && signal != CloseSignal::Empty,
            data@.len() <= u16::MAX && !old(self).closed && !old(self).receive_remote_fin
                && is_silent(old(self).close_rx) ==> res is Ok && !final(self).closed,
            data@.len() <= u16::MAX && has_spoken(old(self).close_rx) ==> res is Err,
    {
        let not_writable = data.len() <= u16::MAX as usize && self.is_not_writable();
        self.send_message_upon(data, not_writable)
    }

    /// Sends `data` as one message, where it is known whether the stream is over for writing.
    pub fn send_message_upon(&self, data: Vec<u8>, not_writable: bool) -> (res: Result<
        Frame,
        TokioSmuxError,
    >)
        ensures
            if data@.len() > u16::MAX {
                res matches Err(TokioSmuxError::StreamWriteTooLargeData)
            } else if not_writable {
                res matches Err(TokioSmuxError::StreamClosed)
            } else {
                res matches Ok(frame) && frame@ == self@.message(data@)
            },
            res matches Ok(frame) ==> {
                &&& frame.ver == 1
                &&& frame.cmd == Cmd::Psh
                &&& frame.sid == self.sid
                &&& frame.length == data@.len()
                &&& frame.data == Some(data)
            },
    {
        if data.len() > u16::MAX as usize {
            return Err(TokioSmuxError::StreamWriteTooLargeData);
        }
        if not_writable {
            return Err(TokioSmuxError::StreamClosed);
        }
        let mut frame = Frame::new_v1(Cmd::Psh, self.sid);
        frame.with_data(data);
        Ok(frame)
    }

    /// Whether a frame has to be awaited in order to receive. None has to be once the remote has
    /// ended the stream.
    pub fn awaits_frame(&self) -> (res: bool)
        ensures
            res == !self@.receive_remote_fin,
    {
        !self.receive_remote_fin
    }

    /// Receives a message: the data of the frame `msg`; `Ok(None)` once the remote has ended the
    /// stream. `msg` is `None` where the session has no more frames for the stream. A stream that
    /// the session has closed still gives out the data that has arrived.
    pub fn recv_message(&mut self, msg: Option<Frame>) -> (res: Result<
        Option<Vec<u8>>,
        TokioSmuxError,
    >)
        ensures
            *final(self) == (Stream {
                receive_remote_fin: old(self)@.after(view_of(msg)).receive_remote_fin,
                ..*old(self)
            }),
            reports(res, old(self)@.receiving(view_of(msg))),
            final(self).receive_remote_fin <==> old(self).receive_remote_fin || (msg matches Some(
                frame,
            ) && frame.cmd == Cmd::Fin),
            res matches Ok(None) <==> final(self).receive_remote_fin,
            res matches Ok(Some(_)) <==> !old(self).receive_remote_fin && (msg matches Some(frame)
                && frame.cmd == Cmd::Psh && frame.data is Some),
            res matches Ok(Some(got)) ==> (msg matches Some(frame) && frame.data == Some(got)),
            res matches Err(TokioSmuxError::StreamClosed) <==> !old(self).receive_remote_fin
                && msg is None,
    {
        if self.receive_remote_fin {
            return Ok(None);
        }
        let msg = match msg {
            None => return Err(TokioSmuxError::StreamClosed),
            Some(msg) => msg,
        };
        match msg.cmd {
            Cmd::Fin => {
                self.receive_remote_fin = true;
                Ok(None)
            },
            Cmd::Psh => match msg.data {
                None => Err(
                    TokioSmuxError::Default { msg: "receive unexpected none data".to_string() },
                ),
                Some(data) => Ok(Some(data)),
            },
            _ => Err(TokioSmuxError::StreamReceiveUnexpectedCmd { cmd_value: u8::from(msg.cmd) }),
        }
    }

    /// Whether the stream is over for writing. Unless it is known to be, the session is asked, and
    /// what it answers decides.
    pub fn is_not_writable(&mut self) -> (res: bool)
        ensures
            old(self)@.is_over() ==> *final(self) == *old(self),
            exists|signal: CloseSignal| #[trigger] old(self)@.upon(signal) == final(self)@,
            *final(self) == (Stream {
                closed: final(self).closed,
                close_rx: final(self).close_rx,
                ..*old(self)
            }),
            res == final(self)@.is_over(),
            res == (final(self).closed || final(self).receive_remote_fin),
            old(self).closed || old(self).receive_remote_fin ==> res && *final(self) == *old(self),
            !old(self).closed && !old(self).receive_remote_fin ==> exists|signal: CloseSignal|
                #[trigger] is_answer(old(self).close_rx, signal) && final(self).closed == (signal
                    != CloseSignal::Empty),
            !old(self).closed && !old(self).receive_remote_fin && is_silent(old(self).close_rx)
                ==> !res,
            has_spoken(old(self).close_rx) ==> res,
    {
        if self.closed || self.receive_remote_fin {
            assert(old(self)@.upon(CloseSignal::Empty) == self@);
            return true;
        }
        let ask = try_recv_close;
        let signal = ask(&mut self.close_rx);
        assert(is_answer(old(self).close_rx, signal));
        let res = self.is_not_writable_upon(signal);
        assert(old(self)@.upon(signal) == self@);
        res
    }

    /// Takes in the session's word on closing the stream, and tells whether the stream is over for
    /// writing.
    pub fn is_not_writable_upon(&mut self, signal: CloseSignal) -> (res: bool)
        ensures
            *final(self) == (Stream { closed: old(self)@.upon(signal).closed, ..*old(self) }),
            res == final(self)@.is_over(),
            final(self).closed <==> old(self).closed || (!old(self).receive_remote_fin && signal
                != CloseSignal::Empty),
            res == (final(self).closed || final(self).receive_remote_fin),
    {
        if self.closed || self.receive_remote_fin {
            return true;
        }
        match signal {
            CloseSignal::Received => {
                self.closed = true;
                true
            },
            CloseSignal::Closed => {
                self.closed = true;
                true
            },
            CloseSignal::Empty => false,
        }
    }

    /// What is due when the stream goes away. The session is told. The remote is told, too, unless
    /// it has ended the stream itself.
    pub fn farewell(&mut self) -> (res: Farewell)
        ensures
            final(self)@ == old(self)@,
            final(self).frame_rx == old(self).frame_rx,
            final(self).close_rx == old(self).close_rx,
            final(self).drop_tx is None,
            res.sid == old(self)@.sid,
            res.drop_tx == old(self).drop_tx,
            old(self)@.receive_remote_fin ==> res.fin is None && final(self).write_tx == old(
                self,
            ).write_tx,
            !old(self)@.receive_remote_fin ==> {
                &&& final(self).write_tx is None
                &&& match old(self).write_tx {
                    None => res.fin is None,
                    Some(write_tx) => {
                        &&& res.fin matches Some((to, request))
                        &&& to == write_tx
                        &&& request.frame@ == old(self)@.fin()
                        &&& request.finish_tx is None
                        &&& request.frame.ver == 1
                        &&& request.frame.cmd == Cmd::Fin
                        &&& request.frame.sid == old(self).sid
                        &&& request.frame.length == 0
                        &&& request.frame.data is None
                    },
                }
            },
    {
        let drop_tx = self.drop_tx.take();
        if self.receive_remote_fin {
            return Farewell { sid: self.sid, drop_tx, fin: None };
        }
        let fin = match self.write_tx.take() {
            None => None,
            Some(write_tx) => Some((write_tx, Stream::send_fin(self.sid))),
        };
        Farewell { sid: self.sid, drop_tx, fin }
    }

    /// The request to write the end of the stream.
    fn send_fin(sid: Sid) -> (res: WriteRequest)
        ensures
            res.frame@ == FrameView::bare(1, Cmd::Fin, sid),
            res.frame.ver == 1 && res.frame.cmd == Cmd::Fin && res.frame.sid == sid,
            res.frame.length == 0 && res.frame.data is None,
            res.finish_tx is None,
    {
        WriteRequest { frame: Frame::new_v1(Cmd::Fin, sid), finish_tx: None }
    }
}

/// What a stream is taken to be is what its fields say.
pub proof fn view_shows_the_state(stream: Stream)
    ensures
        stream@.sid == stream.sid,
        stream@.receive_remote_fin == stream.receive_remote_fin,
        stream@.closed == stream.closed,
{
}

/// A message travels in one data frame of its stream, and the end of the stream in a frame without
/// data; both of version 1.
pub proof fn messages_and_ends_have_frames_of_their_own(stream: StreamView, data: Seq<u8>)
    ensures
        stream.message(data).ver == 1,
        stream.message(data).cmd == Cmd::Psh,
        stream.message(data).sid == stream.sid,
        stream.message(data).data == Some(data),
        data.len() <= u16::MAX ==> stream.message(data).length == data.len(),
        stream.fin().ver == 1,
        stream.fin().cmd == Cmd::Fin,
        stream.fin().sid == stream.sid,
        stream.fin().data is None,
        stream.fin().length == 0,
{
}

/// A stream is over for writing just where the session has closed it or the remote has ended it. A
/// new stream is not.
pub proof fn over_means_closed_or_ended(stream: StreamView, sid: Sid)
    ensures
        stream.is_over() <==> stream.closed || stream.receive_remote_fin,
        !StreamView::new(sid).is_over(),
        StreamView::new(sid).sid == sid,
{
}

/// The session's word closes a stream just where it is one, and the stream is not over yet; it
/// changes nothing else.
pub proof fn silence_closes_no_stream(stream: StreamView, signal: CloseSignal)
    ensures
        stream.upon(signal).closed <==> stream.closed || (!stream.receive_remote_fin && signal
            != CloseSignal::Empty),
        stream.upon(CloseSignal::Empty) == stream,
        stream.upon(signal).sid == stream.sid,
        stream.upon(signal).receive_remote_fin == stream.receive_remote_fin,
{
}

/// Until the remote has ended the stream, data frames give their data and nothing else gives any;
/// the end gives the end; no frame at all means that the stream is closed; and any other frame is
/// refused by its command.
pub proof fn frames_give_what_they_carry(stream: StreamView, frame: FrameView)
    requires
        !stream.receive_remote_fin,
    ensures
        stream.receiving(None) is Closed,
        stream.receiving(Some(frame)) is End <==> frame.cmd == Cmd::Fin,
        frame.cmd == Cmd::Psh ==> (frame.data matches Some(data) ==> stream.receiving(Some(frame))
            == Received::Data(data)),
        frame.cmd == Cmd::Psh && frame.data is None ==> stream.receiving(Some(frame)) is NoData,
        frame.cmd != Cmd::Psh && frame.cmd != Cmd::Fin ==> stream.receiving(Some(frame))
            == Received::Unexpected(frame.cmd.byte()),
        stream.after(Some(frame)).receive_remote_fin <==> frame.cmd == Cmd::Fin,
        stream.after(Some(frame)).sid == stream.sid,
        stream.after(Some(frame)).closed == stream.closed,
        stream.after(None) == stream,
{
}

/// What comes of receiving is reported as it is: data as data, the end as no data, and the rest as
/// the error that fits.
pub proof fn reports_are_faithful(
    res: Result<Option<Vec<u8>>, TokioSmuxError>,
    received: Received,
)
    requires
        reports(res, received),
    ensures
        res is Ok <==> received is Data || received is End,
        res matches Ok(None) <==> received is End,
        res matches Ok(Some(got)) ==> received == Received::Data(got@),
        res matches Err(err) ==> {
            &&& err is StreamClosed <==> received is Closed
            &&& received is NoData ==> (err matches TokioSmuxError::Default { msg } && msg@
                == "receive unexpected none data"@)
            &&& received matches Received::Unexpected(byte) ==> (
            err matches TokioSmuxError::StreamReceiveUnexpectedCmd { cmd_value } && cmd_value
                == byte)
        },
{
}

/// Once the remote has ended the stream, receiving gives the end again and again, and changes
/// nothing.
pub proof fn end_is_final_for_reading(stream: StreamView, frame: Option<FrameView>)
    requires
        stream.receive_remote_fin,
    ensures
        stream.receiving(frame) is End,
        stream.after(frame) == stream,
{
}

/// The end of the stream from the remote is taken in: it is what receiving gives, and the stream
/// is over for writing from then on.
pub proof fn end_from_remote_is_taken_in(stream: StreamView, frame: FrameView)
    requires
        frame.cmd == Cmd::Fin,
    ensures
        stream.receiving(Some(frame)) is End,
        stream.after(Some(frame)).receive_remote_fin,
        stream.after(Some(frame)).is_over(),
{
}

/// Only the end of the stream from the remote ends it for reading.
pub proof fn nothing_else_ends_reading(stream: StreamView, frame: Option<FrameView>)
    requires
        frame matches Some(frame) ==> frame.cmd != Cmd::Fin,
    ensures
        stream.after(frame) == stream,
{
}

/// A stream that is over for writing stays so, whatever the session says and whatever arrives.
pub proof fn over_is_final(stream: StreamView, signal: CloseSignal, frame: Option<FrameView>)
    requires
        stream.is_over(),
    ensures
        stream.upon(signal) == stream,
        stream.after(frame).is_over(),
{
}

/// A stream is closed for writing as soon as the session says so, or is gone.
pub proof fn session_closes_for_writing(stream: StreamView, signal: CloseSignal)
    requires
        signal != CloseSignal::Empty,
    ensures
        stream.upon(signal).is_over(),
{
}

/// A stream that the session closes still gives out what has arrived.
pub proof fn closed_stream_still_gives_data(
    stream: StreamView,
    signal: CloseSignal,
    frame: Option<FrameView>,
)
    ensures
        stream.upon(signal).receiving(frame) == stream.receiving(frame),
{
}

} // verus!
