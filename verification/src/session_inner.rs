//! The inner side of a session: frames from and to the bytes of the connection.

use crate::channel::{ReadRequest, WriteRequest};
use crate::config::Duration;
use crate::error::TokioSmuxError;
use crate::frame::{Cmd, Frame, FrameView, HEADER_SIZE};
use tokio::sync::oneshot;
use vstd::prelude::*;

verus! {

/// What a run of bytes splits into: the complete frames at its start, in order; the bytes that
/// are left over; and the unknown command that the left-over bytes start with, if it is that
/// which ended the splitting.
#[verifier::ext_equal]
pub struct Split {
    pub frames: Seq<FrameView>,
    pub rest: Seq<u8>,
    pub unknown: Option<u8>,
}

/// What `buf` splits into.
pub open spec fn split(buf: Seq<u8>) -> Split
    decreases buf.len(),
{
    match crate::frame::parsed_frame(buf) {
        Err(byte) => Split { frames: Seq::empty(), rest: buf, unknown: Some(byte) },
        Ok(None) => Split { frames: Seq::empty(), rest: buf, unknown: None },
        Ok(Some(frame)) => {
            let later = split(buf.skip(HEADER_SIZE + frame.length));
            Split { frames: seq![frame] + later.frames, ..later }
        },
    }
}

/// What the requests hold.
pub open spec fn frames_of(requests: Seq<ReadRequest>) -> Seq<FrameView> {
    requests.map_values(|request: ReadRequest| request.frame@)
}

/// Whether `res` is how the splitting ended: with the error that names the unknown command, or
/// well.
pub open spec fn ends_as(res: Result<(), TokioSmuxError>, unknown: Option<u8>) -> bool {
    match unknown {
        Some(byte) => res matches Err(TokioSmuxError::FrameParseCmdError { cmd }) && cmd == byte,
        None => res is Ok,
    }
}

/// What the connection's loop has waited for.
pub enum InnerEvent<'a> {
    /// A read of the connection ended. No bytes mean that the remote has stopped writing.
    Read(Result<&'a [u8], TokioSmuxError>),
    /// A frame is to be written, or the session is closed.
    Write(Option<WriteRequest>),
    /// A keep-alive frame is due.
    Tick,
}

/// What the connection's loop does next.
pub enum InnerAction {
    /// Waits for the next event.
    Continue,
    /// Hands the frames to the session, and goes on.
    Deliver(Vec<ReadRequest>),
    /// Writes the bytes. [`SessionInner::on_written`] says how to go on from there.
    Send(Vec<u8>, Option<oneshot::Sender<()>>),
    /// Ends the loop well.
    Stop,
    /// Hands the frames to the session, and ends the loop with the error.
    Fail(Vec<ReadRequest>, TokioSmuxError),
}

/// What the connection's loop does after a write.
pub enum AfterWrite {
    /// Waits for the next event.
    Continue,
    /// Tells whoever waits that the frame is written, and goes on.
    Notify(oneshot::Sender<()>),
    /// Ends the loop with the error. Whoever waits is told nothing.
    Fail(TokioSmuxError),
}

/// The state between the connection and the session.
pub struct SessionInner {
    read_buf: Vec<u8>,
    read_finished: bool,
    keep_alive_interval: Option<Duration>,
}

/// What the state between the connection and the session holds: the bytes that are not yet a
/// complete frame, whether the remote has stopped writing, and how often a keep-alive frame is
/// due.
#[verifier::ext_equal]
pub struct SessionInnerView {
    pub read_buf: Seq<u8>,
    pub read_finished: bool,
    pub keep_alive_interval: Option<Duration>,
}

impl View for SessionInner {
    type V = SessionInnerView;

    closed spec fn view(&self) -> SessionInnerView {
        SessionInnerView {
            read_buf: self.read_buf@,
            read_finished: self.read_finished,
            keep_alive_interval: self.keep_alive_interval,
        }
    }
}

/// Whether a round of the connection's loop that finds `before` and `event` does `action`, and
/// leaves `after`.
pub open spec fn is_round(
    before: SessionInnerView,
    event: InnerEvent<'_>,
    action: InnerAction,
    after: SessionInnerView,
) -> bool {
    match event {
        InnerEvent::Read(Err(err)) => {
            &&& after == before
            &&& action matches InnerAction::Fail(requests, failure)
            &&& requests@.len() == 0
            &&& failure == err
        },
        InnerEvent::Read(Ok(data)) => if data@.len() == 0 {
            &&& after == SessionInnerView { read_finished: true, ..before }
            &&& action is Continue
        } else {
            let split = split(before.read_buf + data@);
            &&& after == SessionInnerView { read_buf: split.rest, ..before }
            &&& match split.unknown {
                None => action matches InnerAction::Deliver(requests) && frames_of(requests@)
                    == split.frames,
                Some(byte) => {
                    &&& action matches InnerAction::Fail(requests, failure)
                    &&& frames_of(requests@) == split.frames
                    &&& failure matches TokioSmuxError::FrameParseCmdError { cmd }
                    &&& cmd == byte
                },
            }
        },
        InnerEvent::Write(None) => after == before && action is Stop,
        InnerEvent::Write(Some(req)) => {
            &&& after == before
            &&& if req.frame@.length_matches() {
                &&& action matches InnerAction::Send(bytes, finish_tx)
                &&& bytes@ == req.frame@.encoding()
                &&& finish_tx == req.finish_tx
            } else {
                &&& action matches InnerAction::Fail(requests, failure)
                &&& requests@.len() == 0
                &&& failure matches TokioSmuxError::Default { msg }
                &&& msg@ == "unmatch data length"@
            }
        },
        InnerEvent::Tick => {
            &&& after == before
            &&& action matches InnerAction::Send(bytes, finish_tx)
            &&& bytes@ == FrameView::bare(1, Cmd::Nop, 0).encoding()
            &&& finish_tx is None
        },
    }
}

impl SessionInner {
    /// The state of a new connection.
    pub fn new() -> (res: SessionInner)
        ensures
            res@ == (SessionInnerView {
                read_buf: Seq::empty(),
                read_finished: false,
                keep_alive_interval: None,
            }),
    {
        SessionInner { read_buf: Vec::new(), read_finished: false, keep_alive_interval: None }
    }

    /// Makes a keep-alive frame due every `duration`.
    pub fn with_keep_alive_interval(&mut self, duration: Duration)
        ensures
            final(self)@ == (SessionInnerView {
                keep_alive_interval: Some(duration),
                ..old(self)@
            }),
    {
        self.keep_alive_interval = Some(duration);
    }

    /// Takes in bytes from the connection. It hands out the frames that they complete, in order;
    /// what is left waits for more bytes.
    pub fn handle_read_data(&mut self, data: &[u8]) -> (res: (
        Vec<ReadRequest>,
        Result<(), TokioSmuxError>,
    ))
        ensures
            data@.len() == 0 ==> *final(self) == *old(self) && res.0@.len() == 0 && res.1 is Ok,
            data@.len() > 0 ==> {
                let split = split(old(self)@.read_buf + data@);
                &&& final(self)@ == SessionInnerView { read_buf: split.rest, ..old(self)@ }
                &&& frames_of(res.0@) == split.frames
                &&& ends_as(res.1, split.unknown)
                &&& res.0@.len() == split.frames.len()
                &&& forall|i: int|
                    0 <= i < res.0@.len() ==> #[trigger] res.0@[i].frame@ == split.frames[i]
                &&& split.unknown is None ==> res.1 is Ok
                &&& split.unknown matches Some(byte) ==> res.1 matches Err(
                    TokioSmuxError::FrameParseCmdError { cmd },
                ) && cmd == byte
            },
    {
        let mut requests: Vec<ReadRequest> = Vec::new();
        if data.len() == 0 {
            return (requests, Ok(()));
        }
        self.read_buf.extend_from_slice(data);
        let ghost all = old(self).read_buf@ + data@;
        assert(self.read_buf@ =~= all);
        assert(frames_of(requests@) + split(all).frames =~= split(all).frames);
        loop
            invariant
                data@.len() > 0,
                all == old(self)@.read_buf + data@,
                self.read_finished == old(self).read_finished,
                self.keep_alive_interval == old(self).keep_alive_interval,
                frames_of(requests@) + split(self.read_buf@).frames == split(all).frames,
                split(self.read_buf@).rest == split(all).rest,
                split(self.read_buf@).unknown == split(all).unknown,
            ensures
                frames_of(requests@) == split(all).frames,
                self.read_buf@ == split(all).rest,
                split(all).unknown is None,
                self.read_finished == old(self).read_finished,
                self.keep_alive_interval == old(self).keep_alive_interval,
            decreases self.read_buf@.len(),
        {
            let len: usize = self.read_buf.len();
            if len < HEADER_SIZE {
                assert(frames_of(requests@) + Seq::<FrameView>::empty() =~= frames_of(requests@));
                break;
            }
            let mut frame = match Frame::from_buf(self.read_buf.as_slice()) {
                Err(err) => {
                    assert(frames_of(requests@) + Seq::<FrameView>::empty() =~= frames_of(
                        requests@,
                    ));
                    return (requests, Err(err));
                },
                Ok(None) => break,
                Ok(Some(frame)) => frame,
            };
            let end: usize = HEADER_SIZE + frame.length as usize;
            if end > len {
                assert(frames_of(requests@) + Seq::<FrameView>::empty() =~= frames_of(requests@));
                break;
            }
            let ghost before = self.read_buf@;
            let ghost earlier = requests@;
            let rest = self.read_buf.split_off(end);
            let frame_data = self.read_buf.split_off(HEADER_SIZE);
            self.read_buf = rest;
            assert(frame_data@ =~= before.subrange(HEADER_SIZE as int, end as int));
            assert(self.read_buf@ =~= before.skip(end as int));
            frame.with_data(frame_data);
            assert(crate::frame::parsed_frame(before) == Ok::<_, u8>(Some(frame@)));
            requests.push(ReadRequest { frame });
            assert(frames_of(requests@) =~= frames_of(earlier).push(frame@));
            assert(frames_of(earlier) + (seq![frame@] + split(self.read_buf@).frames)
                =~= frames_of(requests@) + split(self.read_buf@).frames);
        }
        (requests, Ok(()))
    }

    /// The bytes of a keep-alive frame.
    pub fn handle_keep_alive_interval_tick(&self) -> (res: Result<Vec<u8>, TokioSmuxError>)
        ensures
            res matches Ok(bytes) && bytes@ == FrameView::bare(1, Cmd::Nop, 0).encoding(),
    {
        let frame = Frame::new_v1(Cmd::Nop, 0);
        frame.get_buf()
    }

    /// The bytes of a frame that is to be written.
    pub fn handle_write_req(&self, req: &WriteRequest) -> (res: Result<Vec<u8>, TokioSmuxError>)
        ensures
            req.frame@.length_matches() ==> (res matches Ok(bytes) && bytes@
                == req.frame@.encoding()),
            !req.frame@.length_matches() ==> (res matches Err(TokioSmuxError::Default { msg })
                && msg@ == "unmatch data length"@),
    {
        req.frame.get_buf()
    }

    /// Whether the connection is still to be read. It is not once the remote has stopped writing.
    pub fn wants_read(&self) -> (res: bool)
        ensures
            res == !self@.read_finished,
    {
        !self.read_finished
    }

    /// How often a keep-alive frame is due, if at all.
    pub fn keep_alive_interval(&self) -> (res: Option<Duration>)
        ensures
            res == self@.keep_alive_interval,
    {
        self.keep_alive_interval
    }

    /// One round of the connection's loop: what to do upon `event`.
    pub fn on_event(&mut self, event: InnerEvent<'_>) -> (res: InnerAction)
        ensures
            is_round(old(self)@, event, res, final(self)@),
            final(self)@.keep_alive_interval == old(self)@.keep_alive_interval,
            final(self)@.read_finished <==> old(self)@.read_finished || (event matches InnerEvent::Read(
                Ok(data),
            ) && data@.len() == 0),
            event is Write || event is Tick ==> final(self)@ == old(self)@,
            res is Stop <==> event matches InnerEvent::Write(None),
    {
        match event {
            InnerEvent::Read(Err(err)) => InnerAction::Fail(Vec::new(), err),
            InnerEvent::Read(Ok(data)) => {
                if data.len() == 0 {
                    self.read_finished = true;
                    return InnerAction::Continue;
                }
                let (requests, res) = self.handle_read_data(data);
                match res {
                    Ok(()) => InnerAction::Deliver(requests),
                    Err(err) => InnerAction::Fail(requests, err),
                }
            },
            InnerEvent::Write(None) => InnerAction::Stop,
            InnerEvent::Write(Some(req)) => match self.handle_write_req(&req) {
                Ok(bytes) => InnerAction::Send(bytes, req.finish_tx),
                Err(err) => InnerAction::Fail(Vec::new(), err),
            },
            InnerEvent::Tick => match self.handle_keep_alive_interval_tick() {
                Ok(bytes) => InnerAction::Send(bytes, None),
                Err(err) => InnerAction::Fail(Vec::new(), err),
            },
        }
    }

    /// Goes on with a round of the connection's loop after the bytes of [`InnerAction::Send`] were
    /// to be written, where `finish_tx` is whom to tell.
    pub fn on_written(
        written: Result<(), TokioSmuxError>,
        finish_tx: Option<oneshot::Sender<()>>,
    ) -> (res: AfterWrite)
        ensures
            written matches Err(err) ==> res == AfterWrite::Fail(err),
            written is Ok ==> res == (match finish_tx {
                Some(tx) => AfterWrite::Notify(tx),
                None => AfterWrite::Continue,
            }),
    {
        match written {
            Err(err) => AfterWrite::Fail(err),
            Ok(()) => match finish_tx {
                None => AfterWrite::Continue,
                Some(tx) => AfterWrite::Notify(tx),
            },
        }
    }
}

/// The bytes of frames that are written one after the other.
pub open spec fn stream_of(frames: Seq<FrameView>) -> Seq<u8>
    decreases frames.len(),
{
    if frames.len() == 0 {
        Seq::empty()
    } else {
        frames[0].encoding() + stream_of(frames.drop_first())
    }
}

/// The frames as the remote gets them.
pub open spec fn received(frames: Seq<FrameView>) -> Seq<FrameView> {
    frames.map_values(|frame: FrameView| frame.received())
}

/// What comes of reading `chunks` one after the other, where `buf` is left over from before. An
/// unknown command ends the reading.
pub open spec fn fed(buf: Seq<u8>, chunks: Seq<Seq<u8>>) -> Split
    decreases chunks.len(),
{
    if chunks.len() == 0 {
        Split { frames: Seq::empty(), rest: buf, unknown: None }
    } else {
        let first = split(buf + chunks[0]);
        if first.unknown is Some {
            first
        } else {
            let later = fed(first.rest, chunks.drop_first());
            Split { frames: first.frames + later.frames, ..later }
        }
    }
}

proof fn stream_of_one_more(frame: FrameView, later: Seq<FrameView>)
    ensures
        stream_of(seq![frame] + later) == frame.encoding() + stream_of(later),
{
    assert((seq![frame] + later).drop_first() =~= later);
}

proof fn frame_and_what_follows(buf: Seq<u8>, frame: FrameView)
    requires
        crate::frame::parsed_frame(buf) == Ok::<_, u8>(Some(frame)),
    ensures
        0 < HEADER_SIZE + frame.length <= buf.len(),
        frame.encoding() + buf.skip(HEADER_SIZE + frame.length) == buf,
{
    let end = HEADER_SIZE + frame.length;
    crate::frame::frame_is_written_back(buf, frame);
    assert(buf.take(end) + buf.skip(end) =~= buf);
}

proof fn parts_can_be_joined_anyhow(a: Seq<u8>, b: Seq<u8>, c: Seq<u8>)
    ensures
        (a + b) + c == a + (b + c),
{
    assert((a + b) + c =~= a + (b + c));
}

/// No byte is lost, invented or moved: the frames, written again, and the bytes that are left
/// over are the bytes that were split.
pub proof fn split_keeps_every_byte(buf: Seq<u8>)
    ensures
        stream_of(split(buf).frames) + split(buf).rest == buf,
    decreases buf.len(),
{
    match crate::frame::parsed_frame(buf) {
        Ok(Some(frame)) => {
            frame_and_what_follows(buf, frame);
            let later = split(buf.skip(HEADER_SIZE + frame.length));
            split_keeps_every_byte(buf.skip(HEADER_SIZE + frame.length));
            stream_of_one_more(frame, later.frames);
            parts_can_be_joined_anyhow(frame.encoding(), stream_of(later.frames), later.rest);
        },
        _ => {
            assert(stream_of(split(buf).frames) + split(buf).rest =~= buf);
        },
    }
}

/// The splitting ends only where no frame is complete yet, or where a command is none; and it tells
/// which of the two.
pub proof fn splitting_ends_for_a_reason(buf: Seq<u8>)
    ensures
        split(buf).unknown is None ==> crate::frame::parsed_frame(split(buf).rest) == Ok::<
            Option<FrameView>,
            u8,
        >(None),
        split(buf).unknown matches Some(byte) ==> crate::frame::parsed_frame(split(buf).rest)
            == Err::<Option<FrameView>, u8>(byte),
    decreases buf.len(),
{
    if let Ok(Some(frame)) = crate::frame::parsed_frame(buf) {
        splitting_ends_for_a_reason(buf.skip(HEADER_SIZE + frame.length));
    }
}

/// The requests hold the frames, one for each and in order.
pub proof fn requests_hold_the_frames(requests: Seq<ReadRequest>)
    ensures
        frames_of(requests).len() == requests.len(),
        forall|i: int|
            0 <= i < requests.len() ==> #[trigger] frames_of(requests)[i] == requests[i].frame@,
{
}

/// Every frame that is split off is whole, and has data.
pub proof fn split_frames_are_whole(buf: Seq<u8>, i: int)
    requires
        0 <= i < split(buf).frames.len(),
    ensures
        split(buf).frames[i].is_whole(),
        split(buf).frames[i].data is Some,
    decreases buf.len(),
{
    if let Ok(Some(frame)) = crate::frame::parsed_frame(buf) {
        crate::frame::frame_is_written_back(buf, frame);
        if i > 0 {
            split_frames_are_whole(buf.skip(HEADER_SIZE + frame.length), i - 1);
        }
    }
}

/// What is left over starts with no complete frame: it is split no further. Where an unknown
/// command ended the splitting, the left-over bytes start with it.
pub proof fn rest_is_split_no_further(buf: Seq<u8>)
    ensures
        split(split(buf).rest) == (Split { frames: Seq::empty(), ..split(buf) }),
    decreases buf.len(),
{
    if let Ok(Some(frame)) = crate::frame::parsed_frame(buf) {
        rest_is_split_no_further(buf.skip(HEADER_SIZE + frame.length));
    }
}

/// The bytes that wait for the rest of their frame are fewer than the longest frame has.
pub proof fn rest_is_shorter_than_a_frame(buf: Seq<u8>)
    requires
        split(buf).unknown is None,
    ensures
        split(buf).rest.len() < HEADER_SIZE + u16::MAX,
    decreases buf.len(),
{
    if let Ok(Some(frame)) = crate::frame::parsed_frame(buf) {
        rest_is_shorter_than_a_frame(buf.skip(HEADER_SIZE + frame.length));
    }
}

/// It makes no difference where bytes are parted: splitting the first part, and then its left-over
/// bytes together with the second part, gives what splitting all of them at once gives.
pub proof fn split_in_two_parts(first: Seq<u8>, second: Seq<u8>)
    ensures
        split(first + second) == ({
            let later = split(split(first).rest + second);
            Split { frames: split(first).frames + later.frames, ..later }
        }),
    decreases first.len(),
{
    let later = split(split(first).rest + second);
    match crate::frame::parsed_frame(first) {
        Ok(Some(frame)) => {
            let end = HEADER_SIZE + frame.length;
            crate::frame::later_bytes_change_no_frame(first, second);
            crate::frame::frame_is_written_back(first, frame);
            assert((first + second).skip(end) =~= first.skip(end) + second);
            split_in_two_parts(first.skip(end), second);
            assert(split(first + second).frames =~= split(first).frames + later.frames);
        },
        _ => {
            assert(split(first).frames + later.frames =~= later.frames);
        },
    }
}

/// A frame that was written is split off, whatever follows it.
pub proof fn written_frame_is_split_off(frame: FrameView, rest: Seq<u8>)
    requires
        frame.is_whole(),
    ensures
        split(frame.encoding() + rest) == (Split {
            frames: seq![frame.received()] + split(rest).frames,
            ..split(rest)
        }),
{
    crate::frame::frame_is_read_back(frame, rest);
    crate::frame::header_is_read_back(frame, rest);
    assert((frame.encoding() + rest).skip(HEADER_SIZE + frame.length) =~= rest);
}

/// Frames that were written one after the other are split off one by one, whatever follows them.
pub proof fn written_frames_are_split_off(frames: Seq<FrameView>, rest: Seq<u8>)
    requires
        forall|i: int| 0 <= i < frames.len() ==> #[trigger] frames[i].is_whole(),
    ensures
        split(stream_of(frames) + rest) == (Split {
            frames: received(frames) + split(rest).frames,
            ..split(rest)
        }),
    decreases frames.len(),
{
    let buf = stream_of(frames) + rest;
    if frames.len() == 0 {
        assert(buf =~= rest);
        assert(received(frames) + split(rest).frames =~= split(rest).frames);
    } else {
        let later = frames.drop_first();
        assert(buf =~= frames[0].encoding() + (stream_of(later) + rest));
        written_frame_is_split_off(frames[0], stream_of(later) + rest);
        assert forall|i: int| 0 <= i < later.len() implies #[trigger] later[i].is_whole() by {
            assert(later[i] == frames[i + 1]);
        }
        written_frames_are_split_off(later, rest);
        assert(received(frames) =~= seq![frames[0].received()] + received(later));
        assert(split(buf).frames =~= received(frames) + split(rest).frames);
    }
}

/// How the bytes are cut into reads makes no difference: reading them in chunks gives the frames
/// and the outcome of splitting all of them at once; and, if every command was known, the same
/// left-over bytes.
pub proof fn chunks_make_no_difference(buf: Seq<u8>, chunks: Seq<Seq<u8>>)
    requires
        split(buf).frames.len() == 0,
        split(buf).unknown is None,
    ensures
        fed(buf, chunks).frames == split(buf + chunks.flatten()).frames,
        fed(buf, chunks).unknown == split(buf + chunks.flatten()).unknown,
        fed(buf, chunks).unknown is None ==> fed(buf, chunks).rest == split(
            buf + chunks.flatten(),
        ).rest,
    decreases chunks.len(),
{
    if chunks.len() == 0 {
        assert(buf + chunks.flatten() =~= buf);
        assert(split(buf).rest == buf);
        assert(fed(buf, chunks).frames =~= split(buf).frames);
    } else {
        let all = buf + chunks[0];
        let first = split(all);
        let others = chunks.drop_first();
        assert(buf + chunks.flatten() =~= all + others.flatten());
        split_in_two_parts(all, others.flatten());
        rest_is_split_no_further(all);
        if first.unknown is Some {
            crate::frame::later_bytes_change_no_frame(first.rest, others.flatten());
            assert(split(first.rest + others.flatten()).frames =~= Seq::<FrameView>::empty());
            assert(first.frames + Seq::<FrameView>::empty() =~= first.frames);
        } else {
            chunks_make_no_difference(first.rest, others);
        }
    }
}

/// Messages keep their boundaries: however the bytes of frames that were written one after the
/// other are cut into reads, those frames arrive, one by one and in order, and no byte is left
/// over.
pub proof fn messages_keep_their_boundaries(frames: Seq<FrameView>, chunks: Seq<Seq<u8>>)
    requires
        forall|i: int| 0 <= i < frames.len() ==> #[trigger] frames[i].is_whole(),
        chunks.flatten() == stream_of(frames),
    ensures
        fed(Seq::empty(), chunks) == (Split {
            frames: received(frames),
            rest: Seq::empty(),
            unknown: None,
        }),
{
    let none = Seq::<u8>::empty();
    assert(split(none) == Split { frames: Seq::empty(), rest: none, unknown: None });
    assert(none + chunks.flatten() =~= stream_of(frames) + none);
    chunks_make_no_difference(none, chunks);
    written_frames_are_split_off(frames, none);
    assert(received(frames) + split(none).frames =~= received(frames));
}

/// Whether the connection's loop may have gone through these rounds, one after the other: where
/// round `i` finds `states[i]` and `events[i]`, it does `actions[i]`. Stopping and failing end the
/// loop.
pub open spec fn is_run(
    states: Seq<SessionInnerView>,
    events: Seq<InnerEvent<'_>>,
    actions: Seq<InnerAction>,
) -> bool {
    &&& states.len() == events.len() + 1
    &&& actions.len() == events.len()
    &&& forall|i: int|
        0 <= i < events.len() ==> is_round(states[i], #[trigger] events[i], actions[i], states[i
            + 1])
    &&& forall|i: int|
        0 <= i < actions.len() - 1 ==> !(#[trigger] actions[i] is Stop) && !(actions[i] is Fail)
}

/// The connection is read until a read gives no bytes, and no longer: over a run of its loop no more
/// reads are wanted exactly once a read has given none. Writing and keep-alive frames do not matter.
pub proof fn reading_ends_with_the_input(
    states: Seq<SessionInnerView>,
    events: Seq<InnerEvent<'_>>,
    actions: Seq<InnerAction>,
    i: int,
)
    requires
        is_run(states, events, actions),
        !states[0].read_finished,
        0 <= i < states.len(),
    ensures
        states[i].read_finished <==> exists|j: int|
            0 <= j < i && (#[trigger] events[j] matches InnerEvent::Read(Ok(data)) && data@.len()
                == 0),
    decreases i,
{
    if i > 0 {
        reading_ends_with_the_input(states, events, actions, i - 1);
        assert(is_round(states[i - 1], events[i - 1], actions[i - 1], states[i - 1 + 1]));
    }
}

/// Bytes that wait for the rest of their frame wait for as long as nothing is read, and the pace of
/// keep-alive frames never changes: writing, keep-alive frames and the end of the input leave both
/// alone.
pub proof fn only_reading_touches_the_bytes_that_wait(
    before: SessionInnerView,
    event: InnerEvent<'_>,
    action: InnerAction,
    after: SessionInnerView,
)
    requires
        is_round(before, event, action, after),
    ensures
        after.keep_alive_interval == before.keep_alive_interval,
        event is Write || event is Tick ==> after == before,
        event matches InnerEvent::Read(Err(_)) ==> after == before,
        event matches InnerEvent::Read(Ok(data)) ==> data@.len() == 0 ==> after.read_buf
            == before.read_buf,
        event matches InnerEvent::Read(Ok(data)) ==> data@.len() > 0 ==> after.read_finished
            == before.read_finished,
{
}

/// The loop ends well just where the session is closed. It ends with an error just where a read
/// failed, where what was read holds a command that is none, and where a frame is to be written
/// whose length is not that of its data; the error is the one of the read, names the byte, or says
/// that the length does not match.
pub proof fn loop_ends_for_a_reason(
    before: SessionInnerView,
    event: InnerEvent<'_>,
    action: InnerAction,
    after: SessionInnerView,
)
    requires
        is_round(before, event, action, after),
    ensures
        action is Stop <==> event matches InnerEvent::Write(None),
        action is Fail <==> ({
            ||| event matches InnerEvent::Read(Err(_))
            ||| event matches InnerEvent::Read(Ok(data)) && data@.len() > 0 && split(
                before.read_buf + data@,
            ).unknown is Some
            ||| event matches InnerEvent::Write(Some(req)) && !req.frame@.length_matches()
        }),
        action matches InnerAction::Fail(_, failure) ==> {
            &&& event matches InnerEvent::Read(Err(err)) ==> failure == err
            &&& event matches InnerEvent::Read(Ok(data)) ==> (
            failure matches TokioSmuxError::FrameParseCmdError { cmd } && split(
                before.read_buf + data@,
            ).unknown == Some(cmd))
            &&& event is Write ==> (failure matches TokioSmuxError::Default { msg } && msg@
                == "unmatch data length"@)
        },
        action matches InnerAction::Fail(requests, _) ==> (event is Write || (
        event matches InnerEvent::Read(Err(_))) ==> requests@.len() == 0),
        action is Continue <==> (event matches InnerEvent::Read(Ok(data)) && data@.len() == 0),
{
}

/// Each round does what it is there for: a frame that is to be written is written to the last byte,
/// with whoever waits for it kept in mind; a keep-alive frame that is due is written; and the frames
/// that a read completes are handed out, one request for each and in order, also where a command
/// that is none follows them.
pub proof fn rounds_do_their_work(
    before: SessionInnerView,
    event: InnerEvent<'_>,
    action: InnerAction,
    after: SessionInnerView,
)
    requires
        is_round(before, event, action, after),
    ensures
        action is Send <==> event is Tick || (event matches InnerEvent::Write(Some(req))
            && req.frame@.length_matches()),
        event matches InnerEvent::Write(Some(req)) ==> action matches InnerAction::Send(
            bytes,
            finish_tx,
        ) ==> bytes@ == req.frame@.encoding() && finish_tx == req.finish_tx,
        event is Tick ==> {
            &&& action matches InnerAction::Send(bytes, finish_tx)
            &&& bytes@ == seq![1u8, 3u8, 0u8, 0u8, 0u8, 0u8, 0u8, 0u8]
            &&& finish_tx is None
        },
        action is Deliver <==> (event matches InnerEvent::Read(Ok(data)) && data@.len() > 0
            && split(before.read_buf + data@).unknown is None),
        event matches InnerEvent::Read(Ok(data)) ==> data@.len() > 0 ==> {
            &&& after.read_buf == split(before.read_buf + data@).rest
            &&& action matches InnerAction::Deliver(requests) ==> {
                &&& requests@.len() == split(before.read_buf + data@).frames.len()
                &&& forall|i: int|
                    0 <= i < requests@.len() ==> #[trigger] requests@[i].frame@ == split(
                        before.read_buf + data@,
                    ).frames[i]
            }
            &&& action matches InnerAction::Fail(requests, _) ==> {
                &&& requests@.len() == split(before.read_buf + data@).frames.len()
                &&& forall|i: int|
                    0 <= i < requests@.len() ==> #[trigger] requests@[i].frame@ == split(
                        before.read_buf + data@,
                    ).frames[i]
            }
        },
{
    if event is Tick {
        assert(FrameView::bare(1, Cmd::Nop, 0).encoding() =~= seq![
            1u8, 3u8, 0u8, 0u8, 0u8, 0u8, 0u8, 0u8,
        ]);
    }
    if let InnerEvent::Read(Ok(data)) = event {
        match action {
            InnerAction::Deliver(requests) => {
                requests_hold_the_frames(requests@);
                assert forall|i: int| 0 <= i < requests@.len() implies #[trigger] requests@[i].frame@
                    == split(before.read_buf + data@).frames[i] by {
                    assert(frames_of(requests@)[i] == requests@[i].frame@);
                }
            },
            InnerAction::Fail(requests, _) => {
                requests_hold_the_frames(requests@);
                assert forall|i: int|
                    0 <= i < requests@.len() && data@.len()
                        > 0 implies #[trigger] requests@[i].frame@ == split(
                    before.read_buf + data@,
                ).frames[i] by {
                    assert(frames_of(requests@)[i] == requests@[i].frame@);
                }
            },
            _ => {},
        }
    }
}

/// The frames that `events` ask to write, in order: those of the requests, and a keep-alive frame
/// wherever one is due. A frame whose length is not that of its data is not written.
pub open spec fn frames_to_write(events: Seq<InnerEvent<'_>>) -> Seq<FrameView>
    decreases events.len(),
{
    if events.len() == 0 {
        Seq::empty()
    } else {
        (match events[0] {
            InnerEvent::Write(Some(req)) if req.frame@.length_matches() => seq![req.frame@],
            InnerEvent::Tick => seq![FrameView::bare(1, Cmd::Nop, 0)],
            _ => Seq::empty(),
        }) + frames_to_write(events.drop_first())
    }
}

/// The bytes that `actions` write, one after the other.
pub open spec fn bytes_written(actions: Seq<InnerAction>) -> Seq<u8>
    decreases actions.len(),
{
    if actions.len() == 0 {
        Seq::empty()
    } else {
        (match actions[0] {
            InnerAction::Send(bytes, _) => bytes@,
            _ => Seq::empty(),
        }) + bytes_written(actions.drop_first())
    }
}

/// The bytes that were read, as they came.
pub open spec fn chunks_read(events: Seq<InnerEvent<'_>>) -> Seq<Seq<u8>>
    decreases events.len(),
{
    if events.len() == 0 {
        Seq::empty()
    } else {
        (match events[0] {
            InnerEvent::Read(Ok(data)) => seq![data@],
            _ => Seq::empty(),
        }) + chunks_read(events.drop_first())
    }
}

/// The frames that `actions` hand to the session, in order.
pub open spec fn frames_delivered(actions: Seq<InnerAction>) -> Seq<FrameView>
    decreases actions.len(),
{
    if actions.len() == 0 {
        Seq::empty()
    } else {
        (match actions[0] {
            InnerAction::Deliver(requests) => frames_of(requests@),
            InnerAction::Fail(requests, _) => frames_of(requests@),
            _ => Seq::empty(),
        }) + frames_delivered(actions.drop_first())
    }
}

proof fn run_goes_on(
    states: Seq<SessionInnerView>,
    events: Seq<InnerEvent<'_>>,
    actions: Seq<InnerAction>,
)
    requires
        is_run(states, events, actions),
        events.len() > 0,
    ensures
        is_round(states[0], events[0], actions[0], states[1]),
        is_run(states.drop_first(), events.drop_first(), actions.drop_first()),
        actions[0] is Stop || actions[0] is Fail ==> events.len() == 1,
{
    let (later_states, later_events, later_actions) = (
        states.drop_first(),
        events.drop_first(),
        actions.drop_first(),
    );
    assert(is_round(states[0], events[0], actions[0], states[1]));
    assert forall|i: int| 0 <= i < later_events.len() implies is_round(
        later_states[i],
        #[trigger] later_events[i],
        later_actions[i],
        later_states[i + 1],
    ) by {
        assert(later_events[i] == events[i + 1]);
    }
    assert forall|i: int| 0 <= i < later_actions.len() - 1 implies !(
    #[trigger] later_actions[i] is Stop) && !(later_actions[i] is Fail) by {
        assert(later_actions[i] == actions[i + 1]);
    }
}

/// What is asked to be written is written: over a run of the connection's loop the bytes that it
/// writes are those of the frames that it was asked to write, in order, with keep-alive frames in
/// between; whatever is read meanwhile, and also after the remote has stopped writing.
pub proof fn frames_are_written_in_order(
    states: Seq<SessionInnerView>,
    events: Seq<InnerEvent<'_>>,
    actions: Seq<InnerAction>,
)
    requires
        is_run(states, events, actions),
    ensures
        bytes_written(actions) == stream_of(frames_to_write(events)),
    decreases events.len(),
{
    if events.len() > 0 {
        run_goes_on(states, events, actions);
        frames_are_written_in_order(
            states.drop_first(),
            events.drop_first(),
            actions.drop_first(),
        );
        let later = frames_to_write(events.drop_first());
        match events[0] {
            InnerEvent::Write(Some(req)) if req.frame@.length_matches() => {
                stream_of_one_more(req.frame@, later);
            },
            InnerEvent::Tick => {
                stream_of_one_more(FrameView::bare(1, Cmd::Nop, 0), later);
            },
            _ => {
                assert(frames_to_write(events) =~= later);
                assert(bytes_written(actions) =~= bytes_written(actions.drop_first()));
            },
        }
    }
}

/// What is read is handed to the session: over a run of the connection's loop the frames that it
/// hands to the session are those of the bytes that it reads, in order; whatever is written
/// meanwhile.
pub proof fn frames_are_delivered_in_order(
    states: Seq<SessionInnerView>,
    events: Seq<InnerEvent<'_>>,
    actions: Seq<InnerAction>,
)
    requires
        is_run(states, events, actions),
        split(states[0].read_buf).frames.len() == 0,
        split(states[0].read_buf).unknown is None,
    ensures
        frames_delivered(actions) == fed(states[0].read_buf, chunks_read(events)).frames,
    decreases events.len(),
{
    let buf = states[0].read_buf;
    if events.len() > 0 {
        let later = chunks_read(events.drop_first());
        run_goes_on(states, events, actions);
        match events[0] {
            InnerEvent::Read(Ok(data)) => {
                assert(chunks_read(events) =~= seq![data@] + later);
                assert(chunks_read(events).drop_first() =~= later);
                let first = split(buf + data@);
                rest_is_split_no_further(buf + data@);
                if data@.len() == 0 {
                    assert(buf + data@ =~= buf);
                }
                if first.unknown is Some {
                    assert(frames_delivered(actions.drop_first()).len() == 0);
                    assert(frames_delivered(actions) =~= first.frames);
                } else {
                    frames_are_delivered_in_order(
                        states.drop_first(),
                        events.drop_first(),
                        actions.drop_first(),
                    );
                    assert(frames_delivered(actions) =~= fed(buf, chunks_read(events)).frames);
                }
            },
            _ => {
                assert(chunks_read(events) =~= later);
                frames_are_delivered_in_order(
                    states.drop_first(),
                    events.drop_first(),
                    actions.drop_first(),
                );
                assert(frames_delivered(actions) =~= frames_delivered(actions.drop_first()));
            },
        }
    }
}

/// What one side is asked to write, the other side hands to its session: the same frames in the
/// same order, however the bytes in between are cut into reads.
pub proof fn frames_get_across(
    states: Seq<SessionInnerView>,
    events: Seq<InnerEvent<'_>>,
    actions: Seq<InnerAction>,
    remote_states: Seq<SessionInnerView>,
    remote_events: Seq<InnerEvent<'_>>,
    remote_actions: Seq<InnerAction>,
)
    requires
        is_run(states, events, actions),
        is_run(remote_states, remote_events, remote_actions),
        forall|i: int|
            0 <= i < frames_to_write(events).len() ==> (#[trigger] frames_to_write(
                events,
            )[i]).is_whole(),
        remote_states[0].read_buf.len() == 0,
        chunks_read(remote_events).flatten() == bytes_written(actions),
    ensures
        frames_delivered(remote_actions) == received(frames_to_write(events)),
{
    let none = Seq::<u8>::empty();
    assert(remote_states[0].read_buf =~= none);
    frames_are_written_in_order(states, events, actions);
    frames_are_delivered_in_order(remote_states, remote_events, remote_actions);
    messages_keep_their_boundaries(frames_to_write(events), chunks_read(remote_events));
}

/// What has arrived so far is the beginning of what was written: while some of the bytes of frames
/// are still under way, the first of those frames have arrived, and nothing else.
pub proof fn what_has_arrived_comes_first(
    frames: Seq<FrameView>,
    chunks: Seq<Seq<u8>>,
    under_way: Seq<u8>,
)
    requires
        forall|i: int| 0 <= i < frames.len() ==> #[trigger] frames[i].is_whole(),
        chunks.flatten() + under_way == stream_of(frames),
    ensures
        fed(Seq::empty(), chunks).unknown is None,
        fed(Seq::empty(), chunks).frames.len() <= frames.len(),
        fed(Seq::empty(), chunks).frames == received(
            frames.take(fed(Seq::empty(), chunks).frames.len() as int),
        ),
{
    let none = Seq::<u8>::empty();
    let arrived = chunks.flatten();
    let got = fed(none, chunks).frames;
    assert(split(none) == Split { frames: Seq::empty(), rest: none, unknown: None });
    assert(none + arrived =~= arrived);
    assert(stream_of(frames) + none =~= stream_of(frames));
    chunks_make_no_difference(none, chunks);
    written_frames_are_split_off(frames, none);
    split_in_two_parts(arrived, under_way);
    rest_is_split_no_further(arrived);
    if split(arrived).unknown is Some {
        crate::frame::later_bytes_change_no_frame(split(arrived).rest, under_way);
    }
    let all = received(frames) + split(none).frames;
    assert(all =~= received(frames));
    let later = split(split(arrived).rest + under_way).frames;
    assert(got + later == received(frames));
    assert(got =~= (got + later).take(got.len() as int));
    assert(received(frames).take(got.len() as int) =~= received(frames.take(got.len() as int)));
}

} // verus!
