//! What is sent on a stream is received on it, though many streams share the connection.
//!
//! The laws here join those of the parts: frames that are written arrive whole and in order, those
//! of each stream go into the channel of that stream, and a stream receives what its channel
//! holds.

use crate::frame::{Cmd, FrameView, Sid};
use crate::stream::{Received, StreamView};
use crate::stream_table::TableView;
use tokio::sync::oneshot;
use vstd::prelude::*;

verus! {

/// What can happen to the table of streams of a session.
pub enum TableEvent {
    /// A frame that was read is sorted.
    Sort(FrameView),
    /// The session accepts a stream that the remote has opened.
    Accept(Sid, oneshot::Sender<()>),
    /// The session opens a stream itself.
    Open(Sid, oneshot::Sender<()>),
    /// A stream that is gone is forgotten.
    Clean(Sid),
    /// The session closes all streams.
    CloseAll,
}

impl TableEvent {
    /// The table after the event.
    pub open spec fn table_after(self, table: TableView) -> TableView {
        match self {
            TableEvent::Sort(frame) => crate::read_frame_grouper::table_after(table, frame),
            TableEvent::Accept(sid, close_tx) => table.opened(sid, close_tx),
            TableEvent::Open(sid, close_tx) => crate::session::table_after_opening(
                table,
                sid,
                close_tx,
            ),
            TableEvent::Clean(sid) => table.cleaned(sid),
            TableEvent::CloseAll => TableView { close: Map::empty(), ..table },
        }
    }

    /// Whether the event is about other things than forgetting `sid`, or opening it once more.
    pub open spec fn spares(self, sid: Sid) -> bool {
        match self {
            TableEvent::Clean(other) => other != sid,
            TableEvent::Open(other, _) => other != sid,
            _ => true,
        }
    }
}

/// The table after `events`.
pub open spec fn table_after_all(table: TableView, events: Seq<TableEvent>) -> TableView
    decreases events.len(),
{
    if events.len() == 0 {
        table
    } else {
        table_after_all(events[0].table_after(table), events.drop_first())
    }
}

/// The frames that are sorted in the course of `events`.
pub open spec fn sorted_frames(events: Seq<TableEvent>) -> Seq<FrameView>
    decreases events.len(),
{
    if events.len() == 0 {
        Seq::empty()
    } else {
        let later = sorted_frames(events.drop_first());
        match events[0] {
            TableEvent::Sort(frame) => seq![frame] + later,
            _ => later,
        }
    }
}

/// The frames that go into the channel `to` in the course of `events`.
pub open spec fn delivered(table: TableView, events: Seq<TableEvent>, to: u64) -> Seq<FrameView>
    decreases events.len(),
{
    if events.len() == 0 {
        Seq::empty()
    } else {
        let later = delivered(events[0].table_after(table), events.drop_first(), to);
        match events[0] {
            TableEvent::Sort(frame) if crate::read_frame_grouper::destination(table, frame) == Some(
                to,
            ) => seq![frame] + later,
            _ => later,
        }
    }
}

/// Data and the end of the stream `sid` among `frames`.
pub open spec fn frames_for(frames: Seq<FrameView>, sid: Sid) -> Seq<FrameView> {
    frames.filter(|frame: FrameView| crate::read_frame_grouper::concerns(frame, sid))
}

/// The frames of messages that a stream sends one after the other, and of its end, if it has ended.
pub open spec fn sent(stream: StreamView, messages: Seq<Seq<u8>>, ended: bool) -> Seq<FrameView> {
    messages.map_values(|data: Seq<u8>| stream.message(data)) + if ended {
        seq![stream.fin()]
    } else {
        Seq::empty()
    }
}

/// Whether receiving `frames` one after the other gives exactly `messages`, and then the end, if
/// `ended`.
pub open spec fn gives(
    stream: StreamView,
    frames: Seq<FrameView>,
    messages: Seq<Seq<u8>>,
    ended: bool,
) -> bool {
    &&& frames.len() == messages.len() + if ended {
        1int
    } else {
        0int
    }
    &&& forall|i: int|
        0 <= i < messages.len() ==> {
            &&& stream.after(Some(#[trigger] frames[i])) == stream
            &&& stream.receiving(Some(frames[i])) == Received::Data(messages[i])
        }
    &&& ended ==> {
        &&& stream.receiving(Some(frames.last())) is End
        &&& stream.after(Some(frames.last())).receive_remote_fin
    }
}

/// A table stays coherent whatever happens to it.
pub proof fn events_keep_coherence(table: TableView, events: Seq<TableEvent>)
    requires
        table.is_coherent(),
    ensures
        table_after_all(table, events).is_coherent(),
    decreases events.len(),
{
    if events.len() > 0 {
        event_keeps_coherence(table, events[0]);
        events_keep_coherence(events[0].table_after(table), events.drop_first());
    }
}

proof fn event_keeps_coherence(table: TableView, event: TableEvent)
    requires
        table.is_coherent(),
    ensures
        event.table_after(table).is_coherent(),
{
    match event {
        TableEvent::Sort(frame) => {
            crate::read_frame_grouper::sorting_keeps_coherence(table, frame);
        },
        TableEvent::Accept(sid, close_tx) => {
            crate::stream_table::opening_keeps_coherence(table, sid, close_tx);
        },
        TableEvent::Open(sid, close_tx) => {
            crate::session::opening_keeps_coherence(table, sid, close_tx);
        },
        TableEvent::Clean(sid) => {
            crate::stream_table::forgetting_keeps_coherence(table, sid);
        },
        TableEvent::CloseAll => {},
    }
}

/// Many streams share a connection: however the frames of streams are mixed, and whatever becomes
/// of other streams meanwhile, a stream that is known gets its own frames, all of them and in
/// order, and none of another stream.
pub proof fn known_stream_gets_its_own_frames(
    table: TableView,
    events: Seq<TableEvent>,
    sid: Sid,
)
    requires
        table.is_coherent(),
        table.tx.contains_key(sid),
        forall|i: int| 0 <= i < events.len() ==> #[trigger] events[i].spares(sid),
    ensures
        delivered(table, events, table.tx[sid]) == frames_for(sorted_frames(events), sid),
    decreases events.len(),
{
    let ours = |frame: FrameView| crate::read_frame_grouper::concerns(frame, sid);
    reveal(Seq::filter);
    if events.len() > 0 {
        let event = events[0];
        let later = events.drop_first();
        let after = event.table_after(table);
        assert(event.spares(sid));
        assert forall|i: int| 0 <= i < later.len() implies #[trigger] later[i].spares(sid) by {
            assert(later[i] == events[i + 1]);
        }
        event_keeps_coherence(table, event);
        assert(after.tx.contains_key(sid) && after.tx[sid] == table.tx[sid]);
        known_stream_gets_its_own_frames(after, later, sid);
        if let TableEvent::Sort(frame) = event {
            if frame.sid != sid {
                crate::stream_table::channels_are_not_shared(table, sid, frame.sid);
            }
            sorted_frames(later).lemma_filter_prepend(frame, ours);
            assert(delivered(table, events, table.tx[sid]) =~= frames_for(
                sorted_frames(events),
                sid,
            ));
        }
    }
}

/// The same holds of a stream that the remote opens first: the channel that it gets takes all of
/// its frames and in order, and none of another stream; and it waits for whoever accepts the
/// stream.
pub proof fn new_stream_gets_its_own_frames(
    table: TableView,
    sync: FrameView,
    events: Seq<TableEvent>,
)
    requires
        table.is_coherent(),
        sync.cmd == Cmd::Sync,
        !table.tx.contains_key(sync.sid),
        forall|i: int| 0 <= i < events.len() ==> #[trigger] events[i].spares(sync.sid),
    ensures
        TableEvent::Sort(sync).table_after(table).rx.contains_key(sync.sid),
        TableEvent::Sort(sync).table_after(table).rx[sync.sid] == table.unused_channel(sync.sid),
        delivered(
            table,
            seq![TableEvent::Sort(sync)] + events,
            table.unused_channel(sync.sid),
        ) == frames_for(sorted_frames(events), sync.sid),
{
    let opening = TableEvent::Sort(sync);
    event_keeps_coherence(table, opening);
    known_stream_gets_its_own_frames(opening.table_after(table), events, sync.sid);
    assert((seq![opening] + events).drop_first() =~= events);
}

/// Which frames concern a stream does not change on the way to the remote.
proof fn received_frames_for(frames: Seq<FrameView>, sid: Sid)
    ensures
        frames_for(crate::session_inner::received(frames), sid) == crate::session_inner::received(
            frames_for(frames, sid),
        ),
    decreases frames.len(),
{
    reveal(Seq::filter);
    let arrived = crate::session_inner::received(frames);
    if frames.len() > 0 {
        received_frames_for(frames.drop_last(), sid);
        assert(arrived.drop_last() =~= crate::session_inner::received(frames.drop_last()));
    }
    assert(frames_for(arrived, sid) =~= crate::session_inner::received(frames_for(frames, sid)));
}

/// What a stream sends gives the messages that it sent, once it is received.
proof fn sent_is_given(
    sender: StreamView,
    messages: Seq<Seq<u8>>,
    ended: bool,
    receiver: StreamView,
)
    requires
        !receiver.receive_remote_fin,
    ensures
        gives(
            receiver,
            crate::session_inner::received(sent(sender, messages, ended)),
            messages,
            ended,
        ),
{
    let ours = sent(sender, messages, ended);
    let got = crate::session_inner::received(ours);
    assert forall|i: int| 0 <= i < messages.len() implies {
        &&& receiver.after(Some(#[trigger] got[i])) == receiver
        &&& receiver.receiving(Some(got[i])) == Received::Data(messages[i])
    } by {
        assert(ours[i] == sender.message(messages[i]));
        assert(got[i] == ours[i].received());
    }
    if ended {
        assert(got.last() == ours.last().received());
        assert(ours.last() == sender.fin());
    }
}

/// Messages that fit into a frame, and the end of a stream, can be written as they are.
pub proof fn sent_frames_are_whole(
    sender: StreamView,
    messages: Seq<Seq<u8>>,
    ended: bool,
    i: int,
)
    requires
        forall|j: int| 0 <= j < messages.len() ==> #[trigger] messages[j].len() <= u16::MAX,
        0 <= i < sent(sender, messages, ended).len(),
    ensures
        sent(sender, messages, ended)[i].is_whole(),
        sent(sender, messages, ended)[i].length_matches(),
        sent(sender, messages, ended)[i].sid == sender.sid,
{
    if i < messages.len() {
        assert(messages[i].len() <= u16::MAX);
        assert(sent(sender, messages, ended)[i] == sender.message(messages[i]));
    } else {
        assert(sent(sender, messages, ended)[i] == sender.fin());
    }
}

/// What is sent is received, where one stream has the connection for itself: its messages and its
/// end, if it has ended, arrive as these messages, each on its own and in order, and then as the
/// end; however the bytes in between are cut into reads.
pub proof fn messages_are_received_as_sent(
    sender: StreamView,
    messages: Seq<Seq<u8>>,
    ended: bool,
    chunks: Seq<Seq<u8>>,
    receiver: StreamView,
)
    requires
        forall|i: int| 0 <= i < messages.len() ==> #[trigger] messages[i].len() <= u16::MAX,
        chunks.flatten() == crate::session_inner::stream_of(sent(sender, messages, ended)),
        !receiver.receive_remote_fin,
    ensures
        crate::session_inner::fed(Seq::empty(), chunks).unknown is None,
        gives(
            receiver,
            crate::session_inner::fed(Seq::empty(), chunks).frames,
            messages,
            ended,
        ),
{
    let frames = sent(sender, messages, ended);
    assert forall|i: int| 0 <= i < frames.len() implies #[trigger] frames[i].is_whole() by {
        sent_frames_are_whole(sender, messages, ended, i);
    }
    crate::session_inner::messages_keep_their_boundaries(frames, chunks);
    sent_is_given(sender, messages, ended, receiver);
}

/// What is sent is received, though many streams share the connection. A stream that the receiving
/// session knows gets the messages that were sent on it and then its end, if it has ended, each on
/// its own and in order, and nothing else; whatever else is written in between, however the bytes
/// are cut into reads, and whatever becomes of other streams meanwhile.
pub proof fn streams_share_a_connection(
    sender: StreamView,
    messages: Seq<Seq<u8>>,
    ended: bool,
    frames: Seq<FrameView>,
    chunks: Seq<Seq<u8>>,
    table: TableView,
    events: Seq<TableEvent>,
    receiver: StreamView,
)
    requires
        forall|i: int| 0 <= i < frames.len() ==> #[trigger] frames[i].is_whole(),
        frames_for(frames, sender.sid) == sent(sender, messages, ended),
        chunks.flatten() == crate::session_inner::stream_of(frames),
        table.is_coherent(),
        table.tx.contains_key(sender.sid),
        sorted_frames(events) == crate::session_inner::fed(Seq::empty(), chunks).frames,
        forall|i: int| 0 <= i < events.len() ==> #[trigger] events[i].spares(sender.sid),
        !receiver.receive_remote_fin,
    ensures
        crate::session_inner::fed(Seq::empty(), chunks).unknown is None,
        gives(receiver, delivered(table, events, table.tx[sender.sid]), messages, ended),
{
    crate::session_inner::messages_keep_their_boundaries(frames, chunks);
    known_stream_gets_its_own_frames(table, events, sender.sid);
    received_frames_for(frames, sender.sid);
    sent_is_given(sender, messages, ended, receiver);
}

/// The same from the opening of the stream on. The remote writes `before`, then the frame that
/// opens the stream, then `frames`. The receiving session, which does not know the stream until
/// then, gives it a channel that waits for whoever accepts the stream; and that channel gets the
/// messages that were sent on the stream and then its end, if it has ended, each on its own and in
/// order, and nothing else.
pub proof fn opened_stream_shares_a_connection(
    sender: StreamView,
    messages: Seq<Seq<u8>>,
    ended: bool,
    before: Seq<FrameView>,
    sync: FrameView,
    frames: Seq<FrameView>,
    chunks: Seq<Seq<u8>>,
    table: TableView,
    earlier: Seq<TableEvent>,
    later: Seq<TableEvent>,
    receiver: StreamView,
)
    requires
        sync.cmd == Cmd::Sync,
        sync.sid == sender.sid,
        sync.is_whole(),
        forall|i: int| 0 <= i < before.len() ==> #[trigger] before[i].is_whole(),
        forall|i: int| 0 <= i < frames.len() ==> #[trigger] frames[i].is_whole(),
        frames_for(frames, sender.sid) == sent(sender, messages, ended),
        chunks.flatten() == crate::session_inner::stream_of(before + seq![sync] + frames),
        table.is_coherent(),
        !table_after_all(table, earlier).tx.contains_key(sender.sid),
        sorted_frames(earlier).len() == before.len(),
        sorted_frames(earlier) + seq![sync.received()] + sorted_frames(later)
            == crate::session_inner::fed(Seq::empty(), chunks).frames,
        forall|i: int| 0 <= i < later.len() ==> #[trigger] later[i].spares(sender.sid),
        !receiver.receive_remote_fin,
    ensures
        crate::session_inner::fed(Seq::empty(), chunks).unknown is None,
        ({
            let opening = TableEvent::Sort(sync.received());
            let known = table_after_all(table, earlier);
            let channel = known.unused_channel(sender.sid);
            &&& opening.table_after(known).rx.contains_key(sender.sid)
            &&& opening.table_after(known).rx[sender.sid] == channel
            &&& gives(
                receiver,
                delivered(known, seq![opening] + later, channel),
                messages,
                ended,
            )
        }),
{
    let written = before + seq![sync] + frames;
    let arrived = crate::session_inner::received(written);
    assert forall|i: int| 0 <= i < written.len() implies #[trigger] written[i].is_whole() by {
        if i > before.len() {
            assert(frames[i - before.len() - 1].is_whole());
        }
    }
    crate::session_inner::messages_keep_their_boundaries(written, chunks);
    let skipped = before.len() + 1;
    assert(arrived.skip(skipped as int) =~= crate::session_inner::received(frames));
    assert((sorted_frames(earlier) + seq![sync.received()] + sorted_frames(later)).skip(
        skipped as int,
    ) =~= sorted_frames(later));
    events_keep_coherence(table, earlier);
    new_stream_gets_its_own_frames(table_after_all(table, earlier), sync.received(), later);
    received_frames_for(frames, sender.sid);
    sent_is_given(sender, messages, ended, receiver);
}

} // verus!
