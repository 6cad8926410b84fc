//! Sorts the frames that a session reads: by what they ask for, and by stream.

use crate::channel::ReadRequest;
use crate::frame::{Cmd, Frame, FrameView, Sid};
use crate::stream_table::{NewChannel, StreamTable, TableView};
use tokio::sync::oneshot;
use vstd::prelude::*;

verus! {

/// Sorts frames. Frames that open a stream are announced to the session, and make the stream
/// known. Data and ends of streams go to their stream, or nowhere if the stream is not known. All
/// else is discarded.
pub struct ReadFrameGrouper {
    /// How many frames the channel of a stream holds.
    pub sid_frame_buffer_size: usize,
}

/// What happens to a frame.
pub enum GroupAction {
    /// The session is told that the remote opens a stream. The channel has to be made before.
    Announce { new_channel: Option<NewChannel>, frame: Frame },
    /// The frame goes into the channel of its stream.
    Deliver { channel: u64, frame: Frame },
    /// The frame is dropped: its stream is not known.
    Unexpected { sid: Sid },
    /// The frame is dropped: it asks for nothing.
    Discard,
    /// There are no more frames.
    Stop,
}

/// The table after a frame was sorted.
pub open spec fn table_after(table: TableView, frame: FrameView) -> TableView {
    match frame.cmd {
        Cmd::Sync => table.registered(frame.sid),
        _ => table,
    }
}

/// The channel that a frame goes into, if it goes into one: data and the end of a stream do, where
/// the stream is known.
pub open spec fn destination(table: TableView, frame: FrameView) -> Option<u64> {
    if concerns(frame, frame.sid) && table.tx.contains_key(frame.sid) {
        Some(table.tx[frame.sid])
    } else {
        None
    }
}

/// Whether `frame` is data or the end of the stream `sid`.
pub open spec fn concerns(frame: FrameView, sid: Sid) -> bool {
    frame.sid == sid && (frame.cmd == Cmd::Psh || frame.cmd == Cmd::Fin)
}

/// Whether `action` is what happens to `frame`.
pub open spec fn sorted_as(
    action: GroupAction,
    table: TableView,
    frame: FrameView,
    capacity: usize,
) -> bool {
    match frame.cmd {
        Cmd::Sync => {
            &&& action matches GroupAction::Announce { new_channel, frame: announced }
            &&& announced@ == frame
            &&& new_channel == if table.tx.contains_key(frame.sid) {
                None
            } else {
                Some(NewChannel { channel: table.unused_channel(frame.sid), capacity })
            }
        },
        Cmd::Fin | Cmd::Psh => match destination(table, frame) {
            Some(channel) => {
                &&& action matches GroupAction::Deliver { channel: to, frame: delivered }
                &&& delivered@ == frame
                &&& to == channel
            },
            None => action matches GroupAction::Unexpected { sid } && sid == frame.sid,
        },
        Cmd::Nop | Cmd::Udp => action is Discard,
    }
}

impl ReadFrameGrouper {
    /// Sorts the next frame.
    pub fn on_frame(&self, table: &mut StreamTable, read_req: Option<ReadRequest>) -> (res:
        GroupAction)
        ensures
            old(table)@.is_coherent() ==> final(table)@.is_coherent(),
            match read_req {
                None => res is Stop && final(table)@ == old(table)@,
                Some(req) => {
                    &&& final(table)@ == table_after(old(table)@, req.frame@)
                    &&& sorted_as(res, old(table)@, req.frame@, self.sid_frame_buffer_size)
                },
            },
            res is Stop <==> read_req is None,
            read_req matches Some(req) ==> (res is Deliver <==> (req.frame.cmd == Cmd::Psh
                || req.frame.cmd == Cmd::Fin) && old(table)@.tx.contains_key(req.frame.sid)),
            read_req matches Some(req) ==> (res matches GroupAction::Deliver { channel, frame } ==> {
                &&& channel == old(table)@.tx[req.frame.sid]
                &&& frame == req.frame
            }),
            read_req matches Some(req) ==> (res is Announce <==> req.frame.cmd == Cmd::Sync),
            read_req matches Some(req) ==> (res matches GroupAction::Announce { new_channel, frame }
                ==> {
                &&& frame == req.frame
                &&& final(table)@.tx.contains_key(req.frame.sid)
                &&& new_channel == if old(table)@.tx.contains_key(req.frame.sid) {
                    None
                } else {
                    Some(
                        NewChannel {
                            channel: final(table)@.tx[req.frame.sid],
                            capacity: self.sid_frame_buffer_size,
                        },
                    )
                }
            }),
            read_req matches Some(req) ==> (req.frame.cmd != Cmd::Sync ==> final(table)@ == old(
                table,
            )@),
    {
        match read_req {
            None => GroupAction::Stop,
            Some(req) => match req.frame.cmd {
                Cmd::Sync => self.handle_sync(table, req),
                Cmd::Fin | Cmd::Psh => self.handle_fin_push(table, req),
                Cmd::Udp => GroupAction::Discard,
                Cmd::Nop => GroupAction::Discard,
            },
        }
    }

    fn handle_sync(&self, table: &mut StreamTable, read_req: ReadRequest) -> (res: GroupAction)
        requires
            read_req.frame.cmd == Cmd::Sync,
        ensures
            res matches GroupAction::Announce { frame, .. } && frame == read_req.frame,
            final(table)@ == table_after(old(table)@, read_req.frame@),
            old(table)@.is_coherent() ==> final(table)@.is_coherent(),
            sorted_as(res, old(table)@, read_req.frame@, self.sid_frame_buffer_size),
    {
        let frame = read_req.frame;
        let new_channel = table.register(frame.sid, self.sid_frame_buffer_size);
        GroupAction::Announce { new_channel, frame }
    }

    fn handle_fin_push(&self, table: &StreamTable, read_req: ReadRequest) -> (res: GroupAction)
        requires
            read_req.frame.cmd == Cmd::Fin || read_req.frame.cmd == Cmd::Psh,
        ensures
            res matches GroupAction::Deliver { frame, .. } ==> frame == read_req.frame,
            sorted_as(res, table@, read_req.frame@, self.sid_frame_buffer_size),
    {
        let frame = read_req.frame;
        match table.frame_channel(frame.sid) {
            None => GroupAction::Unexpected { sid: frame.sid },
            Some(channel) => GroupAction::Deliver { channel, frame },
        }
    }
}

/// Data and the end of a stream go into the channel of that stream wherever the stream is known,
/// whether or not somebody reads from the channel already; and no other frame goes into a channel.
pub proof fn frames_go_to_known_streams(
    action: GroupAction,
    table: TableView,
    frame: FrameView,
    capacity: usize,
)
    requires
        sorted_as(action, table, frame, capacity),
    ensures
        action is Deliver <==> (frame.cmd == Cmd::Psh || frame.cmd == Cmd::Fin)
            && table.tx.contains_key(frame.sid),
        action matches GroupAction::Deliver { channel, frame: delivered } ==> {
            &&& channel == table.tx[frame.sid]
            &&& delivered@ == frame
        },
        action is Deliver <==> destination(table, frame) is Some,
        action matches GroupAction::Deliver { channel, .. } ==> destination(table, frame) == Some(
            channel,
        ),
{
}

/// The session is told of a stream just where the remote opens it, known or not; a channel has to
/// be made just where the stream was not known, of the size asked for, and it is the one that the
/// frames for the stream go into from then on.
pub proof fn openings_are_announced(
    action: GroupAction,
    table: TableView,
    frame: FrameView,
    capacity: usize,
)
    requires
        sorted_as(action, table, frame, capacity),
    ensures
        action is Announce <==> frame.cmd == Cmd::Sync,
        action matches GroupAction::Announce { new_channel, frame: announced } ==> {
            &&& announced@ == frame
            &&& table_after(table, frame).tx.contains_key(frame.sid)
            &&& new_channel is None <==> table.tx.contains_key(frame.sid)
            &&& new_channel matches Some(new_channel) ==> {
                &&& new_channel.capacity == capacity
                &&& new_channel.channel == table_after(table, frame).tx[frame.sid]
                &&& table_after(table, frame).rx.contains_key(frame.sid)
                &&& new_channel.channel == table_after(table, frame).rx[frame.sid]
            }
        },
{
}

/// A frame is dropped just where it is neither an opening, nor data or the end of a stream that is
/// known; and it is told whether that was to be expected.
pub proof fn only_these_frames_are_dropped(
    action: GroupAction,
    table: TableView,
    frame: FrameView,
    capacity: usize,
)
    requires
        sorted_as(action, table, frame, capacity),
    ensures
        action is Discard <==> frame.cmd == Cmd::Nop || frame.cmd == Cmd::Udp,
        action is Unexpected <==> (frame.cmd == Cmd::Psh || frame.cmd == Cmd::Fin)
            && !table.tx.contains_key(frame.sid),
        action matches GroupAction::Unexpected { sid } ==> sid == frame.sid,
        !(action is Stop),
        frame.cmd != Cmd::Sync ==> table_after(table, frame) == table,
{
}

/// Accepting a stream makes no difference to where its frames go.
pub proof fn accepting_changes_no_destination(
    table: TableView,
    frame: FrameView,
    sid: Sid,
    close_tx: oneshot::Sender<()>,
)
    ensures
        destination(table.opened(sid, close_tx), frame) == destination(table, frame),
{
}

/// Only a frame that opens a stream changes which streams the session knows, and it changes it for
/// that stream alone.
pub proof fn sorting_touches_one_stream(table: TableView, frame: FrameView, other: Sid)
    requires
        frame.cmd != Cmd::Sync || other != frame.sid,
    ensures
        table_after(table, frame).tx.contains_key(other) == table.tx.contains_key(other),
        table_after(table, frame).rx.contains_key(other) == table.rx.contains_key(other),
        table_after(table, frame).tx[other] == table.tx[other],
        table_after(table, frame).rx[other] == table.rx[other],
        table_after(table, frame).close == table.close,
{
}

/// A table stays coherent whatever frames are sorted.
pub proof fn sorting_keeps_coherence(table: TableView, frame: FrameView)
    requires
        table.is_coherent(),
    ensures
        table_after(table, frame).is_coherent(),
{
    crate::stream_table::registering_keeps_coherence(table, frame.sid);
}

/// Frames of different streams never end up in the same channel.
pub proof fn streams_are_kept_apart(
    table: TableView,
    a: FrameView,
    b: FrameView,
    action_a: GroupAction,
    action_b: GroupAction,
    capacity: usize,
)
    requires
        table.is_coherent(),
        a.sid != b.sid,
        sorted_as(action_a, table, a, capacity),
        sorted_as(action_b, table, b, capacity),
        action_a is Deliver,
        action_b is Deliver,
    ensures
        action_a->Deliver_channel != action_b->Deliver_channel,
{
    crate::stream_table::channels_are_not_shared(table, a.sid, b.sid);
}

/// What a stream reads is what the remote sends to it: after the remote opens a stream that is not
/// known yet, data and the end of that stream go into the channel that the stream takes to read
/// from.
pub proof fn announced_stream_gets_its_frames(
    table: TableView,
    announcement: FrameView,
    frame: FrameView,
    action: GroupAction,
    capacity: usize,
)
    requires
        announcement.cmd == Cmd::Sync,
        !table.tx.contains_key(announcement.sid),
        frame.cmd == Cmd::Psh || frame.cmd == Cmd::Fin,
        frame.sid == announcement.sid,
        sorted_as(action, table_after(table, announcement), frame, capacity),
    ensures
        table_after(table, announcement).rx.contains_key(frame.sid),
        action matches GroupAction::Deliver { channel, frame: delivered } && channel == table_after(
            table,
            announcement,
        ).rx[frame.sid] && delivered@ == frame,
{
}

/// Nothing comes of a keep-alive frame but its arrival: it is complete as it is sent, it is
/// discarded, and it changes nothing.
pub proof fn keep_alive_frame_changes_nothing(
    table: TableView,
    action: GroupAction,
    capacity: usize,
)
    requires
        sorted_as(action, table, FrameView::bare(1, Cmd::Nop, 0).received(), capacity),
    ensures
        crate::frame::parsed_frame(FrameView::bare(1, Cmd::Nop, 0).encoding()) == Ok::<_, u8>(
            Some(FrameView::bare(1, Cmd::Nop, 0).received()),
        ),
        action is Discard,
        table_after(table, FrameView::bare(1, Cmd::Nop, 0).received()) == table,
{
    let frame = FrameView::bare(1, Cmd::Nop, 0);
    crate::frame::frame_is_read_back(frame, Seq::empty());
    assert(frame.encoding() + Seq::<u8>::empty() =~= frame.encoding());
}

} // verus!
