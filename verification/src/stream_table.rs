//! The streams that a session knows, and the channels of each.

use crate::error::TokioSmuxError;
use crate::frame::Sid;
use crate::sid_map::SidMap;
use std::collections::HashMap;
use tokio::sync::oneshot;
use vstd::prelude::*;

verus! {

/// A channel that has to be made, with its handle and the number of frames that it holds.
#[derive(Clone, Copy, Debug, PartialEq, Eq, Structural)]
pub struct NewChannel {
    pub channel: u64,
    pub capacity: usize,
}

/// The streams of a session. Frames for a stream go into the channel in `sid_tx_map`. The same
/// channel waits in `sid_rx_map` until a stream takes it to read from. What closes an open stream
/// is in `sid_close_tx_map`. A channel bears the id of its stream, and `turn` tells it from those
/// of earlier streams of that id.
pub struct StreamTable {
    sid_tx_map: SidMap,
    sid_rx_map: SidMap,
    sid_close_tx_map: HashMap<Sid, oneshot::Sender<()>>,
    turn: u32,
}

/// What a table of streams holds.
#[verifier::ext_equal]
pub struct TableView {
    pub tx: Map<Sid, u64>,
    pub rx: Map<Sid, u64>,
    pub close: Map<Sid, oneshot::Sender<()>>,
    pub turn: u32,
}

impl View for StreamTable {
    type V = TableView;

    closed spec fn view(&self) -> TableView {
        TableView {
            tx: self.sid_tx_map@,
            rx: self.sid_rx_map@,
            close: self.sid_close_tx_map@,
            turn: self.turn,
        }
    }
}

impl TableView {
    /// A table that knows no stream.
    pub open spec fn empty() -> TableView {
        TableView { tx: Map::empty(), rx: Map::empty(), close: Map::empty(), turn: 0 }
    }

    /// The table once `sid` is known. A stream that is known keeps its channel.
    pub open spec fn registered(self, sid: Sid) -> TableView {
        if self.tx.contains_key(sid) {
            self
        } else {
            TableView {
                tx: self.tx.insert(sid, self.unused_channel(sid)),
                rx: self.rx.insert(sid, self.unused_channel(sid)),
                turn: ((self.turn + 1) % 0x1_0000_0000) as u32,
                ..self
            }
        }
    }

    /// The channel that a stream of `sid` gets when it becomes known.
    pub open spec fn unused_channel(self, sid: Sid) -> u64 {
        (sid * 0x1_0000_0000 + self.turn) as u64
    }

    /// The table once a stream has taken the channel of `sid`.
    pub open spec fn opened(self, sid: Sid, close_tx: oneshot::Sender<()>) -> TableView {
        if self.rx.contains_key(sid) {
            TableView {
                rx: self.rx.remove(sid),
                close: self.close.insert(sid, close_tx),
                ..self
            }
        } else {
            self
        }
    }

    /// The table once no frame can get to `sid` any more, and none is left.
    pub open spec fn unregistered(self, sid: Sid) -> TableView {
        TableView { tx: self.tx.remove(sid), rx: self.rx.remove(sid), ..self }
    }

    /// The table once `sid` is forgotten.
    pub open spec fn cleaned(self, sid: Sid) -> TableView {
        TableView { close: self.close.remove(sid), ..self.unregistered(sid) }
    }

    /// Every channel that waits for its stream is the one that the frames for the stream go into;
    /// and every channel bears the id of its stream.
    pub open spec fn is_coherent(self) -> bool {
        &&& forall|sid: Sid| #[trigger]
            self.rx.contains_key(sid) ==> self.tx.contains_key(sid) && self.tx[sid] == self.rx[sid]
        &&& forall|sid: Sid| #[trigger]
            self.tx.contains_key(sid) ==> self.tx[sid] / 0x1_0000_0000 == sid
    }
}

/// Whether `res` is what a stream for `sid` gets from `table`: the channel that waits for it, or
/// the error that there is none.
pub open spec fn yields_channel(
    res: Result<u64, TokioSmuxError>,
    table: TableView,
    sid: Sid,
) -> bool {
    if table.rx.contains_key(sid) {
        res matches Ok(channel) && channel == table.rx[sid]
    } else {
        res matches Err(TokioSmuxError::Default { msg }) && msg@
            == "unexpected empty sid in sid_rx_map"@
    }
}

impl StreamTable {
    /// A table that knows no stream.
    pub fn new() -> (res: StreamTable)
        ensures
            res@ == TableView::empty(),
            res@.is_coherent(),
    {
        StreamTable {
            sid_tx_map: SidMap::new(),
            sid_rx_map: SidMap::new(),
            sid_close_tx_map: HashMap::new(),
            turn: 0,
        }
    }

    /// The channel that frames for `sid` go into, if the stream is known.
    pub fn frame_channel(&self, sid: Sid) -> (res: Option<u64>)
        ensures
            res == if self@.tx.contains_key(sid) {
                Some(self@.tx[sid])
            } else {
                None
            },
    {
        self.sid_tx_map.get(sid)
    }

    /// Whether a channel waits for a stream of `sid`.
    pub fn awaits_stream(&self, sid: Sid) -> (res: bool)
        ensures
            res == self@.rx.contains_key(sid),
    {
        self.sid_rx_map.contains_key(sid)
    }

    /// Whether a stream of `sid` is open.
    pub fn is_open(&self, sid: Sid) -> (res: bool)
        ensures
            res == self@.close.contains_key(sid),
    {
        broadcast use vstd::std_specs::hash::group_hash_axioms;

        self.sid_close_tx_map.contains_key(&sid)
    }

    /// Makes `sid` known, unless it is. It returns the channel that the stream gets then, which has
    /// to be made.
    pub fn register(&mut self, sid: Sid, capacity: usize) -> (res: Option<NewChannel>)
        ensures
            final(self)@ == old(self)@.registered(sid),
            old(self)@.is_coherent() ==> final(self)@.is_coherent(),
            res == if old(self)@.tx.contains_key(sid) {
                None
            } else {
                Some(NewChannel { channel: old(self)@.unused_channel(sid), capacity })
            },
    {
        if self.sid_tx_map.contains_key(sid) {
            return None;
        }
        let channel: u64 = sid as u64 * 0x1_0000_0000 + self.turn as u64;
        self.turn = self.turn.wrapping_add(1);
        self.sid_tx_map.insert(sid, channel);
        self.sid_rx_map.insert(sid, channel);
        Some(NewChannel { channel, capacity })
    }

    /// Opens the stream of `sid`: takes the channel that waits for it, and keeps what closes it.
    pub fn new_stream(&mut self, sid: Sid, close_tx: oneshot::Sender<()>) -> (res: Result<
        u64,
        TokioSmuxError,
    >)
        ensures
            final(self)@ == old(self)@.opened(sid, close_tx),
            old(self)@.is_coherent() ==> final(self)@.is_coherent(),
            yields_channel(res, old(self)@, sid),
            res is Ok <==> old(self)@.rx.contains_key(sid),
            res matches Ok(channel) ==> channel == old(self)@.rx[sid],
            res matches Err(err) ==> (err matches TokioSmuxError::Default { msg } && msg@
                == "unexpected empty sid in sid_rx_map"@),
    {
        broadcast use vstd::std_specs::hash::group_hash_axioms;

        match self.sid_rx_map.remove(sid) {
            None => {
                assert(self@ =~= old(self)@);
                Err(TokioSmuxError::Default { msg: "unexpected empty sid in sid_rx_map".to_string() })
            },
            Some(channel) => {
                self.sid_close_tx_map.insert(sid, close_tx);
                Ok(channel)
            },
        }
    }

    /// Takes back that `sid` is known.
    pub fn unregister(&mut self, sid: Sid)
        ensures
            final(self)@ == old(self)@.unregistered(sid),
            old(self)@.is_coherent() ==> final(self)@.is_coherent(),
    {
        self.sid_tx_map.remove(sid);
        self.sid_rx_map.remove(sid);
        assert(self@ =~= old(self)@.unregistered(sid));
    }

    /// Forgets `sid`, once its stream is gone. It returns the channel that frames for it went
    /// into, if it was known.
    pub fn clean(&mut self, sid: Sid) -> (res: Option<u64>)
        ensures
            final(self)@ == old(self)@.cleaned(sid),
            old(self)@.is_coherent() ==> final(self)@.is_coherent(),
            res == if old(self)@.tx.contains_key(sid) {
                Some(old(self)@.tx[sid])
            } else {
                None
            },
    {
        broadcast use vstd::std_specs::hash::group_hash_axioms;

        let channel = self.sid_tx_map.remove(sid);
        self.sid_rx_map.remove(sid);
        self.sid_close_tx_map.remove(&sid);
        channel
    }

    /// Takes out what closes the open streams: one for each of them, in no particular order.
    pub fn close_all(&mut self) -> (res: Vec<oneshot::Sender<()>>)
        ensures
            final(self)@ == (TableView { close: Map::empty(), ..old(self)@ }),
            old(self)@.is_coherent() ==> final(self)@.is_coherent(),
            exists|sids: Seq<Sid>|
                {
                    &&& #[trigger] sids.no_duplicates()
                    &&& sids.to_set() == old(self)@.close.dom()
                    &&& res@ == sids.map_values(|sid: Sid| old(self)@.close[sid])
                },
    {
        broadcast use vstd::std_specs::hash::group_hash_axioms;

        let ghost known = self.sid_close_tx_map@;
        let mut sids: Vec<Sid> = Vec::new();
        for sid in it: self.sid_close_tx_map.keys()
            invariant
                self.sid_close_tx_map@ == known,
                sids@ == it.seq().unref().take(it.index()),
                sids@.no_duplicates(),
                it.seq().no_duplicates(),
                it.seq().unref().to_set() == known.dom(),
                it.index() == it.seq().len() ==> sids@.to_set() == known.dom(),
        {
            sids.push(*sid);
            assert(sids@ =~= it.seq().unref().take(it.index() + 1));
            assert(it.index() + 1 == it.seq().len() ==> sids@ =~= it.seq().unref());
        }
        let mut res: Vec<oneshot::Sender<()>> = Vec::new();
        let mut i: usize = 0;
        while i < sids.len()
            invariant
                i <= sids@.len(),
                sids@.no_duplicates(),
                sids@.to_set() == known.dom(),
                self.sid_tx_map == old(self).sid_tx_map,
                self.sid_rx_map == old(self).sid_rx_map,
                self.turn == old(self).turn,
                self.sid_close_tx_map@ == known.remove_keys(sids@.take(i as int).to_set()),
                res@ == sids@.take(i as int).map_values(|sid: Sid| known[sid]),
            decreases sids@.len() - i,
        {
            let sid = sids[i];
            assert(sids@.contains(sid));
            assert(!sids@.take(i as int).contains(sid));
            if let Some(close_tx) = self.sid_close_tx_map.remove(&sid) {
                res.push(close_tx);
            }
            assert(sids@.take(i + 1) =~= sids@.take(i as int).push(sid));
            proof {
                sids@.take(i as int).lemma_push_to_set_commute(sid);
            }
            assert(self.sid_close_tx_map@ =~= known.remove_keys(sids@.take(i + 1).to_set()));
            assert(res@ =~= sids@.take(i + 1).map_values(|sid: Sid| known[sid]));
            i = i + 1;
        }
        assert(sids@.take(i as int) =~= sids@);
        assert(self.sid_close_tx_map@ =~= Map::empty());
        assert(res@ =~= sids@.map_values(|sid: Sid| old(self)@.close[sid]));
        res
    }
}

/// A new table is coherent.
pub proof fn empty_table_is_coherent()
    ensures
        TableView::empty().is_coherent(),
{
}

/// A stream that becomes known can be reached, and its channel waits for it; one that was known
/// keeps what it had. Nothing changes for any other stream, and no stream is opened or closed.
pub proof fn registering_touches_one_stream(table: TableView, sid: Sid, other: Sid)
    requires
        sid != other,
    ensures
        table.registered(sid).tx.contains_key(sid),
        table.tx.contains_key(sid) ==> table.registered(sid) == table,
        !table.tx.contains_key(sid) ==> {
            &&& table.registered(sid).rx.contains_key(sid)
            &&& table.registered(sid).rx[sid] == table.registered(sid).tx[sid]
            &&& table.registered(sid).tx[sid] == table.unused_channel(sid)
        },
        table.registered(sid).tx.contains_key(other) == table.tx.contains_key(other),
        table.registered(sid).rx.contains_key(other) == table.rx.contains_key(other),
        table.registered(sid).tx[other] == table.tx[other],
        table.registered(sid).rx[other] == table.rx[other],
        table.registered(sid).close == table.close,
{
}

/// Opening a stream takes its channel away, and keeps what closes it, wherever the channel waits;
/// elsewhere it changes nothing. Frames for it, and every other stream, are left alone.
pub proof fn opening_touches_one_stream(
    table: TableView,
    sid: Sid,
    close_tx: oneshot::Sender<()>,
    other: Sid,
)
    requires
        sid != other,
    ensures
        table.rx.contains_key(sid) ==> {
            &&& !table.opened(sid, close_tx).rx.contains_key(sid)
            &&& table.opened(sid, close_tx).close.contains_key(sid)
            &&& table.opened(sid, close_tx).close[sid] == close_tx
        },
        !table.rx.contains_key(sid) ==> table.opened(sid, close_tx) == table,
        table.opened(sid, close_tx).tx == table.tx,
        table.opened(sid, close_tx).turn == table.turn,
        table.opened(sid, close_tx).rx.contains_key(other) == table.rx.contains_key(other),
        table.opened(sid, close_tx).rx[other] == table.rx[other],
        table.opened(sid, close_tx).close.contains_key(other) == table.close.contains_key(other),
        table.opened(sid, close_tx).close[other] == table.close[other],
{
}

/// Taking back that a stream is known leaves neither its channel nor a way to it. What closes
/// streams, and every other stream, is left alone.
pub proof fn unregistering_touches_one_stream(table: TableView, sid: Sid, other: Sid)
    requires
        sid != other,
    ensures
        !table.unregistered(sid).tx.contains_key(sid),
        !table.unregistered(sid).rx.contains_key(sid),
        table.unregistered(sid).close == table.close,
        table.unregistered(sid).turn == table.turn,
        table.unregistered(sid).tx.contains_key(other) == table.tx.contains_key(other),
        table.unregistered(sid).rx.contains_key(other) == table.rx.contains_key(other),
        table.unregistered(sid).tx[other] == table.tx[other],
        table.unregistered(sid).rx[other] == table.rx[other],
{
}

/// A new table knows no stream.
pub proof fn new_table_knows_no_stream(sid: Sid)
    ensures
        !TableView::empty().tx.contains_key(sid),
        !TableView::empty().rx.contains_key(sid),
        !TableView::empty().close.contains_key(sid),
{
}

/// A stream gets a channel just where one waits for it, and gets that one.
pub proof fn waiting_channel_is_given(
    res: Result<u64, TokioSmuxError>,
    table: TableView,
    sid: Sid,
)
    requires
        yields_channel(res, table, sid),
    ensures
        res is Ok <==> table.rx.contains_key(sid),
        res matches Ok(channel) ==> channel == table.rx[sid],
        res matches Err(err) ==> (err matches TokioSmuxError::Default { msg } && msg@
            == "unexpected empty sid in sid_rx_map"@),
{
}

/// In a coherent table the frames for a stream go into the channel that waits for it.
pub proof fn coherence_joins_both_ends(table: TableView, sid: Sid)
    requires
        table.is_coherent(),
        table.rx.contains_key(sid),
    ensures
        table.tx.contains_key(sid),
        table.tx[sid] == table.rx[sid],
{
}

/// A table stays coherent when a stream becomes known.
pub proof fn registering_keeps_coherence(table: TableView, sid: Sid)
    requires
        table.is_coherent(),
    ensures
        table.registered(sid).is_coherent(),
{
}

/// No channel belongs to two streams, and the one that a stream gets when it becomes known belongs
/// to no other.
pub proof fn channels_are_not_shared(table: TableView, a: Sid, b: Sid)
    requires
        table.is_coherent(),
        a != b,
        table.tx.contains_key(a),
    ensures
        table.tx.contains_key(b) ==> table.tx[a] != table.tx[b],
        table.tx[a] != table.unused_channel(b),
{
}

/// A table stays coherent when a stream takes its channel.
pub proof fn opening_keeps_coherence(table: TableView, sid: Sid, close_tx: oneshot::Sender<()>)
    requires
        table.is_coherent(),
    ensures
        table.opened(sid, close_tx).is_coherent(),
{
}

/// A table stays coherent when a stream is taken back or forgotten.
pub proof fn forgetting_keeps_coherence(table: TableView, sid: Sid)
    requires
        table.is_coherent(),
    ensures
        table.unregistered(sid).is_coherent(),
        table.cleaned(sid).is_coherent(),
{
}

/// Nothing is left of a stream that is forgotten, and nothing changes for any other stream.
pub proof fn forgetting_leaves_no_trace(table: TableView, sid: Sid, other: Sid)
    requires
        sid != other,
    ensures
        !table.cleaned(sid).tx.contains_key(sid),
        !table.cleaned(sid).rx.contains_key(sid),
        !table.cleaned(sid).close.contains_key(sid),
        table.cleaned(sid).tx.contains_key(other) == table.tx.contains_key(other),
        table.cleaned(sid).rx.contains_key(other) == table.rx.contains_key(other),
        table.cleaned(sid).close.contains_key(other) == table.close.contains_key(other),
        table.cleaned(sid).tx[other] == table.tx[other],
        table.cleaned(sid).rx[other] == table.rx[other],
        table.cleaned(sid).close[other] == table.close[other],
        table.cleaned(sid).turn == table.turn,
{
}

/// A stream that became known, was opened and is forgotten leaves the streams as they were before,
/// if there was nothing of it before.
pub proof fn stream_life_leaves_table_as_it_was(
    table: TableView,
    sid: Sid,
    close_tx: oneshot::Sender<()>,
)
    requires
        !table.tx.contains_key(sid),
        !table.rx.contains_key(sid),
        !table.close.contains_key(sid),
    ensures
        table.registered(sid).opened(sid, close_tx).cleaned(sid) == (TableView {
            turn: table.registered(sid).turn,
            ..table
        }),
{
    let after = table.registered(sid).opened(sid, close_tx).cleaned(sid);
    assert(after.tx =~= table.tx);
    assert(after.rx =~= table.rx);
    assert(after.close =~= table.close);
}

/// A stream that becomes known again gets another channel than the one just before it.
pub proof fn next_stream_gets_another_channel(table: TableView, sid: Sid)
    requires
        !table.tx.contains_key(sid),
    ensures
        table.registered(sid).cleaned(sid).registered(sid).tx[sid] != table.registered(sid).tx[sid],
{
}

/// A channel is taken once: whoever asks for the stream again is refused, though frames for it
/// still find their way.
pub proof fn channel_is_taken_once(table: TableView, sid: Sid, close_tx: oneshot::Sender<()>)
    ensures
        !table.opened(sid, close_tx).rx.contains_key(sid),
        table.opened(sid, close_tx).tx == table.tx,
{
}

} // verus!
