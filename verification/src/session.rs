//! A session: the ids of its streams, and how streams are opened and accepted.

use crate::config::SmuxConfig;
use crate::error::TokioSmuxError;
use crate::frame::{Cmd, Frame, FrameView, Sid};
use crate::read_frame_grouper::ReadFrameGrouper;
use crate::session_inner::{SessionInner, SessionInnerView};
use crate::stream_table::{NewChannel, StreamTable, TableView};
use tokio::sync::oneshot;
use vstd::prelude::*;

verus! {

/// How many frames that were read may wait to be sorted.
pub const MAX_READ_REQ: usize = 4096;

/// How many streams that the remote opened may wait to be accepted.
pub const MAX_IN_QUEUE_SYNC_FRAMES: usize = 4096;

/// How many streams that are gone may wait to be forgotten.
pub const MAX_IN_QUEUE_DROPS: usize = 1024;

/// A session.
pub struct Session {
    config: SmuxConfig,
    sid: Sid,
    go_away: bool,
    inner_err: Option<TokioSmuxError>,
}

/// The state of a session: its configuration, the id of the stream that it opened last, whether
/// its ids are used up, and what the connection failed of, if it did.
#[verifier::ext_equal]
pub struct SessionView {
    pub config: SmuxConfig,
    pub sid: Sid,
    pub go_away: bool,
    pub inner_err: Option<TokioSmuxError>,
}

impl View for Session {
    type V = SessionView;

    closed spec fn view(&self) -> SessionView {
        SessionView {
            config: self.config,
            sid: self.sid,
            go_away: self.go_away,
            inner_err: self.inner_err,
        }
    }
}

/// What runs beside a session, and how many items each of the queues in between holds.
pub struct SessionParts {
    pub inner: SessionInner,
    pub grouper: ReadFrameGrouper,
    pub table: StreamTable,
    pub write_capacity: usize,
    pub read_capacity: usize,
    pub sync_capacity: usize,
    pub drop_capacity: usize,
}

/// What comes of opening a stream.
pub enum Opening {
    /// The ids are used up.
    GoAway,
    /// The connection has failed.
    Broken(TokioSmuxError),
    /// This frame has to be written.
    Sync(FrameView),
}

impl SessionView {
    /// The state of a new session. A client's streams have odd ids, a server's even ones.
    pub open spec fn new(config: SmuxConfig, is_client: bool) -> SessionView {
        SessionView {
            config,
            sid: if is_client {
                1
            } else {
                0
            },
            go_away: false,
            inner_err: None,
        }
    }

    /// Whether no id is left for another stream.
    pub open spec fn ids_are_used_up(self) -> bool {
        self.go_away || self.sid + 2 > u32::MAX
    }

    /// The id that follows, which wraps where there is none.
    pub open spec fn next_sid(self) -> Sid {
        ((self.sid + 2) % 0x1_0000_0000) as u32
    }

    /// What comes of opening a stream.
    pub open spec fn opening(self) -> Opening {
        if self.go_away {
            Opening::GoAway
        } else if self.inner_err is Some {
            Opening::Broken(self.inner_err->0)
        } else if self.ids_are_used_up() {
            Opening::GoAway
        } else {
            Opening::Sync(FrameView::bare(self.config.version, Cmd::Sync, self.next_sid()))
        }
    }

    /// The state after opening a stream.
    pub open spec fn after_opening(self) -> SessionView {
        if self.go_away || self.inner_err is Some {
            self
        } else {
            SessionView { sid: self.next_sid(), go_away: self.ids_are_used_up(), ..self }
        }
    }
}

/// A stream that was opened: the channel that has to be made, if any, and the channel that the
/// stream reads from.
pub struct OpenedStream {
    pub new_channel: Option<NewChannel>,
    pub frame_channel: Result<u64, TokioSmuxError>,
}

/// The table once the session has opened `sid`. If no channel waits for it, it is taken back that
/// the stream is known.
pub open spec fn table_after_opening(
    table: TableView,
    sid: Sid,
    close_tx: oneshot::Sender<()>,
) -> TableView {
    let registered = table.registered(sid);
    if registered.rx.contains_key(sid) {
        registered.opened(sid, close_tx)
    } else {
        registered.unregistered(sid)
    }
}

impl Session {
    /// A session on the side that connects.
    pub fn client(config: SmuxConfig) -> (res: Result<(Session, SessionParts), TokioSmuxError>)
        ensures
            Session::is_new(res, config, true),
            res is Ok <==> config.version == 1 && (config.keep_alive_disable || (
            config.keep_alive_interval@ > 0 && config.keep_alive_timeout@
                >= config.keep_alive_interval@)),
            res matches Err(err) ==> err is InvalidConfig,
            res matches Ok((session, parts)) ==> {
                &&& session@.config == config
                &&& session@.sid == 1
                &&& !session@.go_away
                &&& session@.inner_err is None
                &&& parts.inner@.keep_alive_interval == (if config.keep_alive_disable {
                    None
                } else {
                    Some(config.keep_alive_interval)
                })
                &&& parts.inner@.read_buf.len() == 0
                &&& !parts.inner@.read_finished
                &&& parts.grouper.sid_frame_buffer_size
                    == config.stream_reading_frame_channel_capacity
                &&& parts.table@ == TableView::empty()
                &&& parts.write_capacity == config.writing_frame_channel_capacity
                &&& parts.read_capacity == 4096
                &&& parts.sync_capacity == 4096
                &&& parts.drop_capacity == 1024
            },
    {
        Session::new(config, true)
    }

    /// A session on the side that is connected to.
    pub fn server(config: SmuxConfig) -> (res: Result<(Session, SessionParts), TokioSmuxError>)
        ensures
            Session::is_new(res, config, false),
            res is Ok <==> config.version == 1 && (config.keep_alive_disable || (
            config.keep_alive_interval@ > 0 && config.keep_alive_timeout@
                >= config.keep_alive_interval@)),
            res matches Err(err) ==> err is InvalidConfig,
            res matches Ok((session, parts)) ==> {
                &&& session@.config == config
                &&& session@.sid == 0
                &&& !session@.go_away
                &&& session@.inner_err is None
                &&& parts.inner@.keep_alive_interval == (if config.keep_alive_disable {
                    None
                } else {
                    Some(config.keep_alive_interval)
                })
                &&& parts.inner@.read_buf.len() == 0
                &&& !parts.inner@.read_finished
                &&& parts.grouper.sid_frame_buffer_size
                    == config.stream_reading_frame_channel_capacity
                &&& parts.table@ == TableView::empty()
                &&& parts.write_capacity == config.writing_frame_channel_capacity
                &&& parts.read_capacity == 4096
                &&& parts.sync_capacity == 4096
                &&& parts.drop_capacity == 1024
            },
    {
        Session::new(config, false)
    }

    /// Whether `res` is a new session with its parts; or, where the configuration has a defect,
    /// the error that names it.
    pub open spec fn is_new(
        res: Result<(Session, SessionParts), TokioSmuxError>,
        config: SmuxConfig,
        is_client: bool,
    ) -> bool {
        match config.defect() {
            Some(text) => res matches Err(TokioSmuxError::InvalidConfig { msg }) && msg@ == text,
            None => {
                &&& res matches Ok((session, parts))
                &&& session@ == SessionView::new(config, is_client)
                &&& parts.inner@ == SessionInnerView {
                    read_buf: Seq::empty(),
                    read_finished: false,
                    keep_alive_interval: if config.keep_alive_disable {
                        None
                    } else {
                        Some(config.keep_alive_interval)
                    },
                }
                &&& parts.grouper.sid_frame_buffer_size
                    == config.stream_reading_frame_channel_capacity
                &&& parts.table@ == TableView::empty()
                &&& parts.write_capacity == config.writing_frame_channel_capacity
                &&& parts.read_capacity == MAX_READ_REQ
                &&& parts.sync_capacity == MAX_IN_QUEUE_SYNC_FRAMES
                &&& parts.drop_capacity == MAX_IN_QUEUE_DROPS
            },
        }
    }

    fn new(config: SmuxConfig, is_client: bool) -> (res: Result<
        (Session, SessionParts),
        TokioSmuxError,
    >)
        ensures
            Session::is_new(res, config, is_client),
    {
        if let Err(err) = config.verify_config() {
            return Err(err);
        }
        let mut inner = SessionInner::new();
        if !config.keep_alive_disable {
            inner.with_keep_alive_interval(config.keep_alive_interval);
        }
        let parts = SessionParts {
            inner,
            grouper: ReadFrameGrouper {
                sid_frame_buffer_size: config.stream_reading_frame_channel_capacity,
            },
            table: StreamTable::new(),
            write_capacity: config.writing_frame_channel_capacity,
            read_capacity: MAX_READ_REQ,
            sync_capacity: MAX_IN_QUEUE_SYNC_FRAMES,
            drop_capacity: MAX_IN_QUEUE_DROPS,
        };
        let session = Session {
            config,
            sid: if is_client {
                1
            } else {
                0
            },
            go_away: false,
            inner_err: None,
        };
        Ok((session, parts))
    }

    /// Takes in that the connection has failed.
    pub fn set_inner_err(&mut self, err: TokioSmuxError)
        ensures
            final(self)@ == (SessionView { inner_err: Some(err), ..old(self)@ }),
    {
        self.inner_err = Some(err);
    }

    /// What the connection failed of, if it did.
    pub fn get_inner_err(&self) -> (res: Option<TokioSmuxError>)
        ensures
            res == self@.inner_err,
    {
        match &self.inner_err {
            Some(err) => Some(err.clone()),
            None => None,
        }
    }

    /// Fails with what the connection failed of, if it did.
    pub fn inner_ok(&self) -> (res: Result<(), TokioSmuxError>)
        ensures
            match self@.inner_err {
                None => res is Ok,
                Some(err) => res == Err::<(), TokioSmuxError>(err),
            },
    {
        match self.get_inner_err() {
            None => Ok(()),
            Some(err) => Err(err),
        }
    }

    /// Starts to open a stream: the frame that has to be written. It fails where the ids are used
    /// up, and where the connection has failed.
    pub fn open_stream(&mut self) -> (res: Result<Frame, TokioSmuxError>)
        ensures
            final(self)@ == old(self)@.after_opening(),
            match old(self)@.opening() {
                Opening::GoAway => res matches Err(TokioSmuxError::SessionGoAway),
                Opening::Broken(err) => res == Err::<Frame, TokioSmuxError>(err),
                Opening::Sync(view) => res matches Ok(frame) && frame@ == view,
            },
            res is Ok <==> !old(self)@.go_away && old(self)@.inner_err is None && old(self)@.sid + 2
                <= u32::MAX,
            res matches Ok(frame) ==> {
                &&& frame.ver == old(self)@.config.version
                &&& frame.cmd == Cmd::Sync
                &&& frame.sid == old(self)@.sid + 2
                &&& frame.length == 0
                &&& frame.data is None
                &&& final(self)@.sid == frame.sid
                &&& !final(self)@.go_away
            },
            res matches Err(err) ==> {
                &&& old(self)@.go_away || old(self)@.inner_err is None ==> err is SessionGoAway
                    && final(self)@.go_away
                &&& !old(self)@.go_away && old(self)@.inner_err is Some ==> old(self)@.inner_err
                    == Some(err) && final(self)@ == old(self)@
            },
            final(self)@.config == old(self)@.config,
            final(self)@.inner_err == old(self)@.inner_err,
    {
        if self.go_away {
            return Err(TokioSmuxError::SessionGoAway);
        }
        if let Err(err) = self.inner_ok() {
            return Err(err);
        }
        self.sid = self.sid.wrapping_add(2);
        if self.sid == self.sid % 2 {
            self.go_away = true;
            return Err(TokioSmuxError::SessionGoAway);
        }
        Ok(Frame::new(self.config.version, Cmd::Sync, self.sid))
    }

    /// Goes on with opening a stream after its frame was to be written. Where that failed, what
    /// the connection failed of says more than the failure to write.
    pub fn open_stream_written(&self, written: Result<(), TokioSmuxError>) -> (res: Result<
        (),
        TokioSmuxError,
    >)
        ensures
            written is Ok ==> res is Ok,
            written matches Err(err) ==> res == Err::<(), TokioSmuxError>(
                match self@.inner_err {
                    Some(inner_err) => inner_err,
                    None => err,
                },
            ),
    {
        if written.is_err() {
            if let Err(inner_err) = self.inner_ok() {
                return Err(inner_err);
            }
        }
        written
    }

    /// Ends opening the stream `sid`: makes it known, unless it is, and takes its channel.
    pub fn open_stream_registered(
        &self,
        table: &mut StreamTable,
        sid: Sid,
        close_tx: oneshot::Sender<()>,
    ) -> (res: OpenedStream)
        ensures
            final(table)@ == table_after_opening(old(table)@, sid, close_tx),
            old(table)@.is_coherent() ==> final(table)@.is_coherent(),
            res.new_channel == if old(table)@.tx.contains_key(sid) {
                None
            } else {
                Some(
                    NewChannel {
                        channel: old(table)@.unused_channel(sid),
                        capacity: self@.config.stream_reading_frame_channel_capacity,
                    },
                )
            },
            crate::stream_table::yields_channel(
                res.frame_channel,
                old(table)@.registered(sid),
                sid,
            ),
            res.frame_channel is Ok <==> old(table)@.rx.contains_key(sid) || !old(
                table,
            )@.tx.contains_key(sid),
            res.frame_channel is Ok ==> {
                &&& final(table)@.tx.contains_key(sid)
                &&& !final(table)@.rx.contains_key(sid)
                &&& final(table)@.close.contains_key(sid)
                &&& final(table)@.close[sid] == close_tx
            },
            forall|other: Sid|
                other != sid ==> {
                    &&& #[trigger] final(table)@.tx.contains_key(other) == old(
                        table,
                    )@.tx.contains_key(other)
                    &&& final(table)@.tx[other] == old(table)@.tx[other]
                },
            forall|other: Sid|
                other != sid ==> {
                    &&& #[trigger] final(table)@.rx.contains_key(other) == old(
                        table,
                    )@.rx.contains_key(other)
                    &&& final(table)@.rx[other] == old(table)@.rx[other]
                },
            forall|other: Sid|
                other != sid ==> {
                    &&& #[trigger] final(table)@.close.contains_key(other) == old(
                        table,
                    )@.close.contains_key(other)
                    &&& final(table)@.close[other] == old(table)@.close[other]
                },
    {
        let new_channel = table.register(sid, self.config.stream_reading_frame_channel_capacity);
        let frame_channel = table.new_stream(sid, close_tx);
        if frame_channel.is_err() {
            table.unregister(sid);
        }
        OpenedStream { new_channel, frame_channel }
    }

    /// Accepts the stream that the remote opens with `frame`: its id, and the channel that it
    /// reads from. `frame` is `None` where the session is closed. Before `frame` is waited for,
    /// [`Session::inner_ok`] tells whether there is any point in waiting.
    pub fn accept_stream(
        &self,
        table: &mut StreamTable,
        frame: Option<Frame>,
        close_tx: oneshot::Sender<()>,
    ) -> (res: Result<(Sid, u64), TokioSmuxError>)
        ensures
            old(table)@.is_coherent() ==> final(table)@.is_coherent(),
            res is Ok <==> (frame matches Some(frame) && old(table)@.rx.contains_key(frame.sid)),
            res matches Ok((sid, channel)) ==> {
                &&& frame matches Some(frame)
                &&& sid == frame.sid
                &&& channel == old(table)@.rx[sid]
                &&& final(table)@.close.contains_key(sid)
                &&& final(table)@.close[sid] == close_tx
                &&& !final(table)@.rx.contains_key(sid)
                &&& final(table)@.tx == old(table)@.tx
            },
            res matches Err(err) ==> (err is SessionClosed <==> frame is None),
            match frame {
                None => final(table)@ == old(table)@ && res matches Err(
                    TokioSmuxError::SessionClosed,
                ),
                Some(frame) => {
                    &&& final(table)@ == old(table)@.opened(frame.sid, close_tx)
                    &&& res matches Ok((sid, _)) ==> sid == frame.sid
                    &&& crate::stream_table::yields_channel(
                        match res {
                            Ok((_, channel)) => Ok(channel),
                            Err(err) => Err(err),
                        },
                        old(table)@,
                        frame.sid,
                    )
                },
            },
    {
        let sid = match frame {
            None => return Err(TokioSmuxError::SessionClosed),
            Some(frame) => frame.sid,
        };
        match table.new_stream(sid, close_tx) {
            Ok(channel) => Ok((sid, channel)),
            Err(err) => Err(err),
        }
    }
}

/// The state after opening streams `n` times.
pub open spec fn after_openings(session: SessionView, n: nat) -> SessionView
    decreases n,
{
    if n == 0 {
        session
    } else {
        after_openings(session, (n - 1) as nat).after_opening()
    }
}

/// A new session has what its configuration asks for, on either side. It is there just where the
/// configuration is acceptable.
pub proof fn new_session_follows_its_configuration(
    res: Result<(Session, SessionParts), TokioSmuxError>,
    config: SmuxConfig,
    is_client: bool,
)
    requires
        Session::is_new(res, config, is_client),
    ensures
        res is Ok <==> config.version == 1 && (config.keep_alive_disable || (
        config.keep_alive_interval@ > 0 && config.keep_alive_timeout@
            >= config.keep_alive_interval@)),
        res matches Err(err) ==> (err matches TokioSmuxError::InvalidConfig { msg }
            && config.defect() == Some(msg@)),
        res matches Ok((session, parts)) ==> {
            &&& session@.config == config
            &&& session@.inner_err is None
            &&& parts.grouper.sid_frame_buffer_size == config.stream_reading_frame_channel_capacity
            &&& parts.write_capacity == config.writing_frame_channel_capacity
            &&& parts.read_capacity == 4096
            &&& parts.sync_capacity == 4096
            &&& parts.drop_capacity == 1024
            &&& parts.table@.tx.dom() =~= Set::<Sid>::empty()
            &&& parts.table@.rx.dom() =~= Set::<Sid>::empty()
            &&& parts.table@.close.dom() =~= Set::<Sid>::empty()
        },
{
    crate::config::acceptable_configurations(config);
}

/// A new session makes keep-alive frames due just where its configuration does not disable them, as
/// often as the configuration says, and on either side alike. Nothing was read before, and the
/// connection is to be read.
pub proof fn both_sides_keep_alive(
    res: Result<(Session, SessionParts), TokioSmuxError>,
    config: SmuxConfig,
    is_client: bool,
)
    requires
        Session::is_new(res, config, is_client),
        res is Ok,
    ensures
        config.keep_alive_disable ==> res->Ok_0.1.inner@.keep_alive_interval is None,
        !config.keep_alive_disable ==> res->Ok_0.1.inner@.keep_alive_interval == Some(
            config.keep_alive_interval,
        ),
        res->Ok_0.1.inner@.read_buf.len() == 0,
        !res->Ok_0.1.inner@.read_finished,
{
}

/// The two sides of a connection differ in the ids that they give, and in nothing else.
pub proof fn sides_differ_in_ids_alone(
    client: Result<(Session, SessionParts), TokioSmuxError>,
    server: Result<(Session, SessionParts), TokioSmuxError>,
    config: SmuxConfig,
)
    requires
        Session::is_new(client, config, true),
        Session::is_new(server, config, false),
    ensures
        client is Ok <==> server is Ok,
        client matches Ok((a, a_parts)) ==> server matches Ok((b, b_parts)) ==> {
            &&& a@.sid % 2 == 1
            &&& b@.sid % 2 == 0
            &&& a@ == (SessionView { sid: a@.sid, ..b@ })
            &&& a_parts.inner@ == b_parts.inner@
            &&& a_parts.grouper == b_parts.grouper
            &&& a_parts.table@ == b_parts.table@
            &&& a_parts.write_capacity == b_parts.write_capacity
            &&& a_parts.read_capacity == b_parts.read_capacity
            &&& a_parts.sync_capacity == b_parts.sync_capacity
            &&& a_parts.drop_capacity == b_parts.drop_capacity
        },
{
}

/// Opening a stream succeeds just where an id is left and the connection has not failed, and takes
/// the id that follows; where no id is left the session goes away; and where the connection has
/// failed it says so and changes nothing.
pub proof fn opening_takes_the_next_id(session: SessionView)
    ensures
        session.opening() is Sync <==> !session.go_away && session.inner_err is None && session.sid
            + 2 <= u32::MAX,
        session.opening() matches Opening::Sync(frame) ==> {
            &&& frame.ver == session.config.version
            &&& frame.cmd == Cmd::Sync
            &&& frame.sid == session.sid + 2
            &&& frame.length == 0
            &&& frame.data is None
            &&& session.after_opening().sid == frame.sid
            &&& !session.after_opening().go_away
        },
        session.opening() is GoAway <==> session.go_away || (session.inner_err is None
            && session.sid + 2 > u32::MAX),
        session.opening() is GoAway ==> session.after_opening().go_away,
        session.opening() matches Opening::Broken(err) ==> {
            &&& session.inner_err == Some(err)
            &&& session.after_opening() == session
        },
        session.after_opening().config == session.config,
        session.after_opening().inner_err == session.inner_err,
{
}

/// Opening a stream touches that stream alone: every other stream can be reached, waits for its
/// reader and is kept open as before. The stream that is opened takes its channel, and is open, with
/// what closes it; where its channel was taken already, nothing of it can be reached any more.
pub proof fn opening_leaves_other_streams_alone(
    table: TableView,
    sid: Sid,
    close_tx: oneshot::Sender<()>,
    other: Sid,
)
    requires
        sid != other,
    ensures
        table_after_opening(table, sid, close_tx).tx.contains_key(other) == table.tx.contains_key(
            other,
        ),
        table_after_opening(table, sid, close_tx).rx.contains_key(other) == table.rx.contains_key(
            other,
        ),
        table_after_opening(table, sid, close_tx).close.contains_key(other)
            == table.close.contains_key(other),
        table_after_opening(table, sid, close_tx).tx[other] == table.tx[other],
        table_after_opening(table, sid, close_tx).rx[other] == table.rx[other],
        table_after_opening(table, sid, close_tx).close[other] == table.close[other],
        table.rx.contains_key(sid) || !table.tx.contains_key(sid) ==> {
            &&& table_after_opening(table, sid, close_tx).tx.contains_key(sid)
            &&& !table_after_opening(table, sid, close_tx).rx.contains_key(sid)
            &&& table_after_opening(table, sid, close_tx).close.contains_key(sid)
            &&& table_after_opening(table, sid, close_tx).close[sid] == close_tx
        },
        table.tx.contains_key(sid) && !table.rx.contains_key(sid) ==> {
            &&& !table_after_opening(table, sid, close_tx).tx.contains_key(sid)
            &&& table_after_opening(table, sid, close_tx).close == table.close
        },
{
}

/// The first stream that a client opens has the id 3; that of a server has the id 2.
pub proof fn first_ids(config: SmuxConfig, is_client: bool)
    ensures
        SessionView::new(config, is_client).opening() == Opening::Sync(
            FrameView::bare(
                config.version,
                Cmd::Sync,
                if is_client {
                    3
                } else {
                    2
                },
            ),
        ),
{
}

/// As long as streams can be opened, each gets the id that is two above that of the one before.
pub proof fn ids_go_up_by_two(session: SessionView, n: nat)
    requires
        after_openings(session, n).opening() is Sync,
    ensures
        after_openings(session, n).sid == session.sid + 2 * n,
        after_openings(session, n).opening()->Sync_0.sid == session.sid + 2 * n + 2,
    decreases n,
{
    if n > 0 {
        ids_go_up_by_two(session, (n - 1) as nat);
    }
}

/// A session gives no id twice.
pub proof fn ids_are_not_reused(session: SessionView, m: nat, n: nat)
    requires
        m < n,
        after_openings(session, m).opening() is Sync,
        after_openings(session, n).opening() is Sync,
    ensures
        after_openings(session, m).opening()->Sync_0.sid < after_openings(
            session,
            n,
        ).opening()->Sync_0.sid,
{
    ids_go_up_by_two(session, m);
    ids_go_up_by_two(session, n);
}

/// A client and a server never give the same id, so both sides can open streams at will.
pub proof fn sides_share_no_id(client: SmuxConfig, server: SmuxConfig, m: nat, n: nat)
    requires
        after_openings(SessionView::new(client, true), m).opening() is Sync,
        after_openings(SessionView::new(server, false), n).opening() is Sync,
    ensures
        after_openings(SessionView::new(client, true), m).opening()->Sync_0.sid != after_openings(
            SessionView::new(server, false),
            n,
        ).opening()->Sync_0.sid,
{
    ids_go_up_by_two(SessionView::new(client, true), m);
    ids_go_up_by_two(SessionView::new(server, false), n);
}

/// Once no id is left, a session opens no stream any more.
pub proof fn going_away_is_final(session: SessionView, n: nat)
    requires
        session.inner_err is None || session.go_away,
        session.ids_are_used_up(),
    ensures
        after_openings(session, n).opening() is GoAway,
        n > 0 ==> after_openings(session, n).go_away,
    decreases n,
{
    if n > 0 {
        going_away_is_final(session, (n - 1) as nat);
        kept_by_opening(session, (n - 1) as nat);
    }
}

/// Opening streams changes neither the configuration nor what the connection failed of.
pub proof fn kept_by_opening(session: SessionView, n: nat)
    ensures
        after_openings(session, n).config == session.config,
        after_openings(session, n).inner_err == session.inner_err,
    decreases n,
{
    if n > 0 {
        kept_by_opening(session, (n - 1) as nat);
    }
}

/// Once the connection has failed, opening a stream fails with the same error every time, and
/// takes no id; unless the ids are used up.
pub proof fn failure_of_connection_is_final(session: SessionView, n: nat)
    requires
        session.inner_err is Some,
        !session.go_away,
    ensures
        after_openings(session, n) == session,
        after_openings(session, n).opening() == Opening::Broken(session.inner_err->0),
    decreases n,
{
    if n > 0 {
        failure_of_connection_is_final(session, (n - 1) as nat);
    }
}

/// A stream that the session opens reads from the channel that the frames for it go into.
pub proof fn opened_stream_gets_its_frames(
    table: TableView,
    sid: Sid,
    close_tx: oneshot::Sender<()>,
)
    requires
        table.is_coherent(),
        table.registered(sid).rx.contains_key(sid),
    ensures
        table_after_opening(table, sid, close_tx).tx.contains_key(sid),
        table_after_opening(table, sid, close_tx).tx[sid] == table.registered(sid).rx[sid],
        table_after_opening(table, sid, close_tx).close.contains_key(sid),
{
}

/// Opening a stream finds a channel, unless the remote has opened a stream of the same id and its
/// channel is taken already.
pub proof fn opening_finds_a_channel(table: TableView, sid: Sid)
    ensures
        table.registered(sid).rx.contains_key(sid) <==> (table.rx.contains_key(sid)
            || !table.tx.contains_key(sid)),
{
}

/// A table stays coherent when the session opens a stream.
pub proof fn opening_keeps_coherence(
    table: TableView,
    sid: Sid,
    close_tx: oneshot::Sender<()>,
)
    requires
        table.is_coherent(),
    ensures
        table_after_opening(table, sid, close_tx).is_coherent(),
{
    crate::stream_table::registering_keeps_coherence(table, sid);
    crate::stream_table::opening_keeps_coherence(table.registered(sid), sid, close_tx);
    crate::stream_table::forgetting_keeps_coherence(table.registered(sid), sid);
}

/// A stream that is opened on one side can be accepted on the other, under the same id: the frame
/// that opens it arrives whatever follows it, makes the stream known to a session that does not
/// know it, and the channel that it gets waits for whoever accepts it.
pub proof fn opened_stream_can_be_accepted(
    session: SessionView,
    rest: Seq<u8>,
    table: TableView,
)
    requires
        session.opening() is Sync,
        !table.tx.contains_key(session.next_sid()),
    ensures
        session.opening()->Sync_0.length_matches(),
        crate::frame::parsed_frame(session.opening()->Sync_0.encoding() + rest) == Ok::<_, u8>(
            Some(session.opening()->Sync_0.received()),
        ),
        ({
            let frame = session.opening()->Sync_0.received();
            let after = crate::read_frame_grouper::table_after(table, frame);
            &&& frame.cmd == Cmd::Sync
            &&& frame.sid == session.next_sid()
            &&& after.rx.contains_key(frame.sid)
            &&& after.rx[frame.sid] == after.tx[frame.sid]
        }),
{
    crate::frame::frame_is_read_back(session.opening()->Sync_0, rest);
}

} // verus!
