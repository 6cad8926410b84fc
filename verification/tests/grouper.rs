use tokio::sync::oneshot;
use tokio_smux::channel::ReadRequest;
use tokio_smux::frame::Frame;
use tokio_smux::read_frame_grouper::{GroupAction, ReadFrameGrouper};
use tokio_smux::session_inner::SessionInner;
use tokio_smux::sid_map::SidMap;
use tokio_smux::stream_table::{NewChannel, StreamTable};
use tokio_smux::{Cmd, TokioSmuxError};

// the channel of the stream that becomes known after `turn` others
fn channel_of(sid: u32, turn: u64) -> u64 {
    ((sid as u64) << 32) + turn
}

#[test]
fn test_grouper() {
    let grouper = ReadFrameGrouper {
        sid_frame_buffer_size: 1024,
    };
    let mut table = StreamTable::new();

    // Should make the stream known when receiving sync frames.
    let sid = 1;
    let sync = Some(ReadRequest {
        frame: Frame::new_v1(Cmd::Sync, sid),
    });
    match grouper.on_frame(&mut table, sync) {
        GroupAction::Announce { new_channel, frame } => {
            assert!(matches!(frame.cmd, Cmd::Sync));
            assert_eq!(frame.sid, sid);
            assert_eq!(
                new_channel,
                Some(NewChannel {
                    channel: channel_of(1, 0),
                    capacity: 1024
                })
            );
        }
        _ => panic!("an announcement was expected"),
    }
    let (close_tx, _close_rx) = oneshot::channel();
    assert_eq!(table.new_stream(sid, close_tx).unwrap(), channel_of(1, 0));

    let mut frame = Frame::new_v1(Cmd::Psh, sid);
    frame.with_data(vec![0; 10]);
    match grouper.on_frame(&mut table, Some(ReadRequest { frame })) {
        GroupAction::Deliver { channel, frame } => {
            assert_eq!(channel, channel_of(1, 0));
            assert_eq!(frame.sid, sid);
            assert_eq!(frame.data, Some(vec![0; 10]));
        }
        _ => panic!("a delivery was expected"),
    }

    // It's okay to push some nop frames.
    let nop = Some(ReadRequest {
        frame: Frame::new_v1(Cmd::Nop, sid),
    });
    assert!(matches!(
        grouper.on_frame(&mut table, nop),
        GroupAction::Discard
    ));

    // A new push frame makes no other channel wait for the stream.
    let mut frame = Frame::new_v1(Cmd::Psh, sid);
    frame.with_data(vec![0; 10]);
    assert!(matches!(
        grouper.on_frame(&mut table, Some(ReadRequest { frame })),
        GroupAction::Deliver { channel, .. } if channel == channel_of(1, 0)
    ));
    assert!(!table.awaits_stream(sid));

    // Without more frames the sorting ends.
    assert!(matches!(
        grouper.on_frame(&mut table, None),
        GroupAction::Stop
    ));
}

#[test]
fn frames_for_unknown_streams_are_dropped() {
    let grouper = ReadFrameGrouper {
        sid_frame_buffer_size: 4,
    };
    let mut table = StreamTable::new();
    for cmd in [Cmd::Psh, Cmd::Fin] {
        let req = ReadRequest {
            frame: Frame::new_v1(cmd, 8),
        };
        assert!(matches!(
            grouper.on_frame(&mut table, Some(req)),
            GroupAction::Unexpected { sid: 8 }
        ));
        assert_eq!(table.frame_channel(8), None);
    }
    let req = ReadRequest {
        frame: Frame::new_v1(Cmd::Udp, 8),
    };
    assert!(matches!(
        grouper.on_frame(&mut table, Some(req)),
        GroupAction::Discard
    ));
}

#[test]
fn streams_do_not_mix() {
    let grouper = ReadFrameGrouper {
        sid_frame_buffer_size: 4,
    };
    let mut table = StreamTable::new();
    for sid in [2, 4] {
        let req = ReadRequest {
            frame: Frame::new_v1(Cmd::Sync, sid),
        };
        grouper.on_frame(&mut table, Some(req));
    }
    for (sid, expected) in [(4, channel_of(4, 1)), (2, channel_of(2, 0))] {
        let req = ReadRequest {
            frame: Frame::new_v1(Cmd::Fin, sid),
        };
        match grouper.on_frame(&mut table, Some(req)) {
            GroupAction::Deliver { channel, frame } => {
                assert_eq!(channel, expected);
                assert_eq!(frame.sid, sid);
            }
            _ => panic!("a delivery was expected"),
        }
    }

    // a second opening of a known stream is announced, and changes nothing
    let req = ReadRequest {
        frame: Frame::new_v1(Cmd::Sync, 2),
    };
    assert!(matches!(
        grouper.on_frame(&mut table, Some(req)),
        GroupAction::Announce {
            new_channel: None,
            ..
        }
    ));
    assert_eq!(table.frame_channel(2), Some(channel_of(2, 0)));
}

#[test]
fn mixed_streams_get_their_own_frames() {
    // two streams write by turns, and the bytes arrive in odd pieces
    let mut bytes: Vec<u8> = vec![];
    for sid in [3, 5] {
        bytes.append(&mut Frame::new_v1(Cmd::Sync, sid).get_buf().unwrap());
    }
    for i in 0..4u8 {
        for sid in [3u32, 5] {
            let mut frame = Frame::new_v1(Cmd::Psh, sid);
            frame.with_data(vec![i, sid as u8]);
            bytes.append(&mut frame.get_buf().unwrap());
        }
        bytes.append(&mut Frame::new_v1(Cmd::Nop, 0).get_buf().unwrap());
    }
    bytes.append(&mut Frame::new_v1(Cmd::Fin, 3).get_buf().unwrap());

    let mut inner = SessionInner::new();
    let grouper = ReadFrameGrouper {
        sid_frame_buffer_size: 4,
    };
    let mut table = StreamTable::new();
    let mut got: Vec<(u64, Cmd, Option<Vec<u8>>)> = vec![];
    for chunk in bytes.chunks(7) {
        let (requests, res) = inner.handle_read_data(chunk);
        assert!(res.is_ok());
        for request in requests {
            if let GroupAction::Deliver { channel, frame } =
                grouper.on_frame(&mut table, Some(request))
            {
                got.push((channel, frame.cmd, frame.data));
            }
        }
    }

    for (sid, end) in [(3u8, true), (5, false)] {
        let channel = table.frame_channel(sid as u32).unwrap();
        let ours: Vec<_> = got.iter().filter(|item| item.0 == channel).collect();
        assert_eq!(ours.len(), if end { 5 } else { 4 });
        for i in 0..4u8 {
            assert_eq!(ours[i as usize].1, Cmd::Psh);
            assert_eq!(ours[i as usize].2, Some(vec![i, sid]));
        }
        if end {
            assert_eq!(ours[4].1, Cmd::Fin);
        }
    }
    assert_eq!(table.frame_channel(3), Some(channel_of(3, 0)));
    assert_eq!(table.frame_channel(5), Some(channel_of(5, 1)));
}

#[test]
fn sid_maps() {
    let mut map = SidMap::new();
    assert!(!map.contains_key(5));
    assert_eq!(map.get(5), None);
    assert_eq!(map.insert(5, 50), None);
    assert_eq!(map.insert(6, 60), None);
    assert_eq!(map.insert(5, 51), Some(50));
    assert!(map.contains_key(5));
    assert_eq!(map.get(5), Some(51));
    assert_eq!(map.remove(5), Some(51));
    assert_eq!(map.remove(5), None);
    assert_eq!(map.get(5), None);
    assert_eq!(map.get(6), Some(60));
}

#[test]
fn channel_of_a_stream_is_taken_once() {
    let mut table = StreamTable::new();
    assert_eq!(
        table.register(3, 16),
        Some(NewChannel {
            channel: 0x3_0000_0000,
            capacity: 16
        })
    );
    assert_eq!(table.register(3, 16), None);
    assert!(table.awaits_stream(3));
    assert!(!table.is_open(3));

    let (close_tx, _close_rx) = oneshot::channel();
    assert_eq!(table.new_stream(3, close_tx).unwrap(), 0x3_0000_0000);
    assert!(!table.awaits_stream(3));
    assert!(table.is_open(3));
    assert_eq!(table.frame_channel(3), Some(0x3_0000_0000));

    let (close_tx, _close_rx) = oneshot::channel();
    match table.new_stream(3, close_tx) {
        Err(TokioSmuxError::Default { msg }) => {
            assert_eq!(msg, "unexpected empty sid in sid_rx_map")
        }
        _ => panic!("an error was expected"),
    }
}

#[test]
fn forgotten_stream_leaves_no_trace() {
    let mut table = StreamTable::new();
    for sid in [3, 5] {
        table.register(sid, 16);
        let (close_tx, _close_rx) = oneshot::channel();
        table.new_stream(sid, close_tx).unwrap();
    }
    assert_eq!(table.clean(3), Some(channel_of(3, 0)));
    assert_eq!(table.clean(3), None);
    assert_eq!(table.frame_channel(3), None);
    assert!(!table.awaits_stream(3));
    assert!(!table.is_open(3));
    assert_eq!(table.frame_channel(5), Some(channel_of(5, 1)));
    assert!(table.is_open(5));

    table.register(7, 16);
    table.unregister(7);
    assert_eq!(table.frame_channel(7), None);
    assert!(!table.awaits_stream(7));

    // a stream that becomes known again gets another channel
    table.register(3, 16);
    assert_eq!(table.frame_channel(3), Some(channel_of(3, 3)));
}

#[test]
fn all_open_streams_are_closed() {
    let mut table = StreamTable::new();
    let mut close_rxs = vec![];
    for sid in 0..10 {
        table.register(sid, 16);
        let (close_tx, close_rx) = oneshot::channel();
        table.new_stream(sid, close_tx).unwrap();
        close_rxs.push(close_rx);
    }
    let close_txs = table.close_all();
    assert_eq!(close_txs.len(), 10);
    for close_tx in close_txs {
        close_tx.send(()).unwrap();
    }
    for mut close_rx in close_rxs {
        assert!(close_rx.try_recv().is_ok());
    }
    assert!(!table.is_open(4));
    assert_eq!(table.frame_channel(4), Some(channel_of(4, 4)));
    assert!(table.close_all().is_empty());
}
