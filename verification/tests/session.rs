use tokio::sync::{mpsc, oneshot};
use tokio_smux::channel::{ReadRequest, WriteRequest};
use tokio_smux::frame::{Frame, Sid, HEADER_SIZE};
use tokio_smux::read_frame_grouper::GroupAction;
use tokio_smux::session::SessionParts;
use tokio_smux::session_inner::{InnerAction, InnerEvent};
use tokio_smux::stream_table::NewChannel;
use tokio_smux::{Cmd, Session, SmuxConfig, Stream, TokioSmuxError};

// disable the ping
fn test_smux_config() -> SmuxConfig {
    let mut config = SmuxConfig::default();
    config.keep_alive_disable = true;
    config
}

fn write(parts: &mut SessionParts, frame: Frame) -> Vec<u8> {
    let request = WriteRequest {
        frame,
        finish_tx: None,
    };
    match parts.inner.on_event(InnerEvent::Write(Some(request))) {
        InnerAction::Send(bytes, _) => bytes,
        _ => panic!("bytes to write were expected"),
    }
}

fn read_one(parts: &mut SessionParts, bytes: &[u8]) -> ReadRequest {
    match parts.inner.on_event(InnerEvent::Read(Ok(bytes))) {
        InnerAction::Deliver(mut requests) => {
            assert_eq!(requests.len(), 1);
            requests.pop().unwrap()
        }
        _ => panic!("a frame was expected"),
    }
}

fn open(parts: &mut SessionParts, session: &Session, sid: Sid) -> Stream {
    let (close_tx, close_rx) = oneshot::channel();
    let opened = session.open_stream_registered(&mut parts.table, sid, close_tx);
    let channel = (sid as u64) << 32;
    assert_eq!(
        opened.new_channel,
        Some(NewChannel {
            channel,
            capacity: 1024
        })
    );
    assert_eq!(opened.frame_channel.unwrap(), channel);
    let (_frame_tx, frame_rx) = mpsc::channel(1024);
    let (write_tx, _write_rx) = mpsc::channel(1024);
    Stream::new(sid, frame_rx, write_tx, close_rx)
}

#[test]
fn test_session_client() {
    let sid: Sid = 3;
    let (mut client, mut parts) = Session::client(test_smux_config()).unwrap();
    assert!(parts.inner.keep_alive_interval().is_none());

    // opening stream writes some data to the remote
    let frame = client.open_stream().unwrap();
    assert_eq!(sid, frame.sid);
    let data = write(&mut parts, frame);
    let frame = Frame::from_buf(&data).unwrap().unwrap();
    assert!(matches!(frame.cmd, Cmd::Sync));
    assert!(client.open_stream_written(Ok(())).is_ok());
    let mut stream = open(&mut parts, &client, sid);
    assert_eq!(sid, stream.sid());

    // mock remote sending data to the stream
    let mut frame = Frame::new_v1(Cmd::Psh, sid);
    frame.with_data("hello!".as_bytes().to_vec());
    let request = read_one(&mut parts, &frame.get_buf().unwrap());
    let msg = match parts.grouper.on_frame(&mut parts.table, Some(request)) {
        GroupAction::Deliver { channel, frame } => {
            assert_eq!(channel, 0x3_0000_0000);
            stream.recv_message(Some(frame)).unwrap().unwrap()
        }
        _ => panic!("a delivery was expected"),
    };
    assert_eq!(String::from_utf8_lossy(&msg).as_ref(), "hello!");

    // write some data, and write again
    for text in ["world!", "world!!"] {
        let frame = stream.send_message(text.as_bytes().to_vec()).unwrap();
        let data = write(&mut parts, frame);
        let frame = Frame::from_buf(&data).unwrap().unwrap();
        assert!(matches!(frame.cmd, Cmd::Psh));
        let frame_data = &data[HEADER_SIZE..HEADER_SIZE + (frame.length as usize)];
        assert_eq!(String::from_utf8_lossy(frame_data).as_ref(), text);
    }

    // close the stream should also cleanup its frame data
    let farewell = stream.farewell();
    assert_eq!(parts.table.clean(sid), Some(0x3_0000_0000));
    assert!(parts.table.frame_channel(sid).is_none());
    assert!(!parts.table.awaits_stream(sid));
    assert!(!parts.table.is_open(sid));

    // the remote should also receive the fin
    let (_, request) = farewell.fin.unwrap();
    let data = write(&mut parts, request.frame);
    let frame = Frame::from_buf(&data).unwrap().unwrap();
    assert!(matches!(frame.cmd, Cmd::Fin));
}

#[test]
fn test_session_server() {
    let (server, mut parts) = Session::server(test_smux_config()).unwrap();

    let sid = 3;
    // send nop frame
    let frame = Frame::new_v1(Cmd::Nop, 0);
    let request = read_one(&mut parts, &frame.get_buf().unwrap());
    assert!(matches!(
        parts.grouper.on_frame(&mut parts.table, Some(request)),
        GroupAction::Discard
    ));
    // mock sync frame
    let frame = Frame::new_v1(Cmd::Sync, sid);
    let request = read_one(&mut parts, &frame.get_buf().unwrap());
    let frame = match parts.grouper.on_frame(&mut parts.table, Some(request)) {
        GroupAction::Announce { frame, .. } => frame,
        _ => panic!("an announcement was expected"),
    };

    assert!(server.inner_ok().is_ok());
    let (close_tx, close_rx) = oneshot::channel();
    let (got, channel) = server
        .accept_stream(&mut parts.table, Some(frame), close_tx)
        .unwrap();
    assert_eq!(got, sid);
    assert_eq!(channel, 0x3_0000_0000);
    let (_frame_tx, frame_rx) = mpsc::channel(1024);
    let (write_tx, _write_rx) = mpsc::channel(1024);
    let mut stream = Stream::new(sid, frame_rx, write_tx, close_rx);

    // ok to write some data
    let frame = stream
        .send_message("Hello from server".as_bytes().to_vec())
        .unwrap();
    let data = write(&mut parts, frame);
    let frame = Frame::from_buf_with_data(&data).unwrap().unwrap();
    assert_eq!(
        String::from_utf8_lossy(&frame.data.unwrap()),
        "Hello from server"
    );

    // close all streams to make stream stop
    for close_tx in parts.table.close_all() {
        close_tx.send(()).unwrap();
    }
    let res = stream.send_message(vec![0; 10]);
    assert!(res.is_err());
    assert!(matches!(res.err().unwrap(), TokioSmuxError::StreamClosed));
}

#[test]
fn test_session_error() {
    let (mut client, _parts) = Session::client(test_smux_config()).unwrap();
    assert!(client.get_inner_err().is_none());

    // the write fails, and with it the connection
    let frame = client.open_stream().unwrap();
    assert_eq!(frame.sid, 3);
    client.set_inner_err(TokioSmuxError::from(std::io::Error::new(
        std::io::ErrorKind::AddrInUse,
        "mock error",
    )));
    let (tx, rx) = oneshot::channel::<()>();
    drop(tx);
    let written = rx.blocking_recv().map_err(TokioSmuxError::from);
    let stream = client.open_stream_written(written);
    assert!(stream.is_err());
    assert_eq!(stream.err().unwrap().to_text(), "mock error");

    // expect inner error
    let stream = client.open_stream();
    assert!(stream.is_err());
    assert_eq!(stream.err().unwrap().to_text(), "mock error");
    // still get same error
    let stream = client.open_stream();
    assert!(stream.is_err());
    assert_eq!(stream.err().unwrap().to_text(), "mock error");

    assert!(client.get_inner_err().is_some());
    assert_eq!(client.inner_ok().unwrap_err().to_text(), "mock error");
}

#[test]
fn failed_write_is_reported_while_the_connection_is_fine() {
    let (client, _parts) = Session::client(test_smux_config()).unwrap();
    assert!(matches!(
        client.open_stream_written(Err(TokioSmuxError::StreamClosed)),
        Err(TokioSmuxError::StreamClosed)
    ));
}

#[test]
fn ids_of_client_and_server() {
    let (mut client, _parts) = Session::client(test_smux_config()).unwrap();
    let (mut server, _parts) = Session::server(test_smux_config()).unwrap();
    for i in 0..100u32 {
        let frame = client.open_stream().unwrap();
        assert_eq!(frame.sid, 3 + 2 * i);
        assert_eq!(frame.ver, 1);
        assert!(frame.data.is_none());
        assert_eq!(server.open_stream().unwrap().sid, 2 + 2 * i);
    }
}

#[test]
fn closed_session_accepts_nothing() {
    let (server, mut parts) = Session::server(test_smux_config()).unwrap();
    let (close_tx, _close_rx) = oneshot::channel();
    assert!(matches!(
        server.accept_stream(&mut parts.table, None, close_tx),
        Err(TokioSmuxError::SessionClosed)
    ));
    let (close_tx, _close_rx) = oneshot::channel();
    match server.accept_stream(
        &mut parts.table,
        Some(Frame::new_v1(Cmd::Sync, 4)),
        close_tx,
    ) {
        Err(TokioSmuxError::Default { msg }) => {
            assert_eq!(msg, "unexpected empty sid in sid_rx_map")
        }
        _ => panic!("an error was expected"),
    }
    assert!(!parts.table.is_open(4));
}

#[test]
fn opening_a_stream_that_is_taken_fails() {
    let (client, mut parts) = Session::client(test_smux_config()).unwrap();
    parts.table.register(3, 1024);
    let (close_tx, _close_rx) = oneshot::channel();
    parts.table.new_stream(3, close_tx).unwrap();

    let (close_tx, _close_rx) = oneshot::channel();
    let opened = client.open_stream_registered(&mut parts.table, 3, close_tx);
    assert!(opened.new_channel.is_none());
    assert!(opened.frame_channel.is_err());
    assert_eq!(parts.table.frame_channel(3), None);
}

#[test]
fn parts_of_a_session() {
    let (_client, parts) = Session::client(SmuxConfig::default()).unwrap();
    assert_eq!(parts.inner.keep_alive_interval().unwrap().as_secs(), 10);
    assert_eq!(parts.grouper.sid_frame_buffer_size, 1024);
    assert_eq!(parts.write_capacity, 4096);
    assert_eq!(parts.read_capacity, 4096);
    assert_eq!(parts.sync_capacity, 4096);
    assert_eq!(parts.drop_capacity, 1024);

    let mut config = SmuxConfig::default();
    config.version = 2;
    match Session::server(config) {
        Err(err) => assert_eq!(
            err.to_text(),
            "receive invalid config: unsupported protocol version"
        ),
        Ok(_) => panic!("an error was expected"),
    }
}

#[test]
fn stream_is_opened_while_others_come_and_go() {
    let (mut client, mut ours) = Session::client(test_smux_config()).unwrap();
    let (server, mut theirs) = Session::server(test_smux_config()).unwrap();

    // the first stream is opened, accepted and forgotten while the second one is in use
    let mut bytes: Vec<u8> = vec![];
    let first = client.open_stream().unwrap();
    assert_eq!(first.sid, 3);
    bytes.append(&mut write(&mut ours, first));
    let second = client.open_stream().unwrap();
    assert_eq!(second.sid, 5);
    bytes.append(&mut write(&mut ours, second));
    let mut stream = open(&mut ours, &client, 5);
    for text in ["one", "", "three"] {
        let frame = stream.send_message(text.as_bytes().to_vec()).unwrap();
        bytes.append(&mut write(&mut ours, frame));
        let mut other = Frame::new_v1(Cmd::Psh, 3);
        other.with_data(vec![9]);
        bytes.append(&mut write(&mut ours, other));
    }

    let mut received: Vec<Vec<u8>> = vec![];
    let mut accepted: Vec<(Sid, u64)> = vec![];
    let (_frame_tx, frame_rx) = mpsc::channel(1024);
    let (write_tx, _write_rx) = mpsc::channel(1024);
    let (_close_tx, close_rx) = oneshot::channel();
    let mut receiver = Stream::new(5, frame_rx, write_tx, close_rx);
    for chunk in bytes.chunks(11) {
        let requests = match theirs.inner.on_event(InnerEvent::Read(Ok(chunk))) {
            InnerAction::Deliver(requests) => requests,
            _ => panic!("frames were expected"),
        };
        for request in requests {
            match theirs.grouper.on_frame(&mut theirs.table, Some(request)) {
                GroupAction::Announce { frame, .. } => {
                    let (close_tx, _close_rx) = oneshot::channel();
                    accepted.push(
                        server
                            .accept_stream(&mut theirs.table, Some(frame), close_tx)
                            .unwrap(),
                    );
                }
                GroupAction::Deliver { channel, frame } if channel == 0x5_0000_0001 => {
                    received.push(receiver.recv_message(Some(frame)).unwrap().unwrap());
                    theirs.table.clean(3);
                }
                GroupAction::Deliver { .. } => panic!("the first stream is gone"),
                GroupAction::Unexpected { sid } => assert_eq!(sid, 3),
                _ => panic!("nothing else was sent"),
            }
        }
    }
    assert_eq!(accepted, vec![(3, 0x3_0000_0000), (5, 0x5_0000_0001)]);
    assert_eq!(
        received,
        vec![b"one".to_vec(), b"".to_vec(), b"three".to_vec()]
    );
}
