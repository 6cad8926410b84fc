use tokio::sync::{mpsc, oneshot};
use tokio_smux::channel::WriteRequest;
use tokio_smux::frame::Frame;
use tokio_smux::stream::CloseSignal;
use tokio_smux::{Cmd, Stream, TokioSmuxError};

struct Ends {
    frame_tx: mpsc::Sender<Frame>,
    write_rx: mpsc::Receiver<WriteRequest>,
    close_tx: oneshot::Sender<()>,
}

fn new_stream(sid: u32) -> (Stream, Ends) {
    let size = 1024;
    let (frame_tx, frame_rx) = mpsc::channel(size);
    let (write_tx, write_rx) = mpsc::channel(size);
    let (close_tx, close_rx) = oneshot::channel();
    (
        Stream::new(sid, frame_rx, write_tx, close_rx),
        Ends {
            frame_tx,
            write_rx,
            close_tx,
        },
    )
}

#[test]
fn test_stream() {
    let sid = 1;
    let (mut stream, mut ends) = new_stream(sid);
    assert_eq!(stream.sid(), sid);

    // writing too large data should fail
    assert!(matches!(
        stream.send_message(vec![0; 65536]),
        Err(TokioSmuxError::StreamWriteTooLargeData)
    ));

    // push some frames to read
    let mut push_frame = Frame::new_v1(Cmd::Psh, sid);
    push_frame.with_data(vec![0; 10]);
    ends.frame_tx.blocking_send(push_frame).unwrap();
    let fin_frame = Frame::new_v1(Cmd::Fin, sid);
    ends.frame_tx.blocking_send(fin_frame).unwrap();

    let frame = stream.send_message(vec![0; 10]).unwrap();
    assert_eq!(frame.sid, sid);
    assert!(matches!(frame.cmd, Cmd::Psh));
    assert_eq!(frame.length, 10);

    assert!(stream.awaits_frame());
    let msg = stream.frame_rx.blocking_recv();
    let msg = stream.recv_message(msg).unwrap();
    assert!(msg.is_some());
    assert!(msg.unwrap().len() > 0);

    // test receive fin
    let msg = stream.frame_rx.blocking_recv();
    let msg = stream.recv_message(msg);
    assert!(msg.is_ok());
    assert!(msg.unwrap().is_none());
    // do not write anymore
    let write_res = stream.send_message(vec![0; 10]);
    assert!(write_res.is_err());
    assert!(stream.receive_remote_fin);
    assert!(!stream.awaits_frame());
    assert!(stream.recv_message(None).unwrap().is_none());

    // should not send stream closed msg
    let farewell = stream.farewell();
    assert!(farewell.fin.is_none());
    assert!(farewell.drop_tx.is_none());
    assert!(ends.write_rx.try_recv().is_err());
}

#[test]
fn test_stream_actively_closing() {
    let (mut stream, mut ends) = new_stream(1);
    assert!(!stream.receive_remote_fin);

    let (write_tx, request) = stream.farewell().fin.unwrap();
    assert!(write_tx.try_send(request).is_ok());
    let request = ends.write_rx.try_recv().unwrap();
    assert!(matches!(request.frame.cmd, Cmd::Fin));
    assert_eq!(request.frame.sid, 1);
    assert!(request.finish_tx.is_none());

    // it is sent once
    assert!(stream.farewell().fin.is_none());
}

#[test]
fn test_stream_closed_by_session() {
    let (mut stream, ends) = new_stream(1);
    let Ends {
        frame_tx,
        mut write_rx,
        close_tx,
    } = ends;

    drop(frame_tx);
    close_tx.send(()).unwrap();

    // then, any read, write operations should failed
    let res = stream.send_message(vec![0; 0]);
    assert!(res.is_err());
    assert!(matches!(res.err().unwrap(), TokioSmuxError::StreamClosed));

    let msg = stream.frame_rx.blocking_recv();
    let res = stream.recv_message(msg);
    assert!(res.is_err());
    assert!(matches!(res.err().unwrap(), TokioSmuxError::StreamClosed));

    // the remote should receive fin
    let (write_tx, request) = stream.farewell().fin.unwrap();
    assert!(write_tx.try_send(request).is_ok());
    assert!(matches!(
        write_rx.try_recv().unwrap().frame.cmd,
        Cmd::Fin
    ));
}

#[test]
fn test_stream_drop_tx() {
    let sid = 1;
    let (drop_tx, mut drop_rx) = mpsc::channel(1024);
    let (mut stream, _ends) = new_stream(sid);
    stream.with_drop_tx(Some(drop_tx));

    let farewell = stream.farewell();
    let drop_tx = farewell.drop_tx.unwrap();
    drop_tx.blocking_send(farewell.sid).unwrap();

    let id = drop_rx.blocking_recv().unwrap();
    assert_eq!(id, sid);

    // the session is told once
    assert!(stream.farewell().drop_tx.is_none());
}

#[test]
fn largest_message_is_sent() {
    let (mut stream, _ends) = new_stream(9);
    let frame = stream.send_message(vec![5; 65535]).unwrap();
    assert_eq!(frame.length, 65535);
    let buf = frame.get_buf().unwrap();
    assert_eq!(buf.len(), 65543);
    let back = Frame::from_buf_with_data(&buf).unwrap().unwrap();

    let (mut other, _ends) = new_stream(9);
    assert_eq!(other.recv_message(Some(back)).unwrap(), Some(vec![5; 65535]));
}

#[test]
fn stream_is_over_once_the_session_is_gone() {
    let (mut stream, ends) = new_stream(1);
    assert!(!stream.is_not_writable());
    assert!(!stream.closed);
    drop(ends.close_tx);
    assert!(stream.is_not_writable());
    assert!(stream.closed);
    assert!(stream.is_not_writable());

    // what has arrived can still be read
    let mut frame = Frame::new_v1(Cmd::Psh, 1);
    frame.with_data(vec![1, 2]);
    assert_eq!(stream.recv_message(Some(frame)).unwrap(), Some(vec![1, 2]));
}

#[test]
fn word_of_the_session_is_taken_in() {
    for (signal, over) in [
        (CloseSignal::Received, true),
        (CloseSignal::Closed, true),
        (CloseSignal::Empty, false),
    ] {
        let (mut stream, _ends) = new_stream(1);
        assert_eq!(stream.is_not_writable_upon(signal), over);
        assert_eq!(stream.closed, over);
    }
    let (stream, _ends) = new_stream(1);
    assert!(matches!(
        stream.send_message_upon(vec![1], true),
        Err(TokioSmuxError::StreamClosed)
    ));
    assert!(matches!(
        stream.send_message_upon(vec![1; 65536], true),
        Err(TokioSmuxError::StreamWriteTooLargeData)
    ));
    assert_eq!(
        stream.send_message_upon(vec![1], false).unwrap().data,
        Some(vec![1])
    );
}

#[test]
fn frames_that_no_stream_receives() {
    let (mut stream, _ends) = new_stream(1);
    assert!(matches!(
        stream.recv_message(Some(Frame::new_v1(Cmd::Sync, 1))),
        Err(TokioSmuxError::StreamReceiveUnexpectedCmd { cmd_value: 0 })
    ));
    assert!(matches!(
        stream.recv_message(Some(Frame::new_v1(Cmd::Nop, 1))),
        Err(TokioSmuxError::StreamReceiveUnexpectedCmd { cmd_value: 3 })
    ));
    assert!(matches!(
        stream.recv_message(Some(Frame::new_v1(Cmd::Udp, 1))),
        Err(TokioSmuxError::StreamReceiveUnexpectedCmd { cmd_value: 4 })
    ));
    match stream.recv_message(Some(Frame::new_v1(Cmd::Psh, 1))) {
        Err(TokioSmuxError::Default { msg }) => assert_eq!(msg, "receive unexpected none data"),
        _ => panic!("an error was expected"),
    }
    assert!(!stream.receive_remote_fin);
}
