use tokio::sync::oneshot;
use tokio_smux::channel::{ReadRequest, WriteRequest};
use tokio_smux::config::Duration;
use tokio_smux::frame::{Frame, HEADER_SIZE};
use tokio_smux::session_inner::{AfterWrite, InnerAction, InnerEvent, SessionInner};
use tokio_smux::{Cmd, TokioSmuxError};

fn read(inner: &mut SessionInner, data: &[u8]) -> Vec<ReadRequest> {
    match inner.on_event(InnerEvent::Read(Ok(data))) {
        InnerAction::Deliver(requests) => requests,
        _ => panic!("frames were expected"),
    }
}

fn message(sid: u32, data: Vec<u8>) -> Vec<u8> {
    let mut frame = Frame::new_v1(Cmd::Psh, sid);
    frame.with_data(data);
    frame.get_buf().unwrap()
}

#[test]
fn test_session_inner() {
    let sid = 3;
    let test_data_size = 65535;
    let mut frame = Frame::new_v1(Cmd::Psh, 3);
    frame.with_data(vec![0; test_data_size]);
    let data_to_read = frame.get_buf().unwrap();

    let mut inner = SessionInner::new();

    // test read and write
    let (finish_tx, finish_rx) = oneshot::channel();
    let frame = Frame::new_v1(Cmd::Sync, sid);
    let req = WriteRequest {
        frame,
        finish_tx: Some(finish_tx),
    };
    let mut write_data: Vec<u8> = vec![];
    match inner.on_event(InnerEvent::Write(Some(req))) {
        InnerAction::Send(mut bytes, finish_tx) => {
            write_data.append(&mut bytes);
            match SessionInner::on_written(Ok(()), finish_tx) {
                AfterWrite::Notify(finish_tx) => finish_tx.send(()).unwrap(),
                _ => panic!("a notice was expected"),
            }
        }
        _ => panic!("bytes to write were expected"),
    }
    finish_rx.blocking_recv().unwrap();

    // the connection gives at most 65535 bytes at a time
    let mut read_reqs = read(&mut inner, &data_to_read[..65535]);
    assert!(read_reqs.is_empty());
    read_reqs.append(&mut read(&mut inner, &data_to_read[65535..]));
    assert_eq!(read_reqs.len(), 1);
    let read_req = read_reqs.pop().unwrap();
    assert!(matches!(read_req.frame.cmd, Cmd::Psh));
    assert_eq!(read_req.frame.sid, sid);
    let data = read_req.frame.data.unwrap();
    assert_eq!(data.len(), test_data_size);

    // stop inner to check write data
    assert!(matches!(
        inner.on_event(InnerEvent::Write(None)),
        InnerAction::Stop
    ));
    assert_eq!(write_data.len(), HEADER_SIZE);
}

#[test]
fn test_session_inner_error() {
    let mut inner = SessionInner::new();
    let err_msg = "some failure".to_string();

    // write something and receive error
    let frame = Frame::new_v1(Cmd::Psh, 3);
    let action = inner.on_event(InnerEvent::Write(Some(WriteRequest {
        frame,
        finish_tx: None,
    })));
    let finish_tx = match action {
        InnerAction::Send(bytes, finish_tx) => {
            assert_eq!(bytes, vec![1, 2, 0, 0, 3, 0, 0, 0]);
            finish_tx
        }
        _ => panic!("bytes to write were expected"),
    };
    let failure = std::io::Error::new(std::io::ErrorKind::NotFound, err_msg.clone());
    let res = SessionInner::on_written(Err(TokioSmuxError::from(failure)), finish_tx);
    match res {
        AfterWrite::Fail(err) => assert_eq!(err.to_text(), err_msg),
        _ => panic!("a failure was expected"),
    }
}

#[test]
fn failed_read_ends_the_connection() {
    let mut inner = SessionInner::new();
    let failure = std::io::Error::new(std::io::ErrorKind::NotFound, "some failure");

    match inner.on_event(InnerEvent::Read(Err(TokioSmuxError::from(failure)))) {
        InnerAction::Fail(requests, err) => {
            assert!(requests.is_empty());
            assert_eq!(err.to_text(), "some failure");
        }
        _ => panic!("a failure was expected"),
    }
}

#[test]
fn only_a_good_write_is_reported() {
    assert!(matches!(
        SessionInner::on_written(Ok(()), None),
        AfterWrite::Continue
    ));

    let (finish_tx, mut finish_rx) = oneshot::channel();
    match SessionInner::on_written(Ok(()), Some(finish_tx)) {
        AfterWrite::Notify(finish_tx) => finish_tx.send(()).unwrap(),
        _ => panic!("a notice was expected"),
    }
    assert!(finish_rx.try_recv().is_ok());

    let (finish_tx, mut finish_rx) = oneshot::channel();
    let failure = TokioSmuxError::Default {
        msg: "broken".to_string(),
    };
    match SessionInner::on_written(Err(failure), Some(finish_tx)) {
        AfterWrite::Fail(err) => assert_eq!(err.to_text(), "broken"),
        _ => panic!("a failure was expected"),
    }
    assert!(matches!(
        finish_rx.try_recv(),
        Err(oneshot::error::TryRecvError::Closed)
    ));
}

#[test]
fn test_session_inner_keep_alive_interval() {
    let mut inner = SessionInner::new();
    assert!(inner.keep_alive_interval().is_none());

    let duration = Duration::new(0, 10_000_000);
    inner.with_keep_alive_interval(duration);
    assert_eq!(inner.keep_alive_interval(), Some(duration));

    let mut write_data: Vec<u8> = vec![];
    for _ in 0..2 {
        match inner.on_event(InnerEvent::Tick) {
            InnerAction::Send(mut bytes, finish_tx) => {
                assert!(finish_tx.is_none());
                write_data.append(&mut bytes);
            }
            _ => panic!("bytes to write were expected"),
        }
    }
    assert!(write_data.len() >= 8);
    assert_eq!(
        write_data,
        vec![1, 3, 0, 0, 0, 0, 0, 0, 1, 3, 0, 0, 0, 0, 0, 0]
    );
}

#[test]
fn messages_arrive_one_by_one_however_they_are_cut() {
    let mut bytes: Vec<u8> = vec![];
    for i in 0..5u8 {
        bytes.append(&mut message(7, vec![i]));
    }
    bytes.append(&mut message(7, vec![]));
    bytes.append(&mut Frame::new_v1(Cmd::Fin, 7).get_buf().unwrap());

    for size in 1..=bytes.len() {
        let mut inner = SessionInner::new();
        let mut got: Vec<ReadRequest> = vec![];
        for chunk in bytes.chunks(size) {
            got.append(&mut read(&mut inner, chunk));
        }
        assert_eq!(got.len(), 7);
        for i in 0..5u8 {
            let frame = &got[i as usize].frame;
            assert_eq!(frame.cmd, Cmd::Psh);
            assert_eq!(frame.sid, 7);
            assert_eq!(frame.data, Some(vec![i]));
        }
        assert_eq!(got[5].frame.data, Some(vec![]));
        assert_eq!(got[6].frame.cmd, Cmd::Fin);
    }
}

#[test]
fn unknown_command_ends_the_connection_after_what_came_before() {
    let mut bytes = message(1, vec![1, 2]);
    bytes.append(&mut vec![1, 9, 0, 0, 0, 0, 0, 0]);
    let mut inner = SessionInner::new();
    match inner.on_event(InnerEvent::Read(Ok(&bytes))) {
        InnerAction::Fail(requests, err) => {
            assert_eq!(requests.len(), 1);
            assert_eq!(requests[0].frame.data, Some(vec![1, 2]));
            assert!(matches!(err, TokioSmuxError::FrameParseCmdError { cmd: 9 }));
        }
        _ => panic!("a failure was expected"),
    }

    // the unknown command stays at the front
    let (requests, res) = inner.handle_read_data(&message(1, vec![3]));
    assert!(requests.is_empty());
    assert!(matches!(
        res,
        Err(TokioSmuxError::FrameParseCmdError { cmd: 9 })
    ));
    let (requests, res) = inner.handle_read_data(&[]);
    assert!(requests.is_empty());
    assert!(res.is_ok());
}

#[test]
fn reading_ends_when_the_remote_stops_writing() {
    let mut inner = SessionInner::new();
    assert!(inner.wants_read());
    assert!(matches!(
        inner.on_event(InnerEvent::Read(Ok(&[]))),
        InnerAction::Continue
    ));
    assert!(!inner.wants_read());

    // writing goes on
    assert!(matches!(
        inner.on_event(InnerEvent::Write(Some(WriteRequest {
            frame: Frame::new_v1(Cmd::Fin, 1),
            finish_tx: None,
        }))),
        InnerAction::Send(_, None)
    ));
    assert!(!inner.wants_read());
}

#[test]
fn frame_with_a_wrong_length_is_not_written() {
    let mut frame = Frame::new_v1(Cmd::Psh, 1);
    frame.with_data(vec![1]);
    frame.length = 4;
    let mut inner = SessionInner::new();
    match inner.on_event(InnerEvent::Write(Some(WriteRequest {
        frame,
        finish_tx: None,
    }))) {
        InnerAction::Fail(requests, err) => {
            assert!(requests.is_empty());
            assert_eq!(err.to_text(), "unmatch data length");
        }
        _ => panic!("a failure was expected"),
    }
}

#[test]
fn frames_are_written_in_the_order_of_the_queue() {
    let mut inner = SessionInner::new();
    let mut written: Vec<u8> = vec![];
    let mut expected: Vec<u8> = vec![];
    for i in 0..4u8 {
        if i == 2 {
            // the remote stops writing in between
            assert!(matches!(
                inner.on_event(InnerEvent::Read(Ok(&[]))),
                InnerAction::Continue
            ));
        }
        let mut frame = Frame::new_v1(Cmd::Psh, 3 + 2 * (i as u32 % 2));
        frame.with_data(vec![i; i as usize]);
        expected.append(&mut frame.get_buf().unwrap());
        expected.append(&mut vec![1, 3, 0, 0, 0, 0, 0, 0]);
        let request = WriteRequest {
            frame,
            finish_tx: None,
        };
        for event in [InnerEvent::Write(Some(request)), InnerEvent::Tick] {
            match inner.on_event(event) {
                InnerAction::Send(mut bytes, _) => written.append(&mut bytes),
                _ => panic!("bytes to write were expected"),
            }
        }
    }
    assert_eq!(written, expected);
    assert!(matches!(
        inner.on_event(InnerEvent::Write(None)),
        InnerAction::Stop
    ));

    // the other side gets the same frames
    let mut remote = SessionInner::new();
    let mut got: Vec<ReadRequest> = vec![];
    for chunk in written.chunks(5) {
        got.append(&mut read(&mut remote, chunk));
    }
    assert_eq!(got.len(), 8);
    for i in 0..4usize {
        assert_eq!(got[2 * i].frame.sid, 3 + 2 * (i as u32 % 2));
        assert_eq!(got[2 * i].frame.data, Some(vec![i as u8; i]));
        assert_eq!(got[2 * i + 1].frame.cmd, Cmd::Nop);
    }
}

#[test]
fn what_has_arrived_is_the_beginning() {
    let mut bytes: Vec<u8> = vec![];
    let mut ends: Vec<usize> = vec![];
    for i in 0..3u8 {
        bytes.append(&mut message(3, vec![i; 4]));
        ends.push(bytes.len());
    }
    for arrived in 0..bytes.len() {
        let mut inner = SessionInner::new();
        let (got, res) = inner.handle_read_data(&bytes[..arrived]);
        assert!(res.is_ok());
        assert_eq!(got.len(), ends.iter().filter(|end| **end <= arrived).count());
        for i in 0..got.len() {
            assert_eq!(got[i].frame.data, Some(vec![i as u8; 4]));
        }
    }
}
