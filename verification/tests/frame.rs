use tokio_smux::frame::{Frame, HEADER_SIZE};
use tokio_smux::{Cmd, TokioSmuxError};

#[test]
fn test_frame() {
    let data: Vec<u8> = vec![
        0, // version
        0, // cmd
        1, 0, // length
        1, 0, 0, 0, // sid
    ];

    let frame: Frame = Frame::from_buf(&data).unwrap().unwrap();

    assert_eq!(frame.ver, 0);
    let cmd_val: u8 = frame.cmd.into();
    assert_eq!(cmd_val, 0);
    assert_eq!(frame.length, 1);
    assert_eq!(frame.sid, 1);

    let data: Vec<u8> = vec![0];

    let frame = Frame::from_buf(&data).unwrap(); // not enough length
    assert!(frame.is_none());
}

#[test]
fn test_frame_data() {
    //
}

#[test]
fn frame_on_the_wire() {
    let mut frame = Frame::new(1, Cmd::Psh, 0x0403_0201);
    frame.with_data(vec![7; 0x0102]);
    let buf = frame.get_buf().unwrap();
    assert_eq!(buf.len(), HEADER_SIZE + 0x0102);
    assert_eq!(&buf[..HEADER_SIZE], &[1, 2, 0x02, 0x01, 1, 2, 3, 4]);
    assert!(buf[HEADER_SIZE..].iter().all(|byte| *byte == 7));
}

#[test]
fn frame_without_data_on_the_wire() {
    let frame = Frame::new_v1(Cmd::Fin, 0xfffe_fdfc);
    assert_eq!(
        frame.get_buf().unwrap(),
        vec![1, 1, 0, 0, 0xfc, 0xfd, 0xfe, 0xff]
    );
}

#[test]
fn frame_comes_back_from_the_wire() {
    let mut frame = Frame::new(3, Cmd::Udp, 0xdead_beef);
    frame.with_data(vec![1, 2, 3, 4, 5]);
    let mut buf = frame.get_buf().unwrap();
    buf.push(99);

    let back = Frame::from_buf_with_data(&buf).unwrap().unwrap();
    assert_eq!(back.ver, 3);
    assert_eq!(back.cmd, Cmd::Udp);
    assert_eq!(back.length, 5);
    assert_eq!(back.sid, 0xdead_beef);
    assert_eq!(back.data, Some(vec![1, 2, 3, 4, 5]));
    assert_eq!(back.get_buf().unwrap(), buf[..HEADER_SIZE + 5].to_vec());

    let head = Frame::from_buf(&buf).unwrap().unwrap();
    assert_eq!(head.length, 5);
    assert_eq!(head.data, None);
}

#[test]
fn frame_without_data_comes_back_with_empty_data() {
    let buf = Frame::new_v1(Cmd::Nop, 4).get_buf().unwrap();
    let back = Frame::from_buf_with_data(&buf).unwrap().unwrap();
    assert_eq!(back.cmd, Cmd::Nop);
    assert_eq!(back.data, Some(vec![]));
}

#[test]
fn frame_that_is_cut_short_is_not_read() {
    let mut frame = Frame::new_v1(Cmd::Psh, 1);
    frame.with_data(vec![1, 2, 3]);
    let buf = frame.get_buf().unwrap();
    for len in 0..buf.len() {
        assert!(Frame::from_buf_with_data(&buf[..len]).unwrap().is_none());
        assert_eq!(
            Frame::from_buf(&buf[..len]).unwrap().is_some(),
            len >= HEADER_SIZE
        );
    }
}

#[test]
fn unknown_command_is_refused() {
    let buf: Vec<u8> = vec![1, 5, 0, 0, 0, 0, 0, 0];
    assert!(matches!(
        Frame::from_buf(&buf),
        Err(TokioSmuxError::FrameParseCmdError { cmd: 5 })
    ));
    assert!(matches!(
        Frame::from_buf_with_data(&buf),
        Err(TokioSmuxError::FrameParseCmdError { cmd: 5 })
    ));
    // the command is not looked at before the header is complete
    assert!(Frame::from_buf(&buf[..7]).unwrap().is_none());
}

#[test]
fn length_must_be_that_of_the_data() {
    let mut frame = Frame::new_v1(Cmd::Psh, 1);
    frame.with_data(vec![1, 2, 3]);
    frame.length = 2;
    match frame.get_buf() {
        Err(TokioSmuxError::Default { msg }) => assert_eq!(msg, "unmatch data length"),
        _ => panic!("an error was expected"),
    }

    let mut frame = Frame::new_v1(Cmd::Psh, 1);
    frame.length = 1;
    assert!(frame.get_buf().is_err());
}

#[test]
fn length_wraps_on_oversized_data() {
    let mut frame = Frame::new_v1(Cmd::Psh, 1);
    frame.with_data(vec![0; 65536 + 3]);
    assert_eq!(frame.length, 3);
    let buf = frame.get_buf().unwrap();
    assert_eq!(buf.len(), HEADER_SIZE + 65536 + 3);
    assert_eq!(&buf[2..4], &[3, 0]);
}

#[test]
fn commands_and_their_bytes() {
    let cmds = [Cmd::Sync, Cmd::Fin, Cmd::Psh, Cmd::Nop, Cmd::Udp];
    for (i, cmd) in cmds.iter().enumerate() {
        let byte: u8 = (*cmd).into();
        assert_eq!(byte as usize, i);
        assert_eq!(Cmd::try_from(byte).unwrap(), *cmd);
    }
    for byte in 5..=255u8 {
        match Cmd::try_from(byte) {
            Err(TokioSmuxError::FrameParseCmdError { cmd }) => assert_eq!(cmd, byte),
            _ => panic!("an error was expected"),
        }
    }
}

#[test]
fn frame_is_shown_to_developers() {
    let mut frame = Frame::new_v1(Cmd::Psh, 4_294_967_295);
    frame.with_data(vec![0; 120]);
    assert_eq!(
        frame.to_debug_text(),
        "Frame { sid: 4294967295, cmd: Psh, len: 120 }"
    );
    assert_eq!(
        Frame::new_v1(Cmd::Sync, 0).to_debug_text(),
        "Frame { sid: 0, cmd: Sync, len: 0 }"
    );
}
