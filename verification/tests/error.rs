use tokio::sync::{broadcast, mpsc, oneshot};
use tokio_smux::TokioSmuxError;

#[test]
fn texts_of_errors() {
    let cases = vec![
        (
            TokioSmuxError::FrameParseCmdError { cmd: 0 },
            "receive invalid cmd: 0",
        ),
        (
            TokioSmuxError::FrameParseCmdError { cmd: 205 },
            "receive invalid cmd: 205",
        ),
        (
            TokioSmuxError::FrameCreateError,
            "failed to create frame from data",
        ),
        (
            TokioSmuxError::InvalidConfig {
                msg: "why".to_string(),
            },
            "receive invalid config: why",
        ),
        (TokioSmuxError::SessionClosed, "session closed"),
        (
            TokioSmuxError::SessionGoAway,
            "stream id overflows, should start a new connection",
        ),
        (TokioSmuxError::StreamClosed, "stream closed"),
        (
            TokioSmuxError::StreamWriteTooLargeData,
            "stream write too large data",
        ),
        (
            TokioSmuxError::StreamReceiveUnexpectedCmd { cmd_value: 10 },
            "stream receives unexpected cmd: 10",
        ),
        (
            TokioSmuxError::TokioRecvError {
                inner: "a".to_string(),
            },
            "tokio recv error: a",
        ),
        (
            TokioSmuxError::TokioSendError {
                inner: "b".to_string(),
            },
            "tokio send error: b",
        ),
        (
            TokioSmuxError::InnerStreamError {
                msg: "c".to_string(),
            },
            "receive inner stream err: c",
        ),
        (
            TokioSmuxError::Default {
                msg: "d".to_string(),
            },
            "d",
        ),
    ];
    for (error, text) in cases {
        assert_eq!(error.to_text(), text);
        assert_eq!(error.clone().to_text(), text);
    }
}

#[test]
fn io_error_keeps_its_text() {
    let error = TokioSmuxError::from(std::io::Error::new(
        std::io::ErrorKind::NotFound,
        "some failure",
    ));
    assert!(matches!(error, TokioSmuxError::Default { .. }));
    assert_eq!(error.to_text(), "some failure");
}

#[test]
fn channel_errors_keep_their_text() {
    let (tx, rx) = oneshot::channel::<()>();
    drop(tx);
    let error = TokioSmuxError::from(rx.blocking_recv().unwrap_err());
    assert_eq!(error.to_text(), "tokio recv error: channel closed");

    let (tx, rx) = mpsc::channel::<u8>(1);
    drop(rx);
    let error = TokioSmuxError::from(tx.blocking_send(1).unwrap_err());
    assert_eq!(error.to_text(), "tokio recv error: channel closed");

    let (tx, rx) = broadcast::channel::<u8>(1);
    drop(rx);
    let error = TokioSmuxError::from(tx.send(1).unwrap_err());
    assert_eq!(error.to_text(), "tokio send error: channel closed");

    let error = TokioSmuxError::from(broadcast::error::RecvError::Closed);
    assert_eq!(error.to_text(), "tokio recv error: channel closed");
    let error = TokioSmuxError::from(broadcast::error::RecvError::Lagged(7));
    assert_eq!(error.to_text(), "tokio recv error: channel lagged by 7");
}
