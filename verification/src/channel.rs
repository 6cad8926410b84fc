//! The channels that connect the parts of a session, and what travels on them.

use crate::frame::Frame;
use tokio::sync::{mpsc, oneshot};
use vstd::prelude::*;

verus! {

/// `tokio::sync::mpsc::Sender`, the sending half of a queue, as an opaque value. Nothing is
/// claimed of it.
#[verifier::external_type_specification]
#[verifier::external_body]
#[verifier::reject_recursive_types(T)]
pub struct ExMpscSender<T>(mpsc::Sender<T>);

/// `tokio::sync::mpsc::Receiver`, the receiving half of a queue, as an opaque value. Nothing is
/// claimed of it.
#[verifier::external_type_specification]
#[verifier::external_body]
#[verifier::reject_recursive_types(T)]
pub struct ExMpscReceiver<T>(mpsc::Receiver<T>);

/// `tokio::sync::oneshot::Sender`, the sending half of a one-shot channel, as an opaque value.
/// Nothing is claimed of it.
#[verifier::external_type_specification]
#[verifier::external_body]
#[verifier::reject_recursive_types(T)]
pub struct ExOneshotSender<T>(oneshot::Sender<T>);

/// `tokio::sync::oneshot::Receiver`, the receiving half of a one-shot channel, as an opaque
/// value. Nothing is claimed of it.
#[verifier::external_type_specification]
#[verifier::external_body]
#[verifier::reject_recursive_types(T)]
pub struct ExOneshotReceiver<T>(oneshot::Receiver<T>);

/// A frame to be written, and whom to tell once it is written.
pub struct WriteRequest {
    pub frame: Frame,
    pub finish_tx: Option<oneshot::Sender<()>>,
}

/// A frame that was read.
pub struct ReadRequest {
    pub frame: Frame,
}

} // verus!
