//! Verified core of smux stream multiplexing: the frame format, the reassembly of frames from a
//! byte stream, the routing of frames to streams, and the life cycles of streams and sessions.
//!
//! Everything that waits for the network, a timer or another task stays outside. Each such place
//! is a step here: a function from what was received to what has to be done next.

pub mod channel;
pub mod config;
pub mod error;
pub mod frame;
pub mod multiplexing;
pub mod read_frame_grouper;
pub mod session;
pub mod session_inner;
pub mod sid_map;
pub mod stream;
pub mod stream_table;
pub mod text;
pub mod wire;

pub use config::SmuxConfig;
pub use frame::Cmd;
pub use error::TokioSmuxError;
pub use session::Session;
pub use stream::Stream;
