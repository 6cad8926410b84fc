# tokio_smux

Stream multiplexing in the smux protocol (version 1), with a core that is verified by Verus: many
streams share one connection, and each message keeps its boundaries.

- `src/` is the verified core. It holds the frame format, the reassembly of frames from the bytes
  of a connection, the sorting of frames by stream, and the life cycles of streams and sessions. It
  never waits: each place where a session would is a step, a function from what was received to
  what has to be done next.
- `app/` runs the core on tokio, over anything that is `AsyncRead` and `AsyncWrite`: it reads and
  writes the connection, keeps the channels, and spawns the tasks.
- `tests/` run the core.

The modules of the core, from the bytes up:

| module               | content                                                          |
|----------------------|------------------------------------------------------------------|
| `wire`               | little-endian integers, by `byteorder`                           |
| `frame`              | frames, and their form on the wire                               |
| `session_inner`      | frames from and to the bytes of the connection                   |
| `sid_map`            | a map from stream ids to channel handles, by `dashmap`           |
| `stream_table`       | the streams that a session knows, and their channels             |
| `read_frame_grouper` | the sorting of frames by what they ask for, and by stream        |
| `stream`             | what may be sent and received on a stream, and how it ends       |
| `session`            | the ids of streams, and how streams are opened and accepted      |
| `multiplexing`       | the laws that join the parts: what is sent is received           |
| `config`, `error`    | the configuration of a session, and what can go wrong            |
| `channel`, `text`    | what travels between the parts, and decimal numbers as text      |

What is sent is received: `multiplexing` states it for the messages of one stream among whatever
other streams write, and however the bytes are cut into reads.
`streams_share_a_connection` is about a stream that the receiving session knows,
`opened_stream_shares_a_connection` about one that the remote opens at any time; either may have
ended or not. In the meantime other streams may be opened, accepted, closed and forgotten; only the
stream itself must not be forgotten, or opened once more by the receiving session.

Message data is at most 65535 bytes. Version 2 of the protocol is not supported.
