//! Frames and their form on the wire.
//!
//! A frame is a header of eight bytes, followed by its data:
//!
//! | bytes  | content                             |
//! |--------|-------------------------------------|
//! | 0      | version of the protocol             |
//! | 1      | command                             |
//! | 2 to 3 | length of the data, little-endian   |
//! | 4 to 7 | id of the stream, little-endian     |

use crate::error::TokioSmuxError;
use crate::text::append_decimal;
use crate::wire::{read_u16, read_u32, write_u16, write_u32};
use vstd::prelude::*;
use vstd::std_specs::convert::{FromSpecImpl, TryFromSpecImpl};
use vstd::string::StringExecFns;

verus! {

/// The id of a stream.
pub type Sid = u32;

/// The length of a frame's header.
pub const HEADER_SIZE: usize = 8;

/// The commands of the protocol.
#[derive(Clone, Copy, Debug, PartialEq, Eq, Structural)]
pub enum Cmd {
    /// Opens a stream.
    Sync,
    /// Closes a stream.
    Fin,
    /// Carries data.
    Psh,
    /// Does nothing.
    Nop,
    /// Tells how much the remote has consumed; it belongs to version 2 of the protocol.
    Udp,
}

impl Cmd {
    /// The command's byte on the wire.
    pub open spec fn byte(self) -> u8 {
        match self {
            Cmd::Sync => 0,
            Cmd::Fin => 1,
            Cmd::Psh => 2,
            Cmd::Nop => 3,
            Cmd::Udp => 4,
        }
    }

    /// The command that a byte on the wire stands for.
    pub open spec fn of_byte(byte: u8) -> Option<Cmd> {
        match byte {
            0 => Some(Cmd::Sync),
            1 => Some(Cmd::Fin),
            2 => Some(Cmd::Psh),
            3 => Some(Cmd::Nop),
            4 => Some(Cmd::Udp),
            _ => None,
        }
    }

    /// The command's name.
    pub open spec fn name(self) -> Seq<char> {
        match self {
            Cmd::Sync => "Sync"@,
            Cmd::Fin => "Fin"@,
            Cmd::Psh => "Psh"@,
            Cmd::Nop => "Nop"@,
            Cmd::Udp => "Udp"@,
        }
    }

    fn name_text(self) -> (res: &'static str)
        ensures
            res@ == self.name(),
    {
        match self {
            Cmd::Sync => "Sync",
            Cmd::Fin => "Fin",
            Cmd::Psh => "Psh",
            Cmd::Nop => "Nop",
            Cmd::Udp => "Udp",
        }
    }
}

impl TryFromSpecImpl<u8> for Cmd {
    open spec fn obeys_try_from_spec() -> bool {
        true
    }

    open spec fn try_from_spec(value: u8) -> Result<Self, TokioSmuxError> {
        match Cmd::of_byte(value) {
            Some(cmd) => Ok(cmd),
            None => Err(TokioSmuxError::FrameParseCmdError { cmd: value }),
        }
    }
}

impl TryFrom<u8> for Cmd {
    type Error = TokioSmuxError;

    fn try_from(value: u8) -> (res: Result<Self, TokioSmuxError>) {
        let val = match value {
            0 => Cmd::Sync,
            1 => Cmd::Fin,
            2 => Cmd::Psh,
            3 => Cmd::Nop,
            4 => Cmd::Udp,
            _ => return Err(TokioSmuxError::FrameParseCmdError { cmd: value }),
        };
        Ok(val)
    }
}

impl FromSpecImpl<Cmd> for u8 {
    open spec fn obeys_from_spec() -> bool {
        true
    }

    open spec fn from_spec(cmd: Cmd) -> u8 {
        cmd.byte()
    }
}

impl From<Cmd> for u8 {
    fn from(cmd: Cmd) -> (res: u8) {
        match cmd {
            Cmd::Sync => 0,
            Cmd::Fin => 1,
            Cmd::Psh => 2,
            Cmd::Nop => 3,
            Cmd::Udp => 4,
        }
    }
}

/// A frame. Its data, where it has any, is meant to be `length` bytes long.
pub struct Frame {
    pub ver: u8,
    pub cmd: Cmd,
    pub length: u16,
    pub sid: Sid,
    pub data: Option<Vec<u8>>,
}

/// What a frame holds.
#[verifier::ext_equal]
pub struct FrameView {
    pub ver: u8,
    pub cmd: Cmd,
    pub length: u16,
    pub sid: Sid,
    pub data: Option<Seq<u8>>,
}

impl View for Frame {
    type V = FrameView;

    open spec fn view(&self) -> FrameView {
        FrameView {
            ver: self.ver,
            cmd: self.cmd,
            length: self.length,
            sid: self.sid,
            data: match self.data {
                Some(data) => Some(data@),
                None => None,
            },
        }
    }
}

impl FrameView {
    /// A frame without data.
    pub open spec fn bare(ver: u8, cmd: Cmd, sid: Sid) -> FrameView {
        FrameView { ver, cmd, length: 0, sid, data: None }
    }

    /// The frame with `data`. The length wraps where the data is too long for a frame.
    pub open spec fn carrying(self, data: Seq<u8>) -> FrameView {
        FrameView { length: (data.len() % 0x1_0000) as u16, data: Some(data), ..self }
    }

    /// The bytes that follow the header.
    pub open spec fn payload(self) -> Seq<u8> {
        match self.data {
            Some(data) => data,
            None => Seq::empty(),
        }
    }

    /// Whether the length is that of the data, as far as its sixteen bits tell.
    pub open spec fn length_matches(self) -> bool {
        self.length as int == self.payload().len() % 0x1_0000
    }

    /// Whether the length is exactly that of the data.
    pub open spec fn is_whole(self) -> bool {
        self.length as int == self.payload().len()
    }

    /// The frame as the remote gets it: with data, though it may be empty.
    pub open spec fn received(self) -> FrameView {
        FrameView { data: Some(self.payload()), ..self }
    }

    /// The eight bytes of the header.
    pub open spec fn header(self) -> Seq<u8> {
        seq![self.ver, self.cmd.byte()] + crate::wire::le_bytes_u16(self.length)
            + crate::wire::le_bytes_u32(self.sid)
    }

    /// The frame on the wire.
    pub open spec fn encoding(self) -> Seq<u8> {
        self.header() + self.payload()
    }

    /// The text that shows the frame to developers: its stream, command and length.
    pub open spec fn debug_text(self) -> Seq<char> {
        "Frame { sid: "@ + crate::text::decimal(self.sid as nat) + ", cmd: "@ + self.cmd.name()
            + ", len: "@ + crate::text::decimal(self.length as nat) + " }"@
    }
}

/// The frame that the first eight bytes of `buf` announce, without its data: `Ok(None)` where
/// there are fewer bytes, the unknown byte where the command is unknown.
pub open spec fn parsed_header(buf: Seq<u8>) -> Result<Option<FrameView>, u8> {
    if buf.len() < HEADER_SIZE {
        Ok(None)
    } else {
        match Cmd::of_byte(buf[1]) {
            None => Err(buf[1]),
            Some(cmd) => Ok(
                Some(
                    FrameView {
                        ver: buf[0],
                        cmd,
                        length: crate::wire::le_u16(buf.subrange(2, 4)),
                        sid: crate::wire::le_u32(buf.subrange(4, 8)),
                        data: None,
                    },
                ),
            ),
        }
    }
}

/// The frame at the start of `buf`: `Ok(None)` where `buf` ends before the frame does, the
/// unknown byte where the command is unknown.
pub open spec fn parsed_frame(buf: Seq<u8>) -> Result<Option<FrameView>, u8> {
    match parsed_header(buf) {
        Err(byte) => Err(byte),
        Ok(None) => Ok(None),
        Ok(Some(head)) => if buf.len() < HEADER_SIZE + head.length {
            Ok(None)
        } else {
            Ok(
                Some(
                    FrameView {
                        data: Some(
                            buf.subrange(HEADER_SIZE as int, HEADER_SIZE + head.length),
                        ),
                        ..head
                    },
                ),
            )
        },
    }
}

/// Whether `res` is what `parsed` says: the same frame, the absence of one, or the error that
/// names the unknown command.
pub open spec fn reports(
    res: Result<Option<Frame>, TokioSmuxError>,
    parsed: Result<Option<FrameView>, u8>,
) -> bool {
    match parsed {
        Err(byte) => res matches Err(TokioSmuxError::FrameParseCmdError { cmd }) && cmd == byte,
        Ok(None) => res matches Ok(None),
        Ok(Some(view)) => res matches Ok(Some(frame)) && frame@ == view,
    }
}

impl Frame {
    /// A frame without data.
    pub fn new(ver: u8, cmd: Cmd, sid: Sid) -> (res: Frame)
        ensures
            res@ == FrameView::bare(ver, cmd, sid),
            res.ver == ver && res.cmd == cmd && res.sid == sid,
            res.length == 0 && res.data is None,
    {
        Frame { ver, cmd, sid, length: 0, data: None }
    }

    /// A frame of version 1 without data.
    pub fn new_v1(cmd: Cmd, sid: Sid) -> (res: Frame)
        ensures
            res@ == FrameView::bare(1, cmd, sid),
            res.ver == 1 && res.cmd == cmd && res.sid == sid,
            res.length == 0 && res.data is None,
    {
        Frame { ver: 1, cmd, sid, length: 0, data: None }
    }

    /// Gives the frame its data, and the length of it.
    pub fn with_data(&mut self, data: Vec<u8>)
        ensures
            final(self)@ == old(self)@.carrying(data@),
            final(self).data == Some(data),
            final(self).length as int == data@.len() % 0x1_0000,
            final(self).ver == old(self).ver,
            final(self).cmd == old(self).cmd,
            final(self).sid == old(self).sid,
    {
        let len: usize = data.len();
        assert(len as u16 == len % 0x1_0000) by (bit_vector);
        self.length = #[verifier::truncate] (len as u16);
        self.data = Some(data);
    }

    /// The frame on the wire. It fails where the length is not that of the data.
    pub fn get_buf(&self) -> (res: Result<Vec<u8>, TokioSmuxError>)
        ensures
            self@.length_matches() ==> (res matches Ok(buf) && buf@ == self@.encoding()),
            res is Ok <==> self.length as int == (match self.data {
                Some(data) => data@.len(),
                None => 0,
            }) % 0x1_0000,
            !self@.length_matches() ==> (res matches Err(TokioSmuxError::Default { msg }) && msg@
                == "unmatch data length"@),
    {
        let mut real_data_len: usize = 0;
        if let Some(data) = &self.data {
            real_data_len = data.len();
        }
        assert(real_data_len as u16 == real_data_len % 0x1_0000) by (bit_vector);
        if #[verifier::truncate] (real_data_len as u16) != self.length {
            return Err(TokioSmuxError::Default { msg: "unmatch data length".to_string() });
        }
        let mut buf: Vec<u8> = vec![0u8; HEADER_SIZE];
        buf.set(0, self.ver);
        buf.set(1, u8::from(self.cmd));
        write_u16(&mut buf, 2, self.length);
        write_u32(&mut buf, 4, self.sid);
        assert(buf@ =~= self@.header());
        if let Some(data) = &self.data {
            buf.extend_from_slice(data.as_slice());
        }
        assert(buf@ =~= self@.encoding());
        Ok(buf)
    }

    /// Reads the header of the frame at the start of `data`, and leaves the frame's data aside.
    pub fn from_buf(data: &[u8]) -> (res: Result<Option<Frame>, TokioSmuxError>)
        ensures
            reports(res, parsed_header(data@)),
            data@.len() < 8 ==> res matches Ok(None),
            data@.len() >= 8 && data@[1] > 4 ==> (res matches Err(
                TokioSmuxError::FrameParseCmdError { cmd },
            ) && cmd == data@[1]),
            data@.len() >= 8 && data@[1] <= 4 ==> {
                &&& res matches Ok(Some(frame))
                &&& frame.ver == data@[0]
                &&& frame.cmd.byte() == data@[1]
                &&& frame.length == data@[2] + 0x100 * data@[3]
                &&& frame.sid == data@[4] + 0x100 * data@[5] + 0x1_0000 * data@[6] + 0x100_0000
                    * data@[7]
                &&& frame.data is None
            },
    {
        if data.len() < HEADER_SIZE {
            return Ok(None);
        }
        let ver = data[0];
        let cmd = match Cmd::try_from(data[1]) {
            Ok(cmd) => cmd,
            Err(err) => return Err(err),
        };
        let length = read_u16(&data[2..4]);
        let sid = read_u32(&data[4..8]);
        Ok(Some(Frame { ver, length, cmd, sid, data: None }))
    }

    /// Reads the frame at the start of `data`, its own data included.
    pub fn from_buf_with_data(data: &[u8]) -> (res: Result<Option<Frame>, TokioSmuxError>)
        ensures
            reports(res, parsed_frame(data@)),
            data@.len() < 8 ==> res matches Ok(None),
            data@.len() >= 8 && data@[1] > 4 ==> (res matches Err(
                TokioSmuxError::FrameParseCmdError { cmd },
            ) && cmd == data@[1]),
            data@.len() >= 8 && data@[1] <= 4 && data@.len() < 8 + data@[2] + 0x100 * data@[3] ==> (
            res matches Ok(None)),
            data@.len() >= 8 && data@[1] <= 4 && data@.len() >= 8 + data@[2] + 0x100 * data@[3]
                ==> {
                &&& res matches Ok(Some(frame))
                &&& frame.ver == data@[0]
                &&& frame.cmd.byte() == data@[1]
                &&& frame.length == data@[2] + 0x100 * data@[3]
                &&& frame.sid == data@[4] + 0x100 * data@[5] + 0x1_0000 * data@[6] + 0x100_0000
                    * data@[7]
                &&& frame.data matches Some(bytes)
                &&& bytes@ == data@.subrange(8, 8 + data@[2] + 0x100 * data@[3])
            },
    {
        let mut frame = match Frame::from_buf(data) {
            Err(err) => return Err(err),
            Ok(None) => return Ok(None),
            Ok(Some(frame)) => frame,
        };
        let end: usize = HEADER_SIZE + frame.length as usize;
        if data.len() < end {
            return Ok(None);
        }
        frame.data = Some(vstd::slice::slice_to_vec(&data[HEADER_SIZE..end]));
        Ok(Some(frame))
    }

    /// The text that shows the frame to developers.
    pub fn to_debug_text(&self) -> (res: String)
        ensures
            res@ == self@.debug_text(),
    {
        let mut res = "Frame { sid: ".to_string();
        append_decimal(&mut res, self.sid as u64);
        res.append(", cmd: ");
        res.append(self.cmd.name_text());
        res.append(", len: ");
        append_decimal(&mut res, self.length as u64);
        res.append(" }");
        res
    }
}

/// What a frame is taken to hold is what its fields hold.
pub proof fn view_shows_every_field(frame: Frame)
    ensures
        frame@.ver == frame.ver,
        frame@.cmd == frame.cmd,
        frame@.length == frame.length,
        frame@.sid == frame.sid,
        frame.data is None ==> frame@.data is None,
        frame.data matches Some(data) ==> frame@.data == Some(data@),
{
}

/// The bytes of the commands: 0 opens a stream, 1 ends it, 2 carries data, 3 does nothing, and 4
/// tells what was consumed. No other byte is a command.
pub proof fn bytes_of_commands(cmd: Cmd, byte: u8)
    ensures
        cmd == Cmd::Sync <==> cmd.byte() == 0,
        cmd == Cmd::Fin <==> cmd.byte() == 1,
        cmd == Cmd::Psh <==> cmd.byte() == 2,
        cmd == Cmd::Nop <==> cmd.byte() == 3,
        cmd == Cmd::Udp <==> cmd.byte() == 4,
        Cmd::of_byte(byte) is Some <==> byte <= 4,
{
}

/// Each field of a frame stands in its place on the wire: the version, the command, the length and
/// the stream as little-endian numbers, and then the data to the last byte.
pub proof fn fields_have_their_places(frame: FrameView)
    ensures
        frame.encoding()[0] == frame.ver,
        frame.encoding()[1] == frame.cmd.byte(),
        frame.encoding()[2] + 0x100 * frame.encoding()[3] == frame.length,
        frame.encoding()[4] + 0x100 * frame.encoding()[5] + 0x1_0000 * frame.encoding()[6]
            + 0x100_0000 * frame.encoding()[7] == frame.sid,
        frame.data is None ==> frame.encoding().len() == 8,
        frame.data matches Some(data) ==> {
            &&& frame.encoding().len() == 8 + data.len()
            &&& frame.encoding().skip(8) == data
        },
{
    crate::wire::u16_written_is_read_back(frame.length, Seq::empty());
    crate::wire::u32_written_is_read_back(frame.sid, Seq::empty());
    if let Some(data) = frame.data {
        assert(frame.encoding().skip(8) =~= data);
    }
}

/// A frame is read as soon as, and only when, all of its bytes are there; a command that is none is
/// refused as soon as the header is there, and by its byte.
pub proof fn frame_is_read_once_complete(buf: Seq<u8>)
    ensures
        parsed_frame(buf) == Ok::<Option<FrameView>, u8>(None) <==> buf.len() < 8 || (buf[1] <= 4
            && buf.len() < 8 + buf[2] + 0x100 * buf[3]),
        parsed_frame(buf) is Err <==> buf.len() >= 8 && buf[1] > 4,
        parsed_frame(buf) matches Err(byte) ==> byte == buf[1],
        parsed_frame(buf) matches Ok(Some(frame)) ==> {
            &&& frame.ver == buf[0]
            &&& frame.cmd.byte() == buf[1]
            &&& frame.length == buf[2] + 0x100 * buf[3]
            &&& frame.sid == buf[4] + 0x100 * buf[5] + 0x1_0000 * buf[6] + 0x100_0000 * buf[7]
            &&& frame.data == Some(buf.subrange(8, 8 + buf[2] + 0x100 * buf[3]))
        },
        parsed_header(buf) == Ok::<Option<FrameView>, u8>(None) <==> buf.len() < 8,
        parsed_header(buf) is Err <==> parsed_frame(buf) is Err,
{
}

/// Giving a frame its data changes the data and the length, and nothing else. The length is that of
/// the data, as far as sixteen bits tell.
pub proof fn only_data_and_length_change(frame: FrameView, data: Seq<u8>)
    ensures
        frame.carrying(data).data == Some(data),
        frame.carrying(data).length as int == data.len() % 0x1_0000,
        frame.carrying(data).ver == frame.ver,
        frame.carrying(data).cmd == frame.cmd,
        frame.carrying(data).sid == frame.sid,
        frame.carrying(data).length_matches(),
        data.len() <= u16::MAX ==> frame.carrying(data).is_whole(),
{
}

/// A frame can be written just where its length is that of its data, as far as sixteen bits tell;
/// one without data where its length is zero.
pub proof fn length_is_held_against_data(frame: FrameView)
    ensures
        frame.data is None ==> (frame.length_matches() <==> frame.length == 0),
        frame.data matches Some(data) ==> (frame.length_matches() <==> frame.length as int
            == data.len() % 0x1_0000),
        frame.data matches Some(data) ==> (frame.is_whole() <==> frame.length == data.len()),
{
}

/// What a frame shows to developers is its stream, its command and its length.
pub proof fn frame_shows_stream_command_and_length(frame: FrameView)
    ensures
        frame.debug_text() == "Frame { sid: "@ + crate::text::decimal(frame.sid as nat)
            + ", cmd: "@ + (match frame.cmd {
            Cmd::Sync => "Sync"@,
            Cmd::Fin => "Fin"@,
            Cmd::Psh => "Psh"@,
            Cmd::Nop => "Nop"@,
            Cmd::Udp => "Udp"@,
        }) + ", len: "@ + crate::text::decimal(frame.length as nat) + " }"@,
{
}

/// Every command has a byte of its own, and is read back from it.
pub proof fn cmd_is_read_back(cmd: Cmd)
    ensures
        Cmd::of_byte(cmd.byte()) == Some(cmd),
{
}

/// The byte that a command was read from is the command's byte.
pub proof fn cmd_byte_is_written_back(byte: u8)
    ensures
        Cmd::of_byte(byte) matches Some(cmd) ==> cmd.byte() == byte,
{
}

/// A header is eight bytes long, and is read back whatever follows it.
pub proof fn header_is_read_back(frame: FrameView, rest: Seq<u8>)
    ensures
        frame.header().len() == HEADER_SIZE,
        parsed_header(frame.header() + rest) == Ok::<_, u8>(
            Some(FrameView { data: None, ..frame }),
        ),
{
    let buf = frame.header() + rest;
    assert(buf.subrange(2, 4) =~= crate::wire::le_bytes_u16(frame.length) + Seq::<u8>::empty());
    assert(buf.subrange(4, 8) =~= crate::wire::le_bytes_u32(frame.sid) + Seq::<u8>::empty());
    crate::wire::u16_written_is_read_back(frame.length, Seq::empty());
    crate::wire::u32_written_is_read_back(frame.sid, Seq::empty());
}

/// What was written is read back: a frame whose length is that of its data comes back from the
/// wire with the same version, command, length, stream and data, whatever follows it.
pub proof fn frame_is_read_back(frame: FrameView, rest: Seq<u8>)
    requires
        frame.is_whole(),
    ensures
        parsed_frame(frame.encoding() + rest) == Ok::<_, u8>(Some(frame.received())),
{
    header_is_read_back(frame, frame.payload() + rest);
    assert(frame.encoding() + rest =~= frame.header() + (frame.payload() + rest));
    assert((frame.encoding() + rest).subrange(HEADER_SIZE as int, HEADER_SIZE + frame.length)
        =~= frame.payload());
}

/// What was read is written back: a frame that was read is whole, and its form on the wire is the
/// bytes that it was read from.
pub proof fn frame_is_written_back(buf: Seq<u8>, frame: FrameView)
    requires
        parsed_frame(buf) == Ok::<_, u8>(Some(frame)),
    ensures
        frame.is_whole(),
        frame.length_matches(),
        frame.received() == frame,
        frame.encoding() == buf.take(HEADER_SIZE + frame.length),
{
    crate::wire::u16_read_is_written_back(buf.subrange(2, 4));
    crate::wire::u32_read_is_written_back(buf.subrange(4, 8));
    assert(buf.subrange(2, 4).take(2) =~= buf.subrange(2, 4));
    assert(buf.subrange(4, 8).take(4) =~= buf.subrange(4, 8));
    assert(frame.encoding() =~= buf.take(HEADER_SIZE + frame.length));
}

/// Bytes that arrive later change neither a frame that is complete nor a command that is unknown.
pub proof fn later_bytes_change_no_frame(buf: Seq<u8>, more: Seq<u8>)
    requires
        parsed_frame(buf) != Ok::<Option<FrameView>, u8>(None),
    ensures
        parsed_frame(buf + more) == parsed_frame(buf),
{
    assert((buf + more).subrange(2, 4) =~= buf.subrange(2, 4));
    assert((buf + more).subrange(4, 8) =~= buf.subrange(4, 8));
    if let Ok(Some(head)) = parsed_header(buf) {
        assert((buf + more).subrange(HEADER_SIZE as int, HEADER_SIZE + head.length)
            =~= buf.subrange(HEADER_SIZE as int, HEADER_SIZE + head.length));
    }
}

/// Two whole frames with the same form on the wire arrive as the same frame.
pub proof fn encodings_are_distinct(a: FrameView, b: FrameView)
    requires
        a.is_whole(),
        b.is_whole(),
        a.encoding() == b.encoding(),
    ensures
        a.received() == b.received(),
{
    frame_is_read_back(a, Seq::empty());
    frame_is_read_back(b, Seq::empty());
}

} // verus!
