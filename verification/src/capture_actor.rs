use vstd::prelude::*;

use crate::models::{CreateVideoUnitFile, UpdateVideoUnitFile};
use crate::ws_camera_server::{CameraFrame, FrameResolution};

verus! {

// The capture subprocess writes length-prefixed records on its stdout.
// Each record is a tagged byte string; all integers are big-endian:
//   0x01  monotonic_index: u32, begin_time: i64 us, filename_len: u16, filename
//   0x02  resolution: u8, offset_us: i64, jpeg_len: u32, jpeg
//   0x03  end_time: i64 us, size: u32
//   0x04  level: u8, msg_len: u16, msg

/// The big-endian value of two bytes.
pub open spec fn be_u16(b: Seq<u8>) -> int
    recommends
        b.len() == 2,
{
    b[0] * 0x100 + b[1]
}

/// The big-endian value of four bytes.
pub open spec fn be_u32(b: Seq<u8>) -> int
    recommends
        b.len() == 4,
{
    b[0] * 0x1000000 + b[1] * 0x10000 + b[2] * 0x100 + b[3]
}

/// The big-endian value of eight bytes, unsigned.
pub open spec fn be_u64(b: Seq<u8>) -> int
    recommends
        b.len() == 8,
{
    b[0] * 0x100000000000000 + b[1] * 0x1000000000000 + b[2] * 0x10000000000 + b[3] * 0x100000000
        + b[4] * 0x1000000 + b[5] * 0x10000 + b[6] * 0x100 + b[7]
}

/// The big-endian value of eight bytes, two's complement.
pub open spec fn be_i64(b: Seq<u8>) -> int
    recommends
        b.len() == 8,
{
    if be_u64(b) >= 0x8000000000000000 {
        be_u64(b) - 0x10000000000000000
    } else {
        be_u64(b)
    }
}

/// One record read from the capture subprocess, as mathematical values.
pub enum CaptureRecord {
    /// A new segment begins
    BeginUnit {
        /// per-camera strictly increasing segment counter
        monotonic_index: int,
        /// begin time, UTC microseconds
        begin_time: int,
        /// file path bytes of the new recording
        filename: Seq<u8>,
    },
    /// One captured frame
    Frame {
        /// resolution code: 0 standard definition, 1 high definition
        resolution: int,
        /// offset from the beginning of the segment, microseconds
        offset_us: int,
        /// jpeg image bytes
        jpeg: Seq<u8>,
    },
    /// The current segment ends
    EndUnit {
        /// end time, UTC microseconds
        end_time: int,
        /// final file size in bytes
        size: int,
    },
    /// A log line from the subprocess
    Log {
        /// log level code
        level: int,
        /// message bytes
        msg: Seq<u8>,
    },
}

/// The record encoded by `d`, if `d` is exactly one well-formed record.
pub open spec fn spec_parse_record(d: Seq<u8>) -> Option<CaptureRecord> {
    if d.len() < 1 {
        None
    } else if d[0] == 1 {
        if d.len() >= 15 && d.len() == 15 + be_u16(d.subrange(13, 15)) {
            Some(
                CaptureRecord::BeginUnit {
                    monotonic_index: be_u32(d.subrange(1, 5)),
                    begin_time: be_i64(d.subrange(5, 13)),
                    filename: d.skip(15),
                },
            )
        } else {
            None
        }
    } else if d[0] == 2 {
        if d.len() >= 14 && d.len() == 14 + be_u32(d.subrange(10, 14)) {
            Some(
                CaptureRecord::Frame {
                    resolution: d[1] as int,
                    offset_us: be_i64(d.subrange(2, 10)),
                    jpeg: d.skip(14),
                },
            )
        } else {
            None
        }
    } else if d[0] == 3 {
        if d.len() == 13 {
            Some(
                CaptureRecord::EndUnit {
                    end_time: be_i64(d.subrange(1, 9)),
                    size: be_u32(d.subrange(9, 13)),
                },
            )
        } else {
            None
        }
    } else if d[0] == 4 {
        if d.len() >= 4 && d.len() == 4 + be_u16(d.subrange(2, 4)) {
            Some(CaptureRecord::Log { level: d[1] as int, msg: d.skip(4) })
        } else {
            None
        }
    } else {
        None
    }
}

/// Whether `d` carries a tag outside the four known record kinds; the
/// worker treats this as a corrupted stream and restarts the
/// subprocess.
pub open spec fn spec_bad_tag(d: Seq<u8>) -> bool {
    d.len() >= 1 && d[0] != 1 && d[0] != 2 && d[0] != 3 && d[0] != 4
}

/// One record read from the capture subprocess.
#[derive(Clone, Debug, PartialEq)]
pub enum CaptureMessage {
    /// A new segment begins
    BeginUnit {
        /// per-camera strictly increasing segment counter
        monotonic_index: u32,
        /// begin time, UTC microseconds
        begin_time: i64,
        /// file path bytes of the new recording
        filename: Vec<u8>,
    },
    /// One captured frame
    Frame {
        /// resolution code: 0 standard definition, 1 high definition
        resolution: u8,
        /// offset from the beginning of the segment, microseconds
        offset_us: i64,
        /// jpeg image bytes
        jpeg: Vec<u8>,
    },
    /// The current segment ends
    EndUnit {
        /// end time, UTC microseconds
        end_time: i64,
        /// final file size in bytes
        size: u32,
    },
    /// A log line from the subprocess
    Log {
        /// log level code
        level: u8,
        /// message bytes
        msg: Vec<u8>,
    },
}

impl CaptureMessage {
    /// The mathematical record this message stands for.
    pub open spec fn view(self) -> CaptureRecord {
        match self {
            CaptureMessage::BeginUnit { monotonic_index, begin_time, filename } =>
                CaptureRecord::BeginUnit {
                monotonic_index: monotonic_index as int,
                begin_time: begin_time as int,
                filename: filename@,
            },
            CaptureMessage::Frame { resolution, offset_us, jpeg } => CaptureRecord::Frame {
                resolution: resolution as int,
                offset_us: offset_us as int,
                jpeg: jpeg@,
            },
            CaptureMessage::EndUnit { end_time, size } => CaptureRecord::EndUnit {
                end_time: end_time as int,
                size: size as int,
            },
            CaptureMessage::Log { level, msg } => CaptureRecord::Log {
                level: level as int,
                msg: msg@,
            },
        }
    }
}

/// Why a byte string is not one well-formed record.
#[derive(Clone, Copy, Debug, PartialEq, Eq, Structural)]
pub enum ParseError {
    /// The tag byte names no known record kind; the subprocess is
    /// killed and restarted.
    BadTag,
    /// The record is empty, truncated, or its length fields disagree
    /// with its actual length.
    BadLength,
}

/// Reads two big-endian bytes.
fn read_u16(d: &[u8], at: usize) -> (r: u16)
    requires
        at + 2 <= d@.len(),
    ensures
        r == be_u16(d@.subrange(at as int, at as int + 2)),
{
    let ghost b = d@.subrange(at as int, at as int + 2);
    let r: u16 = (d[at] as u16) * 0x100 + (d[at + 1] as u16);
    proof {
        assert(b[0] == d@[at as int] && b[1] == d@[at as int + 1]);
    }
    r
}

/// Reads four big-endian bytes.
fn read_u32(d: &[u8], at: usize) -> (r: u32)
    requires
        at + 4 <= d@.len(),
    ensures
        r == be_u32(d@.subrange(at as int, at as int + 4)),
{
    let ghost b = d@.subrange(at as int, at as int + 4);
    let r: u32 = (d[at] as u32) * 0x1000000 + (d[at + 1] as u32) * 0x10000 + (d[at + 2] as u32)
        * 0x100 + (d[at + 3] as u32);
    proof {
        assert(b[0] == d@[at as int] && b[1] == d@[at as int + 1] && b[2] == d@[at as int + 2]
            && b[3] == d@[at as int + 3]);
    }
    r
}

/// Reads eight big-endian bytes as a two's-complement integer.
fn read_i64(d: &[u8], at: usize) -> (r: i64)
    requires
        at + 8 <= d@.len(),
    ensures
        r == be_i64(d@.subrange(at as int, at as int + 8)),
{
    let ghost b = d@.subrange(at as int, at as int + 8);
    let hi: u64 = (d[at] as u64) * 0x100000000000000 + (d[at + 1] as u64) * 0x1000000000000 + (d[at
        + 2] as u64) * 0x10000000000 + (d[at + 3] as u64) * 0x100000000;
    let lo: u64 = (d[at + 4] as u64) * 0x1000000 + (d[at + 5] as u64) * 0x10000 + (d[at
        + 6] as u64) * 0x100 + (d[at + 7] as u64);
    let v: u64 = hi + lo;
    proof {
        assert(b[0] == d@[at as int] && b[1] == d@[at as int + 1] && b[2] == d@[at as int + 2]
            && b[3] == d@[at as int + 3] && b[4] == d@[at as int + 4] && b[5] == d@[at as int + 5]
            && b[6] == d@[at as int + 6] && b[7] == d@[at as int + 7]);
        assert(v == be_u64(b));
    }
    if v >= 0x8000000000000000 {
        let w: u64 = 0xFFFFFFFFFFFFFFFF - v;
        -(w as i64) - 1
    } else {
        v as i64
    }
}

/// Copies `d[at ..]` into a fresh vector.
fn read_tail(d: &[u8], at: usize) -> (r: Vec<u8>)
    requires
        at <= d@.len(),
    ensures
        r@ == d@.skip(at as int),
{
    let mut r: Vec<u8> = Vec::new();
    let n: usize = d.len();
    let mut i: usize = at;
    while i < n
        invariant
            at <= i <= n,
            n == d@.len(),
            r@ == d@.subrange(at as int, i as int),
        decreases n - i,
    {
        r.push(d[i]);
        proof {
            assert(r@ =~= d@.subrange(at as int, i as int + 1));
        }
        i = i + 1;
    }
    proof {
        assert(d@.subrange(at as int, n as int) =~= d@.skip(at as int));
    }
    r
}

/// Parses exactly one record.  Succeeds if and only if `data` is a
/// well-formed record, and then returns the record `data` encodes; a
/// known tag with wrong framing is `BadLength`, an unknown tag is
/// `BadTag`.
#[verifier::loop_isolation(false)]
pub fn parse_capture_record(data: &[u8]) -> (r: Result<CaptureMessage, ParseError>)
    ensures
        match r {
            Ok(m) => spec_parse_record(data@) == Some(m.view()),
            Err(e) => spec_parse_record(data@) is None && (e == ParseError::BadTag <==> spec_bad_tag(
                data@,
            )),
        },
{
    if data.len() == 0 {
        return Err(ParseError::BadLength);
    }
    let tag: u8 = data[0];
    if tag == 1 {
        if data.len() < 15 {
            return Err(ParseError::BadLength);
        }
        let filename_len: u16 = read_u16(data, 13);
        if data.len() - 15 != filename_len as usize {
            return Err(ParseError::BadLength);
        }
        let monotonic_index: u32 = read_u32(data, 1);
        let begin_time: i64 = read_i64(data, 5);
        let filename: Vec<u8> = read_tail(data, 15);
        Ok(CaptureMessage::BeginUnit { monotonic_index, begin_time, filename })
    } else if tag == 2 {
        if data.len() < 14 {
            return Err(ParseError::BadLength);
        }
        let jpeg_len: u32 = read_u32(data, 10);
        if (data.len() - 14) as u64 != jpeg_len as u64 {
            return Err(ParseError::BadLength);
        }
        let resolution: u8 = data[1];
        let offset_us: i64 = read_i64(data, 2);
        let jpeg: Vec<u8> = read_tail(data, 14);
        Ok(CaptureMessage::Frame { resolution, offset_us, jpeg })
    } else if tag == 3 {
        if data.len() != 13 {
            return Err(ParseError::BadLength);
        }
        let end_time: i64 = read_i64(data, 1);
        let size: u32 = read_u32(data, 9);
        Ok(CaptureMessage::EndUnit { end_time, size })
    } else if tag == 4 {
        if data.len() < 4 {
            return Err(ParseError::BadLength);
        }
        let msg_len: u16 = read_u16(data, 2);
        if data.len() - 4 != msg_len as usize {
            return Err(ParseError::BadLength);
        }
        let level: u8 = data[1];
        let msg: Vec<u8> = read_tail(data, 4);
        Ok(CaptureMessage::Log { level, msg })
    } else {
        Err(ParseError::BadTag)
    }
}

/// Splits the first length-prefixed record off the front of a stream
/// buffer.  A record frame is a big-endian `u32` payload length
/// followed by the payload.  Returns the payload and the total bytes
/// consumed, or nothing while the buffer does not yet hold one whole
/// frame.
#[verifier::loop_isolation(false)]
pub fn extract_record(buf: &[u8]) -> (r: Option<(Vec<u8>, usize)>)
    ensures
        match r {
            Some(pair) => {
                &&& buf@.len() >= 4
                &&& 4 + be_u32(buf@.subrange(0, 4)) <= buf@.len()
                &&& pair.0@ == buf@.subrange(4, 4 + be_u32(buf@.subrange(0, 4)))
                &&& pair.1 == 4 + be_u32(buf@.subrange(0, 4))
            },
            None => buf@.len() < 4 || 4 + be_u32(buf@.subrange(0, 4)) > buf@.len(),
        },
{
    if buf.len() < 4 {
        return None;
    }
    let len: u32 = read_u32(buf, 0);
    if (len as u64) + 4 > buf.len() as u64 {
        return None;
    }
    let total: usize = len as usize + 4;
    let mut payload: Vec<u8> = Vec::new();
    let mut i: usize = 4;
    while i < total
        invariant
            4 <= i <= total,
            total <= buf@.len(),
            payload@ == buf@.subrange(4, i as int),
        decreases total - i,
    {
        payload.push(buf[i]);
        proof {
            assert(payload@ =~= buf@.subrange(4, i as int + 1));
        }
        i = i + 1;
    }
    Some((payload, total))
}

/// Whether a begin-unit with index `idx` is accepted in state `pre`,
/// leaving state `post`: the index must lie strictly above the
/// camera's watermark and fit the persisted row type.
pub open spec fn accepts_begin(pre: CaptureActor, idx: u32, post: CaptureActor) -> bool {
    &&& idx <= i32::MAX
    &&& match pre.last_monotonic_index {
        Option::Some(last) => last < idx,
        Option::None => true,
    }
    &&& post.last_monotonic_index == Some(idx)
}

/// The per-camera capture worker.  It drives one capture subprocess,
/// turns the subprocess's records into persistence requests and bus
/// frames, and enforces that segment indexes only move forward.
pub struct CaptureActor {
    /// id of the captured camera
    pub camera_id: i32,
    /// rtsp url the subprocess captures from
    pub stream_url: String,
    /// directory the subprocess records into
    pub storage_path: String,
    /// highest segment index accepted so far for this camera
    pub last_monotonic_index: Option<u32>,
    /// ids of the currently open (video unit, video file) rows
    pub current_unit: Option<(i32, i32)>,
}

impl CaptureActor {
    /// A fresh worker for one camera: no segment seen, none open.
    pub fn new(camera_id: i32, stream_url: String, storage_path: String) -> (r: Self)
        ensures
            r.camera_id == camera_id,
            r.stream_url == stream_url,
            r.storage_path == storage_path,
            r.last_monotonic_index is None,
            r.current_unit is None,
    {
        Self { camera_id, stream_url, storage_path, last_monotonic_index: None, current_unit: None }
    }

    /// Handles a begin-unit record: accepted exactly when the segment
    /// index lies strictly above this camera's watermark (and fits the
    /// row type), in which case the insert request for the new video
    /// unit and its in-progress file (size -1) is returned and the
    /// watermark advances.  A stale or oversized index is rejected and
    /// changes nothing.
    pub fn on_begin_unit(&mut self, monotonic_index: u32, begin_time: i64, filename: String) -> (r:
        Option<CreateVideoUnitFile>)
        ensures
            final(self).camera_id == old(self).camera_id,
            final(self).stream_url == old(self).stream_url,
            final(self).storage_path == old(self).storage_path,
            final(self).current_unit == old(self).current_unit,
            r is Some <==> (monotonic_index <= i32::MAX && match old(self).last_monotonic_index {
                Option::Some(last) => last < monotonic_index,
                Option::None => true,
            }),
            r is Some ==> accepts_begin(*old(self), monotonic_index, *final(self)) && r == Some(
                CreateVideoUnitFile {
                    camera_id: old(self).camera_id,
                    monotonic_index: monotonic_index as i32,
                    begin_time,
                    filename,
                },
            ),
            r is None ==> *final(self) == *old(self),
    {
        if monotonic_index > i32::MAX as u32 {
            return None;
        }
        let accept: bool = match self.last_monotonic_index {
            Option::Some(last) => last < monotonic_index,
            Option::None => true,
        };
        if !accept {
            return None;
        }
        self.last_monotonic_index = Some(monotonic_index);
        Some(
            CreateVideoUnitFile {
                camera_id: self.camera_id,
                monotonic_index: monotonic_index as i32,
                begin_time,
                filename,
            },
        )
    }

    /// Records the row ids the persistence layer assigned to the
    /// segment opened by the last begin-unit.
    pub fn on_unit_created(&mut self, video_unit_id: i32, video_file_id: i32)
        ensures
            *final(self) == (CaptureActor {
                current_unit: Some((video_unit_id, video_file_id)),
                ..*old(self)
            }),
    {
        self.current_unit = Some((video_unit_id, video_file_id));
    }

    /// Handles a frame record: a frame with a known resolution code
    /// (0 standard definition, 1 high definition) becomes a bus frame
    /// for this camera; any other code is dropped.
    pub fn on_frame(&self, resolution: u8, jpeg: Vec<u8>) -> (r: Option<CameraFrame>)
        ensures
            resolution == 0 ==> r == Some(
                CameraFrame {
                    camera_id: self.camera_id,
                    jpeg,
                    resolution: FrameResolution::SD,
                },
            ),
            resolution == 1 ==> r == Some(
                CameraFrame {
                    camera_id: self.camera_id,
                    jpeg,
                    resolution: FrameResolution::HD,
                },
            ),
            resolution > 1 ==> r is None,
    {
        if resolution == 0 {
            Some(CameraFrame { camera_id: self.camera_id, jpeg, resolution: FrameResolution::SD })
        } else if resolution == 1 {
            Some(CameraFrame { camera_id: self.camera_id, jpeg, resolution: FrameResolution::HD })
        } else {
            None
        }
    }

    /// Handles an end-unit record: when a segment is open and the
    /// final size fits the row type, the close request for its rows is
    /// returned and the segment is no longer open.  Without an open
    /// segment, or with an oversized file, nothing is emitted.
    pub fn on_end_unit(&mut self, end_time: i64, size: u32) -> (r: Option<UpdateVideoUnitFile>)
        ensures
            final(self).camera_id == old(self).camera_id,
            final(self).stream_url == old(self).stream_url,
            final(self).storage_path == old(self).storage_path,
            final(self).last_monotonic_index == old(self).last_monotonic_index,
            r is Some <==> (old(self).current_unit is Some && size <= i32::MAX),
            r is Some ==> ({
                let pair = old(self).current_unit->Some_0;
                final(self).current_unit is None && r == Some(
                    UpdateVideoUnitFile {
                        video_unit_id: pair.0,
                        end_time,
                        video_file_id: pair.1,
                        size: size as i32,
                    },
                )
            }),
            r is None ==> *final(self) == *old(self),
    {
        if size > i32::MAX as u32 {
            return None;
        }
        match self.current_unit {
            Option::Some(pair) => {
                self.current_unit = None;
                Some(
                    UpdateVideoUnitFile {
                        video_unit_id: pair.0,
                        end_time,
                        video_file_id: pair.1,
                        size: size as i32,
                    },
                )
            },
            Option::None => None,
        }
    }
}

/// Whether every byte of `bytes` is ASCII.
pub open spec fn spec_ascii(bytes: Seq<u8>) -> bool {
    forall|i: int| 0 <= i < bytes.len() ==> bytes[i] < 0x80
}

/// The characters of an ASCII byte string, one per byte.
pub open spec fn spec_ascii_chars(bytes: Seq<u8>) -> Seq<char> {
    Seq::new(bytes.len(), |i: int| bytes[i] as char)
}

/// Relies on `String::from_utf8`: it accepts exactly the valid UTF-8
/// byte strings, and ASCII bytes are valid UTF-8 that decodes to the
/// same characters.
#[verifier::external_body]
fn utf8_to_string(bytes: Vec<u8>) -> (r: Option<String>)
    ensures
        spec_ascii(bytes@) ==> match r {
            Option::Some(s) => s@ == spec_ascii_chars(bytes@),
            Option::None => false,
        },
{
    String::from_utf8(bytes).ok()
}

/// What the worker does with one subprocess record.
#[derive(Clone, Debug, PartialEq)]
pub enum CaptureOutcome {
    /// insert a fresh video unit and its in-progress file
    CreateUnit(CreateVideoUnitFile),
    /// publish a frame on the bus
    Publish(CameraFrame),
    /// close the open video unit's rows
    CloseUnit(UpdateVideoUnitFile),
    /// forward a subprocess log line to the observability sink
    Log {
        /// log level code
        level: u8,
        /// message bytes
        msg: Vec<u8>,
    },
    /// the record was dropped
    Nothing,
}

impl CaptureActor {
    /// Dispatches one parsed subprocess record: a begin-unit with a
    /// decodable filename and a fresh index opens a segment, a frame
    /// with a known resolution code is published, an end-unit closes
    /// the open segment, a log line is forwarded, and everything else
    /// is dropped without changing the worker.
    pub fn handle_message(&mut self, msg: CaptureMessage) -> (r: CaptureOutcome)
        ensures
            match msg {
                CaptureMessage::BeginUnit { monotonic_index, begin_time, filename } => {
                    &&& match r {
                        CaptureOutcome::CreateUnit(req) => {
                            &&& accepts_begin(*old(self), monotonic_index, *final(self))
                            &&& final(self).camera_id == old(self).camera_id
                            &&& final(self).stream_url == old(self).stream_url
                            &&& final(self).storage_path == old(self).storage_path
                            &&& final(self).current_unit == old(self).current_unit
                            &&& req.camera_id == old(self).camera_id
                            &&& req.monotonic_index == monotonic_index as i32
                            &&& req.begin_time == begin_time
                            &&& (spec_ascii(filename@) ==> req.filename@ == spec_ascii_chars(
                                filename@,
                            ))
                        },
                        CaptureOutcome::Nothing => *final(self) == *old(self),
                        _ => false,
                    }
                    &&& ((spec_ascii(filename@) && monotonic_index <= i32::MAX && match old(
                        self,
                    ).last_monotonic_index {
                        Option::Some(last) => last < monotonic_index,
                        Option::None => true,
                    }) ==> r matches CaptureOutcome::CreateUnit(_))
                },
                CaptureMessage::Frame { resolution, offset_us, jpeg } => {
                    &&& *final(self) == *old(self)
                    &&& (resolution == 0 ==> r == CaptureOutcome::Publish(
                        CameraFrame {
                            camera_id: old(self).camera_id,
                            jpeg,
                            resolution: FrameResolution::SD,
                        },
                    ))
                    &&& (resolution == 1 ==> r == CaptureOutcome::Publish(
                        CameraFrame {
                            camera_id: old(self).camera_id,
                            jpeg,
                            resolution: FrameResolution::HD,
                        },
                    ))
                    &&& (resolution > 1 ==> r == CaptureOutcome::Nothing)
                },
                CaptureMessage::EndUnit { end_time, size } => {
                    &&& final(self).camera_id == old(self).camera_id
                    &&& final(self).stream_url == old(self).stream_url
                    &&& final(self).storage_path == old(self).storage_path
                    &&& final(self).last_monotonic_index == old(self).last_monotonic_index
                    &&& ((old(self).current_unit is Some && size <= i32::MAX) ==> ({
                        let pair = old(self).current_unit->Some_0;
                        final(self).current_unit is None && r == CaptureOutcome::CloseUnit(
                            UpdateVideoUnitFile {
                                video_unit_id: pair.0,
                                end_time,
                                video_file_id: pair.1,
                                size: size as i32,
                            },
                        )
                    }))
                    &&& (!(old(self).current_unit is Some && size <= i32::MAX) ==> r
                        == CaptureOutcome::Nothing && *final(self) == *old(self))
                },
                CaptureMessage::Log { level, msg } => r == (CaptureOutcome::Log { level, msg })
                    && *final(self) == *old(self),
            },
    {
        match msg {
            CaptureMessage::BeginUnit { monotonic_index, begin_time, filename } => {
                match utf8_to_string(filename) {
                    Option::Some(name) => {
                        match self.on_begin_unit(monotonic_index, begin_time, name) {
                            Option::Some(req) => CaptureOutcome::CreateUnit(req),
                            Option::None => CaptureOutcome::Nothing,
                        }
                    },
                    Option::None => CaptureOutcome::Nothing,
                }
            },
            CaptureMessage::Frame { resolution, offset_us: _, jpeg } => {
                match self.on_frame(resolution, jpeg) {
                    Option::Some(frame) => CaptureOutcome::Publish(frame),
                    Option::None => CaptureOutcome::Nothing,
                }
            },
            CaptureMessage::EndUnit { end_time, size } => {
                match self.on_end_unit(end_time, size) {
                    Option::Some(update) => CaptureOutcome::CloseUnit(update),
                    Option::None => CaptureOutcome::Nothing,
                }
            },
            CaptureMessage::Log { level, msg } => CaptureOutcome::Log { level, msg },
        }
    }
}

/// Law: monotonicity.  Segment indexes a capture worker accepts are
/// strictly increasing: whatever happens between two accepted
/// begin-units, the second index lies strictly above the first (frame
/// and end-unit handling leave the watermark untouched, as their
/// contracts state).
pub proof fn lemma_monotonic_index(
    pre: CaptureActor,
    mid: CaptureActor,
    post: CaptureActor,
    idx1: u32,
    idx2: u32,
)
    requires
        accepts_begin(pre, idx1, mid),
        accepts_begin(mid, idx2, post),
    ensures
        idx1 < idx2,
{
}

} // verus!
