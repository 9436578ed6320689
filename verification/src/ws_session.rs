use vstd::prelude::*;

use base64::Engine;

use crate::ws_camera_server::{CameraFrame, FrameResolution, Subscribe, SubscriptionSubject,
    Unsubscribe};

verus! {

/// The base64 text, standard alphabet without padding, of a byte string.
pub uninterp spec fn base64_of(bytes: Seq<u8>) -> Seq<char>;

/// Relies on base64's `Engine::encode` with `STANDARD_NO_PAD`: the
/// encoding depends on the bytes alone and yields four characters for
/// every three bytes, rounded up.  The length bound keeps the engine's
/// internal buffer-size arithmetic from overflowing.
#[verifier::external_body]
fn base64_no_pad(bytes: &Vec<u8>) -> (r: String)
    requires
        bytes@.len() * 4 < usize::MAX,
    ensures
        r@ == base64_of(bytes@),
        r@.len() == (bytes@.len() * 4 + 2) / 3,
{
    base64::engine::general_purpose::STANDARD_NO_PAD.encode(bytes.as_slice())
}

/// Serializations available for a websocket connection, chosen at the
/// handshake.
#[derive(Clone, Copy, Debug, PartialEq, Eq, Structural)]
pub enum WsSerialization {
    /// MessagePack, delivered as binary frames
    MsgPack,
    /// Json, delivered as text frames
    Json,
}

/// A command from the client, carried over the websocket connection.
#[derive(Clone, Copy, Debug, PartialEq, Eq, Structural)]
pub enum WsCommand {
    /// Subscription request
    Subscribe(SubscriptionSubject),
    /// Unsubscription request
    Unsubscribe(SubscriptionSubject),
    /// Acknowledgement of one delivered frame
    Ack,
    /// Start playback of a recorded video unit
    StartPlayback {
        /// playback id, currently supplied by the client
        id: u64,
        /// id of the video unit to play
        video_unit_id: i32,
        /// initial offset to begin playback at
        offset: i32,
    },
    /// Stop a running playback
    StopPlayback {
        /// playback id, supplied by the client
        id: u64,
    },
}

/// The jpeg payload of an outbound frame, in the form the chosen
/// serialization carries it.
#[derive(Debug)]
pub enum FrameData {
    /// raw jpeg bytes, for binary MessagePack delivery
    Raw(Vec<u8>),
    /// base64 text of the jpeg bytes, for Json delivery
    Text(String),
}

/// A frame the session has decided to transmit to its client.
#[derive(Debug)]
pub struct OutboundFrame {
    /// id of the camera that produced the frame
    pub camera_id: i32,
    /// resolution of the frame
    pub resolution: FrameResolution,
    /// jpeg payload, encoded for the session's serialization
    pub jpeg: FrameData,
}

/// What the surroundings must do after the session handled a client
/// command.
#[derive(Clone, Copy, Debug, PartialEq, Eq, Structural)]
pub enum SessionAction {
    /// Register this session on the frame bus
    Subscribe(Subscribe),
    /// Deregister this session on the frame bus
    Unsubscribe(Unsubscribe),
    /// Look up the video unit and hand its first file to the playback
    /// supervisor
    StartPlayback {
        /// playback id
        id: u64,
        /// id of the video unit to play
        video_unit_id: i32,
        /// initial offset
        offset: i32,
    },
    /// Tear the playback down
    StopPlayback {
        /// playback id
        id: u64,
    },
}

/// Per-connection websocket session state: an ACK-windowed flow-control
/// loop over live frames.
pub struct WsSession {
    /// true while the transport buffer is drained and a send may start
    pub ready: bool,
    /// serialization chosen at the handshake
    pub serialization: WsSerialization,
    /// maximum number of frames in flight, between 1 and 10
    pub window_size: u32,
    /// current number of frames in flight
    pub live_frames: u32,
}

impl WsSession {
    /// The window stays between 1 and 10 and the in-flight count never
    /// passes 10.
    pub open spec fn wf(self) -> bool {
        &&& 1 <= self.window_size <= 10
        &&& self.live_frames <= 10
    }

    /// Whether the session may transmit another frame now.
    pub open spec fn spec_ready_to_send(self) -> bool {
        self.live_frames < self.window_size && self.ready
    }

    /// The window size after one adjustment: halved when saturated,
    /// grown by one when under, clamped to [1, 10].
    pub open spec fn spec_adjusted_window(live_frames: u32, window_size: u32) -> u32 {
        let halved = if live_frames == window_size {
            window_size / 2
        } else {
            window_size
        };
        let grown = if live_frames < halved {
            (halved + 1) as u32
        } else {
            halved
        };
        let floored = if grown == 0 {
            1u32
        } else {
            grown
        };
        if floored > 10 {
            10u32
        } else {
            floored
        }
    }

    /// A fresh session: ready, empty window of size one.
    pub fn new(serialization: WsSerialization) -> (r: Self)
        ensures
            r == (WsSession { ready: true, serialization, window_size: 1u32, live_frames: 0u32 }),
            r.wf(),
    {
        Self { ready: true, serialization, window_size: 1, live_frames: 0 }
    }

    /// Returns true exactly when the session may transmit another
    /// frame: the transport is ready and the window has room.
    pub fn ready_to_send(&self) -> (r: bool)
        ensures
            r == self.spec_ready_to_send(),
    {
        self.live_frames < self.window_size && self.ready
    }

    /// Acknowledges one delivered frame: decrements the in-flight
    /// count, saturating at zero (an ack at zero is a client error and
    /// changes nothing), and grows the window by one while it is under
    /// ten and no longer saturated.
    pub fn ack(&mut self)
        requires
            old(self).wf(),
        ensures
            final(self).wf(),
            old(self).live_frames == 0 ==> *final(self) == *old(self),
            old(self).live_frames > 0 ==> *final(self) == (WsSession {
                live_frames: (old(self).live_frames - 1) as u32,
                window_size: if old(self).live_frames - 1 < old(self).window_size && old(
                    self,
                ).window_size < 10 {
                    (old(self).window_size + 1) as u32
                } else {
                    old(self).window_size
                },
                ..*old(self)
            }),
    {
        if self.live_frames == 0 {
            return ;
        }
        self.live_frames = self.live_frames - 1;

        if self.live_frames < self.window_size && self.window_size < 10 {
            self.window_size = self.window_size + 1;
        }
    }

    /// Adjusts the window to the transport speed: halves it when
    /// saturated, grows it by one when under, and clamps it to [1, 10].
    pub fn adjust_window(&mut self)
        requires
            old(self).window_size <= 10,
        ensures
            *final(self) == (WsSession {
                window_size: Self::spec_adjusted_window(
                    old(self).live_frames,
                    old(self).window_size,
                ),
                ..*old(self)
            }),
            final(self).window_size >= 1,
            final(self).window_size <= 10,
    {
        if self.live_frames == self.window_size {
            self.window_size = self.window_size / 2;
        }

        if self.live_frames < self.window_size {
            self.window_size = self.window_size + 1;
        }

        if self.window_size == 0 {
            self.window_size = 1;
        }

        if self.window_size > 10 {
            self.window_size = 10;
        }
    }

    /// Marks the transport buffer as drained: the next frame may be
    /// sent.
    pub fn drained(&mut self)
        ensures
            *final(self) == (WsSession { ready: true, ..*old(self) }),
    {
        self.ready = true;
    }

    /// Decides the fate of one published frame.  While the session is
    /// not ready to send, the frame is dropped — live streaming is
    /// lossy under backpressure — and only the window is adjusted.
    /// Otherwise the frame is emitted for the session's serialization,
    /// the transport is marked busy until it drains, and the in-flight
    /// count grows by one, never passing the window.
    pub fn handle_frame(&mut self, frame: CameraFrame) -> (r: Option<OutboundFrame>)
        requires
            old(self).wf(),
            frame.jpeg@.len() * 4 < usize::MAX,
        ensures
            final(self).wf(),
            !old(self).spec_ready_to_send() ==> r is None && *final(self) == (WsSession {
                window_size: Self::spec_adjusted_window(
                    old(self).live_frames,
                    old(self).window_size,
                ),
                ..*old(self)
            }),
            old(self).spec_ready_to_send() ==> {
                &&& *final(self) == (WsSession {
                    ready: false,
                    live_frames: (old(self).live_frames + 1) as u32,
                    ..*old(self)
                })
                &&& final(self).live_frames <= final(self).window_size
                &&& match r {
                    Option::Some(out) => {
                        &&& out.camera_id == frame.camera_id
                        &&& out.resolution == frame.resolution
                        &&& match out.jpeg {
                            FrameData::Raw(bytes) => old(self).serialization
                                == WsSerialization::MsgPack && bytes@ == frame.jpeg@,
                            FrameData::Text(text) => old(self).serialization
                                == WsSerialization::Json && text@ == base64_of(frame.jpeg@),
                        }
                    },
                    Option::None => false,
                }
            },
    {
        if !self.ready_to_send() {
            self.adjust_window();
            return None;
        }
        // hold the transport until its buffer drains
        self.ready = false;
        self.live_frames = self.live_frames + 1;

        let jpeg = match self.serialization {
            WsSerialization::MsgPack => FrameData::Raw(frame.jpeg),
            WsSerialization::Json => FrameData::Text(base64_no_pad(&frame.jpeg)),
        };
        Some(OutboundFrame { camera_id: frame.camera_id, resolution: frame.resolution, jpeg })
    }

    /// Interprets one client command.  `Ack` acts on the session's own
    /// window; every other command becomes the action the surroundings
    /// must carry out, with this session (`client`) as the subscriber.
    pub fn handle_command(&mut self, cmd: WsCommand, client: u64) -> (r: Option<SessionAction>)
        requires
            old(self).wf(),
        ensures
            final(self).wf(),
            match cmd {
                WsCommand::Subscribe(subject) => r == Some(
                    SessionAction::Subscribe(
                        Subscribe {
                            camera_id: subject.camera_id,
                            client,
                            resolution: subject.resolution,
                        },
                    ),
                ) && *final(self) == *old(self),
                WsCommand::Unsubscribe(subject) => r == Some(
                    SessionAction::Unsubscribe(
                        Unsubscribe {
                            camera_id: subject.camera_id,
                            client,
                            resolution: subject.resolution,
                        },
                    ),
                ) && *final(self) == *old(self),
                WsCommand::StartPlayback { id, video_unit_id, offset } => r == Some(
                    SessionAction::StartPlayback { id, video_unit_id, offset },
                ) && *final(self) == *old(self),
                WsCommand::StopPlayback { id } => r == Some(SessionAction::StopPlayback { id })
                    && *final(self) == *old(self),
                WsCommand::Ack => r is None && (old(self).live_frames == 0 ==> *final(self) == *old(
                    self,
                )) && (old(self).live_frames > 0 ==> *final(self) == (WsSession {
                    live_frames: (old(self).live_frames - 1) as u32,
                    window_size: if old(self).live_frames - 1 < old(self).window_size && old(
                        self,
                    ).window_size < 10 {
                        (old(self).window_size + 1) as u32
                    } else {
                        old(self).window_size
                    },
                    ..*old(self)
                })),
            },
    {
        match cmd {
            WsCommand::Subscribe(subject) => Some(
                SessionAction::Subscribe(
                    Subscribe {
                        camera_id: subject.camera_id,
                        client,
                        resolution: subject.resolution,
                    },
                ),
            ),
            WsCommand::Unsubscribe(subject) => Some(
                SessionAction::Unsubscribe(
                    Unsubscribe {
                        camera_id: subject.camera_id,
                        client,
                        resolution: subject.resolution,
                    },
                ),
            ),
            WsCommand::StartPlayback { id, video_unit_id, offset } => Some(
                SessionAction::StartPlayback { id, video_unit_id, offset },
            ),
            WsCommand::StopPlayback { id } => Some(SessionAction::StopPlayback { id }),
            WsCommand::Ack => {
                self.ack();
                None
            },
        }
    }
}

/// Law: a session transmits only while it is ready and its window has
/// room, and a transmission never lifts the in-flight count above the
/// window.
pub proof fn lemma_flow_control_safety(pre: WsSession, post: WsSession)
    requires
        pre.wf(),
        pre.spec_ready_to_send(),
        post == (WsSession { ready: false, live_frames: (pre.live_frames + 1) as u32, ..pre }),
    ensures
        pre.ready,
        post.live_frames <= post.window_size,
{
}

} // verus!
