use vstd::prelude::*;

verus! {

/// Available frame resolutions.
#[derive(Clone, Copy, Debug, PartialEq, Eq, Structural, Hash)]
pub enum FrameResolution {
    /// Standard definition, 480p
    SD,
    /// High definition, camera native resolution
    HD,
}

/// Origin of a frame, carried so consumers can route by source.
#[derive(Clone, Copy, Debug, PartialEq, Eq, Structural, Hash)]
pub enum FrameSource {
    /// A live camera, by camera id
    Camera(i32),
    /// An analysis instance republishing annotated frames, by instance id
    AnalysisInstance(i32),
    /// A playback decoder, by playback id
    Playback(i32),
}

/// One stream on the frame bus: a camera at one resolution.
#[derive(Clone, Copy, Debug, PartialEq, Eq, Structural, Hash)]
pub struct FrameType {
    /// id of the camera producing the stream
    pub camera_id: i32,
    /// resolution of the stream
    pub resolution: FrameResolution,
}

/// A stream a websocket client may subscribe to.
#[derive(Clone, Copy, Debug, PartialEq, Eq, Structural)]
pub struct SubscriptionSubject {
    /// id of the camera
    pub camera_id: i32,
    /// requested resolution
    pub resolution: FrameResolution,
}

/// One frame of video on the bus.
#[derive(Clone, Debug, PartialEq)]
pub struct CameraFrame {
    /// id of the camera that produced the frame
    pub camera_id: i32,
    /// jpeg image data
    pub jpeg: Vec<u8>,
    /// resolution of the frame
    pub resolution: FrameResolution,
}

impl CameraFrame {
    /// The stream this frame belongs to.
    pub open spec fn key(self) -> FrameType {
        FrameType { camera_id: self.camera_id, resolution: self.resolution }
    }
}

/// Request to start delivering one stream to a client.
#[derive(Clone, Copy, Debug, PartialEq, Eq, Structural)]
pub struct Subscribe {
    /// id of the camera
    pub camera_id: i32,
    /// token of the client session frames are delivered to
    pub client: u64,
    /// requested resolution
    pub resolution: FrameResolution,
}

/// Request to stop delivering one stream to a client.
#[derive(Clone, Copy, Debug, PartialEq, Eq, Structural)]
pub struct Unsubscribe {
    /// id of the camera
    pub camera_id: i32,
    /// token of the client session to stop delivering to
    pub client: u64,
    /// resolution to stop delivering
    pub resolution: FrameResolution,
}

/// One edge of the subscription relation: a client listening to a stream.
#[derive(Clone, Copy, Debug, PartialEq, Eq, Structural)]
pub struct SubscriptionEdge {
    /// the stream
    pub key: FrameType,
    /// token of the listening client
    pub client: u64,
}

/// Whether some entry of `s` is exactly the edge `(key, client)`.
pub open spec fn has_edge(s: Seq<SubscriptionEdge>, key: FrameType, client: u64) -> bool {
    exists|i: int| 0 <= i < s.len() && s[i] == (SubscriptionEdge { key, client })
}

/// Appending an edge adds exactly that edge to the relation.
proof fn lemma_has_edge_push(s: Seq<SubscriptionEdge>, e: SubscriptionEdge, k: FrameType, c: u64)
    ensures
        has_edge(s.push(e), k, c) <==> (has_edge(s, k, c) || e == (SubscriptionEdge {
            key: k,
            client: c,
        })),
{
    if has_edge(s.push(e), k, c) {
        let i = choose|i: int|
            0 <= i < s.push(e).len() && s.push(e)[i] == (SubscriptionEdge { key: k, client: c });
        if i < s.len() {
            assert(s[i] == (SubscriptionEdge { key: k, client: c }));
        }
    }
    if has_edge(s, k, c) {
        let i = choose|i: int|
            0 <= i < s.len() && s[i] == (SubscriptionEdge { key: k, client: c });
        assert(s.push(e)[i] == (SubscriptionEdge { key: k, client: c }));
    }
    if e == (SubscriptionEdge { key: k, client: c }) {
        assert(s.push(e)[s.len() as int] == e);
    }
}

/// Removing the only copy of an edge removes exactly that edge from the
/// relation.
proof fn lemma_has_edge_remove(s: Seq<SubscriptionEdge>, r: int, k: FrameType, c: u64)
    requires
        0 <= r < s.len(),
        forall|i: int, j: int| 0 <= i < j < s.len() ==> s[i] != s[j],
    ensures
        has_edge(s.remove(r), k, c) <==> (has_edge(s, k, c) && s[r] != (SubscriptionEdge {
            key: k,
            client: c,
        })),
{
    s.remove_ensures(r);
    let e = SubscriptionEdge { key: k, client: c };
    if has_edge(s.remove(r), k, c) {
        let i = choose|i: int| 0 <= i < s.remove(r).len() && s.remove(r)[i] == e;
        if i < r {
            assert(s[i] == e);
            assert(s[r] != e);
        } else {
            assert(s[i + 1] == e);
            assert(s[r] != e);
        }
    }
    if has_edge(s, k, c) && s[r] != e {
        let i = choose|i: int| 0 <= i < s.len() && s[i] == e;
        if i < r {
            assert(s.remove(r)[i] == e);
        } else {
            assert(i > r);
            assert(s.remove(r)[i - 1] == e);
        }
    }
}

/// The frame bus: routes published frames to every client subscribed to
/// the frame's stream.  Slow clients are handled by the sessions' own
/// windowing, never here.
pub struct WsCameraServer {
    /// every (stream, client) subscription edge, each at most once
    pub subscriptions: Vec<SubscriptionEdge>,
}

impl Default for WsCameraServer {
    /// A bus with no subscriptions.
    fn default() -> (r: Self)
        ensures
            r.wf(),
            forall|k: FrameType| r.subscribers(k) == Set::<u64>::empty(),
    {
        let r = WsCameraServer { subscriptions: Vec::new() };
        proof {
            assert forall|k: FrameType| r.subscribers(k) =~= Set::<u64>::empty() by {
                assert(forall|c: u64| !has_edge(r.subscriptions@, k, c));
            }
        }
        r
    }
}

impl WsCameraServer {
    /// The subscription relation holds each edge at most once.
    pub open spec fn wf(self) -> bool {
        forall|i: int, j: int|
            0 <= i < j < self.subscriptions@.len() ==> self.subscriptions@[i]
                != self.subscriptions@[j]
    }

    /// The set of clients subscribed to `key`.
    pub open spec fn subscribers(self, key: FrameType) -> Set<u64> {
        Set::new(|c: u64| has_edge(self.subscriptions@, key, c))
    }

    /// Adds `client` as a subscriber of `(camera_id, resolution)`.
    /// Idempotent: returns true exactly when the client was not already
    /// subscribed.  No other stream's subscribers change.
    #[verifier::loop_isolation(false)]
    pub fn add_subscriber(&mut self, camera_id: i32, client: u64, resolution: FrameResolution)
        -> (r: bool)
        requires
            old(self).wf(),
        ensures
            final(self).wf(),
            ({
                let key = FrameType { camera_id, resolution };
                &&& r == !old(self).subscribers(key).contains(client)
                &&& final(self).subscribers(key) == old(self).subscribers(key).insert(client)
                &&& forall|k: FrameType|
                    k != key ==> final(self).subscribers(k) == old(self).subscribers(k)
            }),
    {
        let key = FrameType { camera_id, resolution };
        let edge = SubscriptionEdge { key, client };
        let n: usize = self.subscriptions.len();
        let mut i: usize = 0;
        while i < n
            invariant
                i <= n,
                forall|j: int| 0 <= j < i ==> self.subscriptions@[j] != edge,
            decreases n - i,
        {
            if self.subscriptions[i] == edge {
                proof {
                    assert(has_edge(self.subscriptions@, key, client));
                    assert(self.subscribers(key).insert(client) =~= self.subscribers(key));
                }
                return false;
            }
            i = i + 1;
        }
        proof {
            assert(!has_edge(self.subscriptions@, key, client));
        }
        let ghost pre = self.subscriptions@;
        self.subscriptions.push(edge);
        proof {
            assert(self.subscriptions@ == pre.push(edge));
            assert forall|a: int, b: int|
                0 <= a < b < self.subscriptions@.len() implies self.subscriptions@[a]
                != self.subscriptions@[b] by {
                if b == pre.len() {
                    if pre[a] == edge {
                        assert(has_edge(pre, key, client));
                    }
                }
            }
            assert forall|k: FrameType, c: u64| #[trigger]
                has_edge(self.subscriptions@, k, c) <==> (has_edge(pre, k, c) || (k == key && c
                    == client)) by {
                lemma_has_edge_push(pre, edge, k, c);
            }
            assert(self.subscribers(key) =~= old(self).subscribers(key).insert(client));
            assert forall|k: FrameType| k != key implies self.subscribers(k) == old(
                self,
            ).subscribers(k) by {
                assert(self.subscribers(k) =~= old(self).subscribers(k));
            }
        }
        true
    }

    /// Removes `client` as a subscriber of `(camera_id, resolution)`.
    /// Idempotent: removing an absent subscriber changes nothing.  No
    /// other stream's subscribers change.
    #[verifier::loop_isolation(false)]
    pub fn remove_subscriber(&mut self, camera_id: i32, client: u64, resolution: FrameResolution)
        requires
            old(self).wf(),
        ensures
            final(self).wf(),
            ({
                let key = FrameType { camera_id, resolution };
                &&& final(self).subscribers(key) == old(self).subscribers(key).remove(client)
                &&& forall|k: FrameType|
                    k != key ==> final(self).subscribers(k) == old(self).subscribers(k)
            }),
    {
        let key = FrameType { camera_id, resolution };
        let edge = SubscriptionEdge { key, client };
        let n: usize = self.subscriptions.len();
        let mut i: usize = 0;
        while i < n
            invariant
                i <= n,
                *self == *old(self),
                n == self.subscriptions@.len(),
                forall|j: int| 0 <= j < i ==> self.subscriptions@[j] != edge,
            decreases n - i,
        {
            if self.subscriptions[i] == edge {
                let ghost pre = self.subscriptions@;
                let ghost rem = i as int;
                self.subscriptions.remove(i);
                proof {
                    assert(self.subscriptions@ == pre.remove(rem));
                    pre.remove_ensures(rem);
                    assert forall|a: int, b: int|
                        0 <= a < b < self.subscriptions@.len() implies self.subscriptions@[a]
                        != self.subscriptions@[b] by {
                        if b < rem {
                            assert(self.subscriptions@[a] == pre[a]);
                            assert(self.subscriptions@[b] == pre[b]);
                        } else if a < rem {
                            assert(self.subscriptions@[a] == pre[a]);
                            assert(self.subscriptions@[b] == pre[b + 1]);
                        } else {
                            assert(self.subscriptions@[a] == pre[a + 1]);
                            assert(self.subscriptions@[b] == pre[b + 1]);
                        }
                    }
                    assert forall|k: FrameType, c: u64| #[trigger]
                        has_edge(self.subscriptions@, k, c) <==> (has_edge(pre, k, c) && pre[rem]
                            != (SubscriptionEdge { key: k, client: c })) by {
                        lemma_has_edge_remove(pre, rem, k, c);
                    }
                    assert(self.subscribers(key) =~= old(self).subscribers(key).remove(client));
                    assert forall|k: FrameType| k != key implies self.subscribers(k) == old(
                        self,
                    ).subscribers(k) by {
                        assert forall|c: u64|
                            has_edge(self.subscriptions@, k, c) <==> has_edge(pre, k, c) by {
                            assert(pre[rem] == edge);
                        }
                        assert(self.subscribers(k) =~= old(self).subscribers(k));
                    }
                }
                return ;
            }
            i = i + 1;
        }
        proof {
            assert(!has_edge(self.subscriptions@, key, client));
            assert(self.subscribers(key).remove(client) =~= self.subscribers(key));
        }
    }

    /// Returns the clients a published frame must be delivered to:
    /// exactly the subscribers of the frame's stream, each once.
    /// Subscribers of every other stream receive nothing.  The bus
    /// itself never blocks; a failed delivery is reported back as an
    /// `Unsubscribe`.
    #[verifier::loop_isolation(false)]
    pub fn send_frame(&self, frame: &CameraFrame) -> (r: Vec<u64>)
        requires
            self.wf(),
        ensures
            forall|c: u64| #[trigger] r@.contains(c) <==> self.subscribers(frame.key()).contains(c),
            r@.no_duplicates(),
    {
        let key = FrameType { camera_id: frame.camera_id, resolution: frame.resolution };
        let mut r: Vec<u64> = Vec::new();
        let n: usize = self.subscriptions.len();
        let mut i: usize = 0;
        while i < n
            invariant
                i <= n,
                forall|c: u64| #[trigger]
                    r@.contains(c) <==> has_edge(self.subscriptions@.take(i as int), key, c),
                r@.no_duplicates(),
            decreases n - i,
        {
            let ghost prefix = self.subscriptions@.take(i as int);
            let ghost next = self.subscriptions@.take(i as int + 1);
            let entry = self.subscriptions[i];
            proof {
                assert(next =~= prefix.push(entry));
            }
            if entry.key == key {
                let ghost c0 = entry.client;
                proof {
                    assert(entry == (SubscriptionEdge { key, client: c0 }));
                    // a second copy of this edge earlier in the list would
                    // contradict edge uniqueness
                    if r@.contains(c0) {
                        assert(has_edge(prefix, key, c0));
                        let j = choose|j: int|
                            0 <= j < prefix.len() && prefix[j] == (SubscriptionEdge {
                                key,
                                client: c0,
                            });
                        assert(self.subscriptions@[j] == self.subscriptions@[i as int]);
                        assert(false);
                    }
                }
                let ghost r_pre = r@;
                r.push(entry.client);
                proof {
                    assert forall|c: u64| #[trigger]
                        r@.contains(c) <==> has_edge(next, key, c) by {
                        lemma_has_edge_push(prefix, entry, key, c);
                        if r@.contains(c) {
                            let j = choose|j: int| 0 <= j < r@.len() && r@[j] == c;
                            if j < r_pre.len() {
                                assert(r_pre[j] == c);
                                assert(r_pre.contains(c));
                            } else {
                                assert(c == c0);
                            }
                        }
                        if has_edge(next, key, c) {
                            if has_edge(prefix, key, c) {
                                assert(r_pre.contains(c));
                                let j = choose|j: int| 0 <= j < r_pre.len() && r_pre[j] == c;
                                assert(r@[j] == c);
                            } else {
                                assert(c == c0);
                                assert(r@[r_pre.len() as int] == c);
                            }
                        }
                    }
                    assert forall|a: int, b: int| 0 <= a < b < r@.len() implies r@[a] != r@[b] by {
                        if b == r_pre.len() {
                            assert(r@[a] == r_pre[a]);
                            if r_pre[a] == c0 {
                                assert(r_pre.contains(c0));
                            }
                        } else {
                            assert(r@[a] == r_pre[a]);
                            assert(r@[b] == r_pre[b]);
                        }
                    }
                }
            } else {
                proof {
                    assert forall|c: u64| #[trigger]
                        r@.contains(c) <==> has_edge(next, key, c) by {
                        lemma_has_edge_push(prefix, entry, key, c);
                        if entry == (SubscriptionEdge { key, client: c }) {
                            assert(entry.key == key);
                        }
                    }
                }
            }
            i = i + 1;
        }
        proof {
            assert(self.subscriptions@.take(n as int) =~= self.subscriptions@);
            assert forall|c: u64| #[trigger]
                r@.contains(c) <==> self.subscribers(frame.key()).contains(c) by {
                assert(frame.key() == key);
            }
        }
        r
    }
}

} // verus!
