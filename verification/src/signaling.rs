//! Real-time signaling: offer/answer negotiation against the registry,
//! per-session bookkeeping, and the inactivity reaper.

use vstd::prelude::*;
use vstd::string::*;
use crate::error::{StreamError, StreamResult};
use crate::ext::{fresh_id, now_millis};
use crate::protocol::{ViewProtocol, ViewerConnection, WebRtcSignal};
use crate::stream::{lemma_id_set_push, spec_info_with_count, StreamManager};
use crate::strutil::{spec_uint_string, u64_to_string};

verus! {

/// How long a session may stay inactive before the reaper removes it:
/// strictly more than five whole minutes.
pub open spec fn spec_session_expired(last_activity: u64, now: u64) -> bool {
    now >= last_activity && (now - last_activity) / 60000 > 5
}

/// The exact answer text produced for an offer at `secs` seconds since
/// the epoch: a fixed sendonly H.264/Opus session description.
pub open spec fn spec_answer_sdp(secs: u64) -> Seq<char> {
    "v=0\r\no=- "@ + spec_uint_string(secs as nat)
        + " 2 IN IP4 127.0.0.1\r\ns=-\r\nt=0 0\r\nm=video 9 UDP/TLS/RTP/SAVPF 96\r\na=rtpmap:96 H264/90000\r\na=sendonly\r\nm=audio 9 UDP/TLS/RTP/SAVPF 97\r\na=rtpmap:97 OPUS/48000/2\r\na=sendonly\r\n"@
}

/// Renders the answer text for an offer handled at `secs` seconds since
/// the epoch.
fn answer_sdp(secs: u64) -> (s: String)
    ensures
        s@ == spec_answer_sdp(secs),
{
    let mut s = String::new();
    s.append("v=0\r\no=- ");
    let t = u64_to_string(secs);
    s.append(t.as_str());
    s.append(
        " 2 IN IP4 127.0.0.1\r\ns=-\r\nt=0 0\r\nm=video 9 UDP/TLS/RTP/SAVPF 96\r\na=rtpmap:96 H264/90000\r\na=sendonly\r\nm=audio 9 UDP/TLS/RTP/SAVPF 97\r\na=rtpmap:97 OPUS/48000/2\r\na=sendonly\r\n",
    );
    proof {
        assert(s@ =~= spec_answer_sdp(secs));
    }
    s
}

/// One viewer's negotiation session.
pub struct WebRtcPeerConnection {
    id: u128,
    stream_key: String,
    created_at: u64,
    last_activity: u64,
}

/// The mathematical value of a session.
pub struct WebRtcPeerConnectionView {
    pub id: u128,
    pub stream_key: Seq<char>,
    pub created_at: u64,
    pub last_activity: u64,
}

impl View for WebRtcPeerConnection {
    type V = WebRtcPeerConnectionView;

    closed spec fn view(&self) -> WebRtcPeerConnectionView {
        WebRtcPeerConnectionView {
            id: self.id,
            stream_key: self.stream_key@,
            created_at: self.created_at,
            last_activity: self.last_activity,
        }
    }
}

impl WebRtcPeerConnection {
    /// A session created at instant `now_ms`.
    pub fn new(id: u128, stream_key: String, now_ms: u64) -> (c: WebRtcPeerConnection)
        ensures
            c@ == (WebRtcPeerConnectionView {
                id,
                stream_key: stream_key@,
                created_at: now_ms,
                last_activity: now_ms,
            }),
    {
        WebRtcPeerConnection { id, stream_key, created_at: now_ms, last_activity: now_ms }
    }

    /// Produces the answer to an offer and records the activity.
    pub fn handle_offer(&mut self, offer_sdp: &str, now_ms: u64) -> (sdp: String)
        ensures
            sdp@ == spec_answer_sdp(now_ms / 1000),
            final(self)@ == (WebRtcPeerConnectionView {
                last_activity: now_ms,
                ..old(self)@
            }),
    {
        self.last_activity = now_ms;
        answer_sdp(now_ms / 1000)
    }

    /// Whether the session has been inactive past the expiry threshold at
    /// instant `now_ms`.
    pub fn is_expired(&self, now_ms: u64) -> (r: bool)
        ensures
            r == spec_session_expired(self@.last_activity, now_ms),
    {
        now_ms >= self.last_activity && (now_ms - self.last_activity) / 60000 > 5
    }

    /// The session's id.
    pub fn get_id(&self) -> (r: u128)
        ensures
            r == self@.id,
    {
        self.id
    }

    /// The key of the stream the session watches.
    pub fn get_stream_key(&self) -> (r: &String)
        ensures
            r@ == self@.stream_key,
    {
        &self.stream_key
    }

    /// The instant of the session's last activity.
    pub fn get_last_activity(&self) -> (r: u64)
        ensures
            r == self@.last_activity,
    {
        self.last_activity
    }
}

/// The ids of a list of sessions, in order.
pub open spec fn spec_session_ids(s: Seq<WebRtcPeerConnectionView>) -> Seq<u128> {
    s.map_values(|c: WebRtcPeerConnectionView| c.id)
}

/// The signaling handler: resolves offers against the registry, registers
/// sessions and viewers, and answers.
pub struct WebRtcSignalingHandler {
    sessions: Vec<WebRtcPeerConnection>,
}

impl WebRtcSignalingHandler {
    /// The registered sessions, in registration order.
    pub closed spec fn sessions(&self) -> Seq<WebRtcPeerConnectionView> {
        self.sessions@.map_values(|c: WebRtcPeerConnection| c@)
    }

    /// Internal shape: session ids are distinct.
    pub open spec fn wf(&self) -> bool {
        spec_session_ids(self.sessions()).no_duplicates()
    }

    /// A handler with no sessions.
    pub fn new() -> (h: WebRtcSignalingHandler)
        ensures
            h.wf(),
            h.sessions().len() == 0,
    {
        let h = WebRtcSignalingHandler { sessions: Vec::new() };
        proof {
            assert(h.sessions() =~= Seq::<WebRtcPeerConnectionView>::empty());
            assert(spec_session_ids(h.sessions()) =~= Seq::<u128>::empty());
        }
        h
    }

    /// How many sessions are registered.
    pub fn session_count(&self) -> (n: usize)
        ensures
            n == self.sessions().len(),
    {
        self.sessions.len()
    }

    /// Handles one signaling message at instant `now_ms`, registering any
    /// new session under `session_id`.
    ///
    /// An offer for an unregistered stream fails with `StreamNotFound` and
    /// changes nothing. An offer for a registered stream registers a
    /// session, registers a viewer against the stream (yielding its init
    /// sequence, which the transport delivers), and returns the answer.
    /// Candidates and all other variants are acknowledged as no-ops.
    pub fn handle_signal_at(
        &mut self,
        signal: WebRtcSignal,
        registry: &mut StreamManager,
        now_ms: u64,
        session_id: u128,
    ) -> (r: StreamResult<Option<WebRtcSignal>>)
        requires
            old(self).wf(),
            old(registry).wf(),
            forall|k: Seq<char>|
                old(registry).has_stream(k) ==> (#[trigger] old(registry).stream_at(
                    k,
                )).viewers().len() < u32::MAX,
        ensures
            final(self).wf(),
            final(registry).wf(),
            match signal {
                WebRtcSignal::Offer { stream_key, sdp } => {
                    if !old(registry).has_stream(stream_key@) {
                        &&& r matches Err(e) && e is StreamNotFound
                        &&& final(self).sessions() == old(self).sessions()
                        &&& final(registry).streams() == old(registry).streams()
                    } else {
                        &&& r matches Ok(Some(a)) && a matches WebRtcSignal::Answer { sdp: asdp }
                            && asdp@ == spec_answer_sdp(now_ms / 1000)
                        &&& spec_session_ids(final(self).sessions()).to_set()
                            == spec_session_ids(old(self).sessions()).to_set().insert(session_id)
                        &&& final(self).sessions().contains(
                            WebRtcPeerConnectionView {
                                id: session_id,
                                stream_key: stream_key@,
                                created_at: now_ms,
                                last_activity: now_ms,
                            },
                        )
                        &&& final(registry).has_stream(stream_key@)
                        &&& ({
                            let s0 = old(registry).stream_at(stream_key@);
                            let s1 = final(registry).stream_at(stream_key@);
                            &&& s1.viewer_ids() == s0.viewer_ids().insert(session_id)
                            &&& s1.status() == s0.status()
                            &&& s1.cache() == s0.cache()
                            &&& s1.info() == spec_info_with_count(
                                s0.info(),
                                s1.viewers().len() as u32,
                            )
                        })
                        &&& forall|k: Seq<char>|
                            k != stream_key@ ==> #[trigger] final(registry).has_stream(k)
                                == old(registry).has_stream(k)
                        &&& forall|k: Seq<char>|
                            k != stream_key@ && old(registry).has_stream(k)
                                ==> #[trigger] final(registry).stream_at(k)
                                == old(registry).stream_at(k)
                    }
                },
                _ => {
                    &&& r matches Ok(None)
                    &&& final(self).sessions() == old(self).sessions()
                    &&& final(registry).streams() == old(registry).streams()
                },
            },
    {
        match signal {
            WebRtcSignal::Offer { stream_key, sdp } => {
                let ghost ss0 = old(self).sessions();
                match registry.get_stream(stream_key.as_str()) {
                    Some(_) => {},
                    None => {
                        return Err(StreamError::StreamNotFound(stream_key));
                    },
                }
                let mut session = WebRtcPeerConnection::new(
                    session_id,
                    clone_string(&stream_key),
                    now_ms,
                );
                let answer = session.handle_offer(sdp.as_str(), now_ms);
                let viewer = ViewerConnection {
                    id: session_id,
                    remote_addr: String::from_str("0.0.0.0:0"),
                    connected_at: now_ms,
                    protocol: ViewProtocol::WebRtc,
                    stream_key: clone_string(&stream_key),
                };
                let _init = match registry.add_viewer(stream_key.as_str(), viewer) {
                    Ok(init) => init,
                    Err(_) => Vec::new(),
                };
                let ghost sv = WebRtcPeerConnectionView {
                    id: session_id,
                    stream_key: stream_key@,
                    created_at: now_ms,
                    last_activity: now_ms,
                };
                match find_session_index(&self.sessions, session_id) {
                    Some(si) => {
                        self.sessions.set(si, session);
                        proof {
                            assert(self.sessions() =~= ss0.update(si as int, sv));
                            assert(spec_session_ids(self.sessions()) =~= spec_session_ids(
                                ss0,
                            ).update(si as int, session_id));
                            assert(spec_session_ids(ss0).update(si as int, session_id)
                                =~= spec_session_ids(ss0));
                            assert(spec_session_ids(ss0)[si as int] == session_id);
                            assert(spec_session_ids(ss0).contains(session_id));
                            assert(spec_session_ids(self.sessions()).to_set()
                                =~= spec_session_ids(ss0).to_set().insert(session_id));
                            assert(self.sessions()[si as int] == sv);
                            assert(self.sessions().contains(sv));
                        }
                    },
                    None => {
                        self.sessions.push(session);
                        proof {
                            assert(self.sessions() =~= ss0.push(sv));
                            assert(spec_session_ids(self.sessions()) =~= spec_session_ids(
                                ss0,
                            ).push(session_id));
                            assert(!spec_session_ids(ss0).contains(session_id));
                            assert(spec_session_ids(self.sessions()).no_duplicates());
                            lemma_id_set_push(spec_session_ids(ss0), session_id);
                            assert(self.sessions().last() == sv);
                            assert(self.sessions().contains(sv));
                        }
                    },
                }
                Ok(Some(WebRtcSignal::Answer { sdp: answer }))
            },
            WebRtcSignal::IceCandidate { .. } => {
                // Association with a transport-level peer is the
                // transport's part; no normative transformation applies.
                Ok(None)
            },
            _ => Ok(None),
        }
    }

    /// Handles one signaling message now, drawing the instant from the
    /// clock and any new session id from the id generator (see
    /// `handle_signal_at` for the exact effect at a given instant and id).
    pub fn handle_signal(&mut self, signal: WebRtcSignal, registry: &mut StreamManager) -> (r:
        StreamResult<Option<WebRtcSignal>>)
        requires
            old(self).wf(),
            old(registry).wf(),
            forall|k: Seq<char>|
                old(registry).has_stream(k) ==> (#[trigger] old(registry).stream_at(
                    k,
                )).viewers().len() < u32::MAX,
        ensures
            final(self).wf(),
            final(registry).wf(),
            match signal {
                WebRtcSignal::Offer { stream_key, sdp } => {
                    if !old(registry).has_stream(stream_key@) {
                        &&& r matches Err(e) && e is StreamNotFound
                        &&& final(self).sessions() == old(self).sessions()
                        &&& final(registry).streams() == old(registry).streams()
                    } else {
                        r matches Ok(Some(a)) && a is Answer
                    }
                },
                _ => {
                    &&& r matches Ok(None)
                    &&& final(self).sessions() == old(self).sessions()
                    &&& final(registry).streams() == old(registry).streams()
                },
            },
    {
        let now_ms = now_millis();
        let session_id = fresh_id();
        self.handle_signal_at(signal, registry, now_ms, session_id)
    }

    /// The reaper sweep at instant `now_ms`: removes exactly the sessions
    /// whose last activity lies past the expiry threshold, keeping the
    /// rest in order.
    pub fn cleanup_connections(&mut self, now_ms: u64)
        requires
            old(self).wf(),
        ensures
            final(self).wf(),
            final(self).sessions() == old(self).sessions().filter(
                |c: WebRtcPeerConnectionView| !spec_session_expired(c.last_activity, now_ms),
            ),
    {
        let ghost ss0 = old(self).sessions();
        let ghost pred = |c: WebRtcPeerConnectionView|
            !spec_session_expired(c.last_activity, now_ms);
        let mut kept: Vec<WebRtcPeerConnection> = Vec::new();
        let n = self.sessions.len();
        let mut i: usize = 0;
        while i < n
            invariant
                n == self.sessions@.len(),
                self.sessions() == ss0,
                i <= n,
                kept@.map_values(|c: WebRtcPeerConnection| c@) == ss0.take(i as int).filter(pred),
                pred == (|c: WebRtcPeerConnectionView|
                    !spec_session_expired(c.last_activity, now_ms)),
            decreases n - i,
        {
            let ghost prev = kept@.map_values(|c: WebRtcPeerConnection| c@);
            let expired = self.sessions[i].is_expired(now_ms);
            if !expired {
                let s = &self.sessions[i];
                kept.push(
                    WebRtcPeerConnection {
                        id: s.id,
                        stream_key: clone_string(&s.stream_key),
                        created_at: s.created_at,
                        last_activity: s.last_activity,
                    },
                );
            }
            proof {
                reveal(Seq::filter);
                let t1 = ss0.take(i as int + 1);
                assert(t1.drop_last() =~= ss0.take(i as int));
                assert(t1.last() == ss0[i as int]);
                assert(ss0[i as int] == self.sessions@[i as int]@);
                if !expired {
                    assert(kept@.map_values(|c: WebRtcPeerConnection| c@) =~= prev.push(
                        ss0[i as int],
                    ));
                    assert(kept@.map_values(|c: WebRtcPeerConnection| c@) =~= t1.filter(pred));
                } else {
                    assert(kept@.map_values(|c: WebRtcPeerConnection| c@) =~= t1.filter(pred));
                }
            }
            i += 1;
        }
        self.sessions = kept;
        proof {
            assert(ss0.take(n as int) =~= ss0);
            lemma_filter_ids_no_duplicates(ss0, pred);
        }
    }
}

/// The index of the session with `id`, if one is registered.
fn find_session_index(sessions: &Vec<WebRtcPeerConnection>, id: u128) -> (r: Option<usize>)
    ensures
        match r {
            Some(i) => i < sessions@.len() && sessions@[i as int]@.id == id,
            None => forall|j: int| 0 <= j < sessions@.len() ==> sessions@[j]@.id != id,
        },
{
    let n = sessions.len();
    let mut i: usize = 0;
    while i < n
        invariant
            n == sessions@.len(),
            i <= n,
            forall|j: int| 0 <= j < i ==> sessions@[j]@.id != id,
        decreases n - i,
    {
        if sessions[i].id == id {
            return Some(i);
        }
        i += 1;
    }
    None
}

/// Copies a string.
fn clone_string(s: &String) -> (r: String)
    ensures
        r@ == s@,
{
    s.clone()
}

/// Every element of a filtered sequence is an element of the original.
proof fn lemma_filter_members<A>(s: Seq<A>, pred: spec_fn(A) -> bool)
    ensures
        forall|i: int| 0 <= i < s.filter(pred).len() ==> s.contains(#[trigger] s.filter(pred)[i]),
    decreases s.len(),
{
    reveal(Seq::filter);
    if s.len() > 0 {
        let head = s.drop_last();
        lemma_filter_members(head, pred);
        let out = s.filter(pred);
        let sub = head.filter(pred);
        assert forall|i: int| 0 <= i < out.len() implies s.contains(#[trigger] out[i]) by {
            if pred(s.last()) && i == out.len() - 1 {
                assert(out[i] == s.last());
                assert(s[s.len() - 1] == s.last());
            } else {
                assert(out[i] == sub[i]);
                assert(head.contains(sub[i]));
                let wi = choose|wi: int| 0 <= wi < head.len() && head[wi] == sub[i];
                assert(s[wi] == sub[i]);
            }
        }
    }
}

/// Filtering a session list whose ids are distinct leaves the ids
/// distinct.
proof fn lemma_filter_ids_no_duplicates(
    s: Seq<WebRtcPeerConnectionView>,
    pred: spec_fn(WebRtcPeerConnectionView) -> bool,
)
    requires
        spec_session_ids(s).no_duplicates(),
    ensures
        spec_session_ids(s.filter(pred)).no_duplicates(),
    decreases s.len(),
{
    reveal(Seq::filter);
    if s.len() == 0 {
        assert(s.filter(pred) =~= Seq::<WebRtcPeerConnectionView>::empty());
        assert(spec_session_ids(s.filter(pred)) =~= Seq::<u128>::empty());
    } else {
        let head = s.drop_last();
        assert(spec_session_ids(head).no_duplicates()) by {
            assert forall|i: int, j: int|
                0 <= i < j < head.len() implies spec_session_ids(head)[i] != spec_session_ids(
                head,
            )[j] by {
                assert(spec_session_ids(s)[i] == spec_session_ids(head)[i]);
                assert(spec_session_ids(s)[j] == spec_session_ids(head)[j]);
            }
        }
        lemma_filter_ids_no_duplicates(head, pred);
        let fh = head.filter(pred);
        if pred(s.last()) {
            assert(s.filter(pred) == fh.push(s.last()));
            assert forall|i: int, j: int|
                0 <= i < j < fh.push(s.last()).len() implies spec_session_ids(fh.push(s.last()))[i]
                != spec_session_ids(fh.push(s.last()))[j] by {
                if j < fh.len() {
                    assert(spec_session_ids(fh)[i] != spec_session_ids(fh)[j]);
                } else {
                    assert(fh.push(s.last())[j] == s.last());
                    let x = fh[i];
                    lemma_filter_members(head, pred);
                    assert(head.contains(x));
                    let wi = choose|wi: int| 0 <= wi < head.len() && head[wi] == x;
                    assert(spec_session_ids(s)[wi] == x.id);
                    assert(spec_session_ids(s)[s.len() - 1] == s.last().id);
                    assert(x.id != s.last().id);
                }
            }
        } else {
            assert(s.filter(pred) == fh);
        }
    }
}

} // verus!
