//! Live stream state: the keyed registry, per-stream viewer fan-out
//! bookkeeping, and the cache of init packets for late-joining viewers.

use vstd::prelude::*;
use vstd::seq_lib::*;
use crate::protocol::{StreamInfo, StreamStatus, ViewerConnection};
use crate::error::{StreamError, StreamResult};
use crate::strutil::{clone_bytes, str_eq};

verus! {

/// A media packet flowing from a publisher to viewers.
pub enum MediaPacket {
    Video { data: Vec<u8>, timestamp: u64, is_keyframe: bool },
    Audio { data: Vec<u8>, timestamp: u64 },
    Metadata { data: Vec<u8> },
}

/// The mathematical value of a media packet: its payload as a byte
/// sequence, with its tags.
pub enum MediaPacketView {
    Video { data: Seq<u8>, timestamp: u64, is_keyframe: bool },
    Audio { data: Seq<u8>, timestamp: u64 },
    Metadata { data: Seq<u8> },
}

impl View for MediaPacket {
    type V = MediaPacketView;

    open spec fn view(&self) -> MediaPacketView {
        match self {
            MediaPacket::Video { data, timestamp, is_keyframe } => MediaPacketView::Video {
                data: data@,
                timestamp: *timestamp,
                is_keyframe: *is_keyframe,
            },
            MediaPacket::Audio { data, timestamp } => MediaPacketView::Audio {
                data: data@,
                timestamp: *timestamp,
            },
            MediaPacket::Metadata { data } => MediaPacketView::Metadata { data: data@ },
        }
    }
}

impl MediaPacket {
    /// A copy of the packet with the same value.
    pub fn duplicate(&self) -> (r: MediaPacket)
        ensures
            r@ == self@,
    {
        match self {
            MediaPacket::Video { data, timestamp, is_keyframe } => MediaPacket::Video {
                data: clone_bytes(data),
                timestamp: *timestamp,
                is_keyframe: *is_keyframe,
            },
            MediaPacket::Audio { data, timestamp } => MediaPacket::Audio {
                data: clone_bytes(data),
                timestamp: *timestamp,
            },
            MediaPacket::Metadata { data } => MediaPacket::Metadata { data: clone_bytes(data) },
        }
    }
}

/// The cache of the minimal init set a late-joining viewer needs: at most
/// one latest keyframe, one stream-configuration audio packet, and one
/// metadata packet.
pub struct MediaBuffer {
    video_keyframe: Option<MediaPacket>,
    audio_config: Option<MediaPacket>,
    metadata: Option<MediaPacket>,
}

/// The mathematical value of the init-packet cache.
pub struct MediaBufferView {
    pub video_keyframe: Option<MediaPacketView>,
    pub audio_config: Option<MediaPacketView>,
    pub metadata: Option<MediaPacketView>,
}

impl View for MediaBuffer {
    type V = MediaBufferView;

    closed spec fn view(&self) -> MediaBufferView {
        MediaBufferView {
            video_keyframe: match self.video_keyframe {
                Some(p) => Some(p@),
                None => None,
            },
            audio_config: match self.audio_config {
                Some(p) => Some(p@),
                None => None,
            },
            metadata: match self.metadata {
                Some(p) => Some(p@),
                None => None,
            },
        }
    }
}

/// How one incoming packet changes the cache: a keyframe replaces the
/// cached keyframe, a metadata packet replaces the cached metadata, and
/// the first audio packet is kept as the stream's audio configuration.
pub open spec fn spec_buffer_add(b: MediaBufferView, p: MediaPacketView) -> MediaBufferView {
    match p {
        MediaPacketView::Video { is_keyframe, .. } => if is_keyframe {
            MediaBufferView { video_keyframe: Some(p), ..b }
        } else {
            b
        },
        MediaPacketView::Audio { .. } => if b.audio_config is None {
            MediaBufferView { audio_config: Some(p), ..b }
        } else {
            b
        },
        MediaPacketView::Metadata { .. } => MediaBufferView { metadata: Some(p), ..b },
    }
}

/// The init sequence handed to a new viewer: metadata, then audio
/// configuration, then the latest keyframe, each if cached.
pub open spec fn spec_init_packets(b: MediaBufferView) -> Seq<MediaPacketView> {
    (match b.metadata {
        Some(m) => seq![m],
        None => Seq::empty(),
    }) + (match b.audio_config {
        Some(a) => seq![a],
        None => Seq::empty(),
    }) + (match b.video_keyframe {
        Some(k) => seq![k],
        None => Seq::empty(),
    })
}

impl MediaBuffer {
    /// An empty cache.
    pub fn new() -> (b: MediaBuffer)
        ensures
            b@.video_keyframe is None,
            b@.audio_config is None,
            b@.metadata is None,
    {
        MediaBuffer { video_keyframe: None, audio_config: None, metadata: None }
    }

    /// Folds one packet into the cache, per the cache update policy.
    pub fn add_packet(&mut self, packet: MediaPacket)
        ensures
            final(self)@ == spec_buffer_add(old(self)@, packet@),
    {
        match &packet {
            MediaPacket::Video { is_keyframe, .. } => {
                if *is_keyframe {
                    self.video_keyframe = Some(packet);
                }
            },
            MediaPacket::Audio { .. } => {
                if self.audio_config.is_none() {
                    self.audio_config = Some(packet);
                }
            },
            MediaPacket::Metadata { .. } => {
                self.metadata = Some(packet);
            },
        }
    }

    /// The init sequence for a viewer joining now: metadata, audio
    /// configuration, latest keyframe — in that order, each at most once.
    pub fn get_init_packets(&self) -> (packets: Vec<MediaPacket>)
        ensures
            packets@.map_values(|p: MediaPacket| p@) == spec_init_packets(self@),
    {
        let mut packets: Vec<MediaPacket> = Vec::new();
        if let Some(metadata) = &self.metadata {
            packets.push(metadata.duplicate());
        }
        if let Some(audio_config) = &self.audio_config {
            packets.push(audio_config.duplicate());
        }
        if let Some(keyframe) = &self.video_keyframe {
            packets.push(keyframe.duplicate());
        }
        proof {
            assert(packets@.map_values(|p: MediaPacket| p@) =~= spec_init_packets(self@));
        }
        packets
    }
}

/// The ids of a list of viewer sessions, in order.
pub open spec fn spec_viewer_ids(vs: Seq<ViewerConnection>) -> Seq<u128> {
    vs.map_values(|v: ViewerConnection| v.id)
}

/// `info` with its viewer count replaced.
pub open spec fn spec_info_with_count(info: StreamInfo, n: u32) -> StreamInfo {
    StreamInfo { viewer_count: n, ..info }
}

/// `info` with its liveness flag replaced.
pub open spec fn spec_info_with_live(info: StreamInfo, l: bool) -> StreamInfo {
    StreamInfo { is_live: l, ..info }
}

/// The liveness flag that entering `status` leaves on a descriptor whose
/// flag was `was`: `Live` turns it on, `Stopped` and `Error` turn it off,
/// the transitional states leave it.
pub open spec fn spec_live_flag(status: StreamStatus, was: bool) -> bool {
    match status {
        StreamStatus::Live => true,
        StreamStatus::Stopped => false,
        StreamStatus::Error(_) => false,
        _ => was,
    }
}

/// One live stream: its descriptor, lifecycle status, viewer sessions and
/// init-packet cache.
pub struct LiveStream {
    pub stream_key: String,
    info: StreamInfo,
    status: StreamStatus,
    viewers: Vec<ViewerConnection>,
    cache: MediaBuffer,
}

impl LiveStream {
    /// The stream's routing key text.
    pub closed spec fn key(&self) -> Seq<char> {
        self.stream_key@
    }

    /// The stream's descriptor.
    pub closed spec fn info(&self) -> StreamInfo {
        self.info
    }

    /// The stream's lifecycle status.
    pub closed spec fn status(&self) -> StreamStatus {
        self.status
    }

    /// The stream's viewer sessions, in join order.
    pub closed spec fn viewers(&self) -> Seq<ViewerConnection> {
        self.viewers@
    }

    /// The stream's init-packet cache.
    pub closed spec fn cache(&self) -> MediaBufferView {
        self.cache@
    }

    /// The set of currently-present viewer ids.
    pub open spec fn viewer_ids(&self) -> Set<u128> {
        spec_viewer_ids(self.viewers()).to_set()
    }

    /// Internal shape: viewer ids are distinct and the descriptor's viewer
    /// count equals the number of viewer sessions.
    pub open spec fn wf(&self) -> bool {
        &&& spec_viewer_ids(self.viewers()).no_duplicates()
        &&& self.info().viewer_count as nat == self.viewers().len()
    }

    /// A fresh stream in the `Starting` state, with no viewers and an
    /// empty cache; the descriptor's viewer count starts at zero.
    pub fn new(stream_key: String, info: StreamInfo) -> (s: LiveStream)
        ensures
            s.wf(),
            s.key() == stream_key@,
            s.status() is Starting,
            s.info() == spec_info_with_count(info, 0),
            s.viewers() == Seq::<ViewerConnection>::empty(),
            s.cache().video_keyframe is None,
            s.cache().audio_config is None,
            s.cache().metadata is None,
    {
        let mut info = info;
        info.viewer_count = 0;
        let s = LiveStream {
            stream_key,
            info,
            status: StreamStatus::Starting,
            viewers: Vec::new(),
            cache: MediaBuffer::new(),
        };
        proof {
            assert(spec_viewer_ids(s.viewers@) =~= Seq::<u128>::empty());
        }
        s
    }

    /// Folds one incoming packet into the init-packet cache, per the cache
    /// update policy; fan-out to attached viewers is the transport's part.
    pub fn send_media_packet(&mut self, packet: MediaPacket) -> (r: StreamResult<()>)
        ensures
            r is Ok,
            final(self).cache() == spec_buffer_add(old(self).cache(), packet@),
            final(self).key() == old(self).key(),
            final(self).info() == old(self).info(),
            final(self).status() == old(self).status(),
            final(self).viewers() == old(self).viewers(),
            final(self).wf() == old(self).wf(),
    {
        self.cache.add_packet(packet);
        Ok(())
    }

    /// Registers a viewer session (replacing any session with the same id)
    /// and updates the descriptor's viewer count in the same step. Returns
    /// the init sequence the new viewer must receive first.
    pub fn add_viewer(&mut self, viewer: ViewerConnection) -> (init: Vec<MediaPacket>)
        requires
            old(self).wf(),
            old(self).viewers().len() < u32::MAX,
        ensures
            final(self).wf(),
            final(self).key() == old(self).key(),
            final(self).status() == old(self).status(),
            final(self).cache() == old(self).cache(),
            final(self).viewer_ids() == old(self).viewer_ids().insert(viewer.id),
            final(self).viewers().contains(viewer),
            final(self).info() == spec_info_with_count(
                old(self).info(),
                final(self).viewers().len() as u32,
            ),
            init@.map_values(|p: MediaPacket| p@) == spec_init_packets(old(self).cache()),
    {
        let init = self.cache.get_init_packets();
        let ghost old_vs = old(self).viewers@;
        let idx = find_viewer_index(&self.viewers, viewer.id);
        match idx {
            Some(i) => {
                self.viewers.set(i, viewer);
                proof {
                    assert(spec_viewer_ids(self.viewers@) =~= spec_viewer_ids(old_vs).update(
                        i as int,
                        viewer.id,
                    ));
                    assert(spec_viewer_ids(old_vs).update(i as int, viewer.id) =~= spec_viewer_ids(
                        old_vs,
                    ));
                    assert(spec_viewer_ids(old_vs)[i as int] == viewer.id);
                    assert(spec_viewer_ids(old_vs).contains(viewer.id));
                    assert(spec_viewer_ids(old_vs).to_set().contains(viewer.id));
                    assert(spec_viewer_ids(self.viewers@).to_set() =~= spec_viewer_ids(
                        old_vs,
                    ).to_set().insert(viewer.id));
                    assert(self.viewers@.contains(viewer));
                }
            },
            None => {
                self.viewers.push(viewer);
                proof {
                    assert(spec_viewer_ids(self.viewers@) =~= spec_viewer_ids(old_vs).push(
                        viewer.id,
                    ));
                    assert(!spec_viewer_ids(old_vs).contains(viewer.id));
                    assert(spec_viewer_ids(self.viewers@).no_duplicates());
                    lemma_id_set_push(spec_viewer_ids(old_vs), viewer.id);
                    assert(self.viewers@.contains(viewer)) by {
                        assert(self.viewers@.last() == viewer);
                    }
                }
            },
        }
        let cnt = self.viewers.len();
        self.info.viewer_count = cnt as u32;
        init
    }

    /// Drops the viewer session with `viewer_id`, if present, and updates
    /// the descriptor's viewer count in the same step.
    pub fn remove_viewer(&mut self, viewer_id: u128)
        requires
            old(self).wf(),
        ensures
            final(self).wf(),
            final(self).key() == old(self).key(),
            final(self).status() == old(self).status(),
            final(self).cache() == old(self).cache(),
            final(self).viewer_ids() == old(self).viewer_ids().remove(viewer_id),
            final(self).info() == spec_info_with_count(
                old(self).info(),
                final(self).viewers().len() as u32,
            ),
    {
        let ghost old_vs = old(self).viewers@;
        let idx = find_viewer_index(&self.viewers, viewer_id);
        match idx {
            Some(i) => {
                self.viewers.remove(i);
                proof {
                    assert(spec_viewer_ids(self.viewers@) =~= spec_viewer_ids(old_vs).remove(
                        i as int,
                    ));
                    lemma_id_set_remove(spec_viewer_ids(old_vs), i as int);
                }
            },
            None => {
                proof {
                    assert(!spec_viewer_ids(old_vs).to_set().contains(viewer_id));
                    assert(spec_viewer_ids(old_vs).to_set() =~= spec_viewer_ids(
                        old_vs,
                    ).to_set().remove(viewer_id));
                }
            },
        }
        let cnt = self.viewers.len();
        self.info.viewer_count = cnt as u32;
    }

    /// Moves the stream to `status` and keeps the descriptor's liveness
    /// flag consistent: `Live` raises it, `Stopped` and `Error` clear it.
    pub fn set_status(&mut self, status: StreamStatus)
        ensures
            final(self).status() == status,
            final(self).info() == spec_info_with_live(
                old(self).info(),
                spec_live_flag(status, old(self).info().is_live),
            ),
            final(self).key() == old(self).key(),
            final(self).viewers() == old(self).viewers(),
            final(self).cache() == old(self).cache(),
            final(self).wf() == old(self).wf(),
    {
        match &status {
            StreamStatus::Live => {
                self.info.is_live = true;
            },
            StreamStatus::Stopped => {
                self.info.is_live = false;
            },
            StreamStatus::Error(_) => {
                self.info.is_live = false;
            },
            _ => {},
        }
        self.status = status;
    }

    /// The stream's lifecycle status.
    pub fn get_status(&self) -> (r: &StreamStatus)
        ensures
            *r == self.status(),
    {
        &self.status
    }

    /// The stream's descriptor.
    pub fn get_info(&self) -> (r: &StreamInfo)
        ensures
            *r == self.info(),
    {
        &self.info
    }

    /// The descriptor's viewer count.
    pub fn get_viewer_count(&self) -> (r: u32)
        ensures
            r == self.info().viewer_count,
    {
        self.info.viewer_count
    }

    /// The init sequence a viewer joining now must receive first.
    pub fn get_init_packets(&self) -> (packets: Vec<MediaPacket>)
        ensures
            packets@.map_values(|p: MediaPacket| p@) == spec_init_packets(self.cache()),
    {
        self.cache.get_init_packets()
    }
}

/// At every observation point of a well-formed stream, the descriptor's
/// viewer count equals the number of currently-present distinct viewer
/// ids.
pub proof fn lemma_viewer_count_counts_distinct_ids(s: &LiveStream)
    requires
        s.wf(),
    ensures
        s.info().viewer_count as nat == s.viewer_ids().len(),
{
    spec_viewer_ids(s.viewers()).unique_seq_to_set();
}

/// The index of the viewer session with `id`, if one is present.
fn find_viewer_index(viewers: &Vec<ViewerConnection>, id: u128) -> (r: Option<usize>)
    ensures
        match r {
            Some(i) => i < viewers@.len() && viewers@[i as int].id == id,
            None => forall|j: int| 0 <= j < viewers@.len() ==> viewers@[j].id != id,
        },
{
    let n = viewers.len();
    let mut i: usize = 0;
    while i < n
        invariant
            n == viewers@.len(),
            i <= n,
            forall|j: int| 0 <= j < i ==> viewers@[j].id != id,
        decreases n - i,
    {
        if viewers[i].id == id {
            return Some(i);
        }
        i += 1;
    }
    None
}

/// Appending an id adds exactly that id to the id set.
pub(crate) proof fn lemma_id_set_push(ids: Seq<u128>, id: u128)
    ensures
        ids.push(id).to_set() == ids.to_set().insert(id),
{
    assert forall|x: u128| ids.push(id).to_set().contains(x) implies ids.to_set().insert(
        id,
    ).contains(x) by {
        let wi = choose|wi: int| 0 <= wi < ids.push(id).len() && ids.push(id)[wi] == x;
        if wi < ids.len() {
            assert(ids[wi] == x);
            assert(ids.contains(x));
        }
    }
    assert forall|x: u128| ids.to_set().insert(id).contains(x) implies ids.push(
        id,
    ).to_set().contains(x) by {
        if x == id {
            assert(ids.push(id)[ids.len() as int] == x);
        } else {
            let wi = choose|wi: int| 0 <= wi < ids.len() && ids[wi] == x;
            assert(ids.push(id)[wi] == x);
        }
        assert(ids.push(id).contains(x));
    }
    assert(ids.push(id).to_set() =~= ids.to_set().insert(id));
}

/// Removing one entry of a duplicate-free id list removes exactly that id
/// from the id set, and keeps the list duplicate-free.
proof fn lemma_id_set_remove(ids: Seq<u128>, at: int)
    requires
        0 <= at < ids.len(),
        ids.no_duplicates(),
    ensures
        ids.remove(at).no_duplicates(),
        ids.remove(at).to_set() == ids.to_set().remove(ids[at]),
{
    let rest = ids.remove(at);
    assert forall|x: u128| rest.to_set().contains(x) implies ids.to_set().remove(
        ids[at],
    ).contains(x) by {
        let wi = choose|wi: int| 0 <= wi < rest.len() && rest[wi] == x;
        if wi < at {
            assert(ids[wi] == x);
            assert(ids[wi] != ids[at]);
        } else {
            assert(ids[wi + 1] == x);
            assert(ids[wi + 1] != ids[at]);
        }
        assert(ids.contains(x));
    }
    assert forall|x: u128| ids.to_set().remove(ids[at]).contains(x) implies rest.to_set().contains(
        x,
    ) by {
        let wi = choose|wi: int| 0 <= wi < ids.len() && ids[wi] == x;
        assert(wi != at);
        if wi < at {
            assert(rest[wi] == x);
        } else {
            assert(rest[wi - 1] == x);
        }
        assert(rest.contains(x));
    }
    assert(rest.to_set() =~= ids.to_set().remove(ids[at]));
}

/// Whether some stream in `streams` has the key text `key`.
pub open spec fn spec_has_key(streams: Seq<LiveStream>, key: Seq<char>) -> bool {
    exists|i: int| 0 <= i < streams.len() && streams[i].key() == key
}

/// The index of the stream with key text `key`.
pub open spec fn spec_idx_of(streams: Seq<LiveStream>, key: Seq<char>) -> int {
    choose|i: int| 0 <= i < streams.len() && streams[i].key() == key
}

/// The stream with key text `key`.
pub open spec fn spec_stream_at(streams: Seq<LiveStream>, key: Seq<char>) -> LiveStream {
    streams[spec_idx_of(streams, key)]
}

/// True when no two streams in `streams` share a key text.
pub open spec fn spec_reg_keys_distinct(streams: Seq<LiveStream>) -> bool {
    forall|i: int, j: int| 0 <= i < j < streams.len() ==> streams[i].key() != streams[j].key()
}

/// With distinct keys, an index holding `key` is the lookup result.
proof fn lemma_registry_lookup(streams: Seq<LiveStream>, key: Seq<char>, i: int)
    requires
        spec_reg_keys_distinct(streams),
        0 <= i < streams.len(),
        streams[i].key() == key,
    ensures
        spec_has_key(streams, key),
        spec_idx_of(streams, key) == i,
        spec_stream_at(streams, key) == streams[i],
{
    assert(spec_has_key(streams, key));
    let j = spec_idx_of(streams, key);
    assert(0 <= j < streams.len() && streams[j].key() == key);
    if i < j {
        assert(streams[i].key() != streams[j].key());
    } else if j < i {
        assert(streams[j].key() != streams[i].key());
    }
}

/// Replacing the stream at `at` by one with the same key keeps every key,
/// maps that key to the replacement, and leaves every other stream as it
/// was.
proof fn lemma_registry_update(s0: Seq<LiveStream>, at: int, s: LiveStream)
    requires
        spec_reg_keys_distinct(s0),
        0 <= at < s0.len(),
        s.key() == s0[at].key(),
    ensures
        spec_reg_keys_distinct(s0.update(at, s)),
        spec_has_key(s0.update(at, s), s.key()),
        spec_stream_at(s0.update(at, s), s.key()) == s,
        forall|k: Seq<char>| #[trigger]
            spec_has_key(s0.update(at, s), k) == spec_has_key(s0, k),
        forall|k: Seq<char>|
            k != s.key() && spec_has_key(s0, k) ==> #[trigger] spec_stream_at(s0.update(at, s), k)
                == spec_stream_at(s0, k),
{
    let s1 = s0.update(at, s);
    assert forall|k: Seq<char>| #[trigger] spec_has_key(s1, k) == spec_has_key(s0, k) by {
        if spec_has_key(s1, k) {
            let wi = choose|wi: int| 0 <= wi < s1.len() && s1[wi].key() == k;
            if wi == at {
                assert(s0[at].key() == k);
            } else {
                assert(s0[wi].key() == k);
            }
            assert(spec_has_key(s0, k));
        }
        if spec_has_key(s0, k) {
            let wi = choose|wi: int| 0 <= wi < s0.len() && s0[wi].key() == k;
            if wi == at {
                assert(s1[at].key() == k);
            } else {
                assert(s1[wi].key() == k);
            }
            assert(spec_has_key(s1, k));
        }
    }
    lemma_registry_lookup(s1, s.key(), at);
    assert forall|k: Seq<char>|
        k != s.key() && spec_has_key(s0, k) implies #[trigger] spec_stream_at(s1, k)
        == spec_stream_at(s0, k) by {
        let wi = choose|wi: int| 0 <= wi < s0.len() && s0[wi].key() == k;
        assert(wi != at);
        lemma_registry_lookup(s0, k, wi);
        lemma_registry_lookup(s1, k, wi);
    }
}

/// Appending a stream with a fresh key adds exactly that key, maps it to
/// the appended stream, and leaves every other stream as it was.
proof fn lemma_registry_push(s0: Seq<LiveStream>, s: LiveStream)
    requires
        spec_reg_keys_distinct(s0),
        !spec_has_key(s0, s.key()),
    ensures
        spec_reg_keys_distinct(s0.push(s)),
        spec_has_key(s0.push(s), s.key()),
        spec_stream_at(s0.push(s), s.key()) == s,
        forall|k: Seq<char>|
            k != s.key() ==> #[trigger] spec_has_key(s0.push(s), k) == spec_has_key(s0, k),
        forall|k: Seq<char>|
            k != s.key() && spec_has_key(s0, k) ==> #[trigger] spec_stream_at(s0.push(s), k)
                == spec_stream_at(s0, k),
{
    let s1 = s0.push(s);
    assert forall|i: int, j: int| 0 <= i < j < s1.len() implies s1[i].key() != s1[j].key() by {
        if j < s0.len() {
            assert(s0[i].key() != s0[j].key());
        } else {
            assert(s1[j] == s);
            if s1[i].key() == s.key() {
                assert(s0[i].key() == s.key());
                assert(spec_has_key(s0, s.key()));
            }
        }
    }
    lemma_registry_lookup(s1, s.key(), s0.len() as int);
    assert forall|k: Seq<char>|
        k != s.key() implies #[trigger] spec_has_key(s1, k) == spec_has_key(s0, k) by {
        if spec_has_key(s1, k) {
            let wi = choose|wi: int| 0 <= wi < s1.len() && s1[wi].key() == k;
            assert(wi < s0.len());
            assert(spec_has_key(s0, k));
        }
        if spec_has_key(s0, k) {
            let wi = choose|wi: int| 0 <= wi < s0.len() && s0[wi].key() == k;
            assert(s1[wi].key() == k);
            assert(spec_has_key(s1, k));
        }
    }
    assert forall|k: Seq<char>|
        k != s.key() && spec_has_key(s0, k) implies #[trigger] spec_stream_at(s1, k)
        == spec_stream_at(s0, k) by {
        let wi = choose|wi: int| 0 <= wi < s0.len() && s0[wi].key() == k;
        lemma_registry_lookup(s0, k, wi);
        lemma_registry_lookup(s1, k, wi);
    }
}

/// Removing the stream at `at` drops exactly its key and leaves every
/// other stream as it was.
proof fn lemma_registry_remove(s0: Seq<LiveStream>, at: int)
    requires
        spec_reg_keys_distinct(s0),
        0 <= at < s0.len(),
    ensures
        spec_reg_keys_distinct(s0.remove(at)),
        !spec_has_key(s0.remove(at), s0[at].key()),
        forall|k: Seq<char>|
            k != s0[at].key() ==> #[trigger] spec_has_key(s0.remove(at), k) == spec_has_key(s0, k),
        forall|k: Seq<char>|
            k != s0[at].key() && spec_has_key(s0, k) ==> #[trigger] spec_stream_at(
                s0.remove(at),
                k,
            ) == spec_stream_at(s0, k),
{
    let s1 = s0.remove(at);
    assert forall|i: int, j: int| 0 <= i < j < s1.len() implies s1[i].key() != s1[j].key() by {
        let i0: int = if i < at { i } else { i + 1 };
        let j0: int = if j < at { j } else { j + 1 };
        assert(s1[i] == s0[i0]);
        assert(s1[j] == s0[j0]);
        assert(s0[i0].key() != s0[j0].key());
    }
    assert forall|wi: int| 0 <= wi < s1.len() implies s1[wi].key() != s0[at].key() by {
        let w0: int = if wi < at { wi } else { wi + 1 };
        assert(s1[wi] == s0[w0]);
        assert(w0 != at);
        if w0 < at {
            assert(s0[w0].key() != s0[at].key());
        } else {
            assert(s0[at].key() != s0[w0].key());
        }
    }
    assert forall|k: Seq<char>|
        k != s0[at].key() implies #[trigger] spec_has_key(s1, k) == spec_has_key(s0, k) by {
        if spec_has_key(s1, k) {
            let wi = choose|wi: int| 0 <= wi < s1.len() && s1[wi].key() == k;
            let w0: int = if wi < at { wi } else { wi + 1 };
            assert(s0[w0].key() == k);
            assert(spec_has_key(s0, k));
        }
        if spec_has_key(s0, k) {
            let wi = choose|wi: int| 0 <= wi < s0.len() && s0[wi].key() == k;
            assert(wi != at);
            let w1: int = if wi < at { wi } else { wi - 1 };
            assert(s1[w1] == s0[wi]);
            assert(spec_has_key(s1, k));
        }
    }
    assert forall|k: Seq<char>|
        k != s0[at].key() && spec_has_key(s0, k) implies #[trigger] spec_stream_at(s1, k)
        == spec_stream_at(s0, k) by {
        let wi = choose|wi: int| 0 <= wi < s0.len() && s0[wi].key() == k;
        assert(wi != at);
        let w1: int = if wi < at { wi } else { wi - 1 };
        assert(s1[w1] == s0[wi]);
        lemma_registry_lookup(s0, k, wi);
        lemma_registry_lookup(s1, k, w1);
    }
}

/// The registry of live streams, keyed by stream key. It is the sole
/// owner of stream lifetimes: entries appear on publish and are removed
/// when the publisher disconnects.
pub struct StreamManager {
    streams: Vec<LiveStream>,
}

impl StreamManager {
    /// The registry's entries, in insertion order (the order carries no
    /// meaning).
    pub closed spec fn streams(&self) -> Seq<LiveStream> {
        self.streams@
    }

    /// Whether a stream with key text `key` is registered.
    pub open spec fn has_stream(&self, key: Seq<char>) -> bool {
        spec_has_key(self.streams(), key)
    }

    /// The registered stream with key text `key`.
    pub open spec fn stream_at(&self, key: Seq<char>) -> LiveStream {
        spec_stream_at(self.streams(), key)
    }

    /// Internal shape: keys are distinct and every entry is well-formed.
    pub open spec fn wf(&self) -> bool {
        &&& spec_reg_keys_distinct(self.streams())
        &&& forall|i: int| 0 <= i < self.streams().len() ==> (#[trigger] self.streams()[i]).wf()
    }

    /// An empty registry.
    pub fn new() -> (m: StreamManager)
        ensures
            m.wf(),
            m.streams().len() == 0,
            forall|k: Seq<char>| !m.has_stream(k),
    {
        StreamManager { streams: Vec::new() }
    }

    /// The index of the entry keyed `key`, if one is registered.
    fn find_index(&self, key: &str) -> (r: Option<usize>)
        ensures
            match r {
                Some(i) => i < self.streams().len() && self.streams()[i as int].key() == key@,
                None => !self.has_stream(key@),
            },
    {
        let n = self.streams.len();
        let mut i: usize = 0;
        while i < n
            invariant
                n == self.streams@.len(),
                i <= n,
                forall|j: int| 0 <= j < i ==> self.streams@[j].key() != key@,
            decreases n - i,
        {
            if str_eq(self.streams[i].stream_key.as_str(), key) {
                return Some(i);
            }
            i += 1;
        }
        None
    }

    /// Registers a fresh stream under `stream_key`. A stream already
    /// registered under the same key is overwritten (last writer wins);
    /// every other entry is untouched.
    pub fn create_stream(&mut self, stream_key: String, info: StreamInfo) -> (r: StreamResult<()>)
        requires
            old(self).wf(),
        ensures
            final(self).wf(),
            r is Ok,
            final(self).has_stream(stream_key@),
            ({
                let s = final(self).stream_at(stream_key@);
                &&& s.key() == stream_key@
                &&& s.status() is Starting
                &&& s.info() == spec_info_with_count(info, 0)
                &&& s.viewers() == Seq::<ViewerConnection>::empty()
                &&& s.cache().video_keyframe is None
                &&& s.cache().audio_config is None
                &&& s.cache().metadata is None
            }),
            forall|k: Seq<char>|
                k != stream_key@ ==> #[trigger] final(self).has_stream(k) == old(self).has_stream(
                    k,
                ),
            forall|k: Seq<char>|
                k != stream_key@ && old(self).has_stream(k) ==> #[trigger] final(self).stream_at(k)
                    == old(self).stream_at(k),
    {
        let ghost s0 = old(self).streams@;
        let idx = self.find_index(stream_key.as_str());
        let s = LiveStream::new(stream_key, info);
        match idx {
            Some(i) => {
                self.streams.set(i, s);
                proof {
                    lemma_registry_update(s0, i as int, s);
                }
            },
            None => {
                self.streams.push(s);
                proof {
                    lemma_registry_push(s0, s);
                }
            },
        }
        Ok(())
    }

    /// The registered stream under `stream_key`, if any.
    pub fn get_stream(&self, stream_key: &str) -> (r: Option<&LiveStream>)
        requires
            self.wf(),
        ensures
            match r {
                Some(s) => self.has_stream(stream_key@) && *s == self.stream_at(stream_key@),
                None => !self.has_stream(stream_key@),
            },
    {
        match self.find_index(stream_key) {
            Some(i) => {
                proof {
                    lemma_registry_lookup(self.streams@, stream_key@, i as int);
                }
                Some(&self.streams[i])
            },
            None => None,
        }
    }

    /// Unregisters and returns the stream under `stream_key`, if any;
    /// every other entry is untouched.
    pub fn remove_stream(&mut self, stream_key: &str) -> (r: Option<LiveStream>)
        requires
            old(self).wf(),
        ensures
            final(self).wf(),
            !final(self).has_stream(stream_key@),
            match r {
                Some(s) => old(self).has_stream(stream_key@) && s == old(self).stream_at(
                    stream_key@,
                ),
                None => !old(self).has_stream(stream_key@) && final(self).streams() == old(
                    self,
                ).streams(),
            },
            forall|k: Seq<char>|
                k != stream_key@ ==> #[trigger] final(self).has_stream(k) == old(self).has_stream(
                    k,
                ),
            forall|k: Seq<char>|
                k != stream_key@ && old(self).has_stream(k) ==> #[trigger] final(self).stream_at(k)
                    == old(self).stream_at(k),
    {
        let ghost s0 = old(self).streams@;
        match self.find_index(stream_key) {
            Some(i) => {
                proof {
                    lemma_registry_lookup(s0, stream_key@, i as int);
                }
                let s = self.streams.remove(i);
                proof {
                    lemma_registry_remove(s0, i as int);
                }
                Some(s)
            },
            None => None,
        }
    }

    /// A snapshot of the registered stream keys.
    pub fn list_streams(&self) -> (keys: Vec<String>)
        ensures
            keys@.len() == self.streams().len(),
            forall|i: int|
                0 <= i < keys@.len() ==> (#[trigger] keys@[i])@ == self.streams()[i].key(),
    {
        let mut keys: Vec<String> = Vec::new();
        let n = self.streams.len();
        let mut i: usize = 0;
        while i < n
            invariant
                n == self.streams@.len(),
                i <= n,
                keys@.len() == i,
                forall|j: int| 0 <= j < i ==> (#[trigger] keys@[j])@ == self.streams@[j].key(),
            decreases n - i,
        {
            keys.push(self.streams[i].stream_key.clone());
            i += 1;
        }
        keys
    }

    /// How many streams are registered.
    pub fn stream_count(&self) -> (n: usize)
        ensures
            n == self.streams().len(),
    {
        self.streams.len()
    }

    /// Moves the stream under `stream_key` to `status` (see
    /// `LiveStream::set_status`); reports whether such a stream exists.
    pub fn set_stream_status(&mut self, stream_key: &str, status: StreamStatus) -> (r: bool)
        requires
            old(self).wf(),
        ensures
            final(self).wf(),
            r == old(self).has_stream(stream_key@),
            !r ==> final(self).streams() == old(self).streams(),
            forall|k: Seq<char>|
                k != stream_key@ ==> #[trigger] final(self).has_stream(k) == old(self).has_stream(
                    k,
                ),
            forall|k: Seq<char>|
                k != stream_key@ && old(self).has_stream(k) ==> #[trigger] final(self).stream_at(k)
                    == old(self).stream_at(k),
            r ==> final(self).has_stream(stream_key@) && ({
                let s0 = old(self).stream_at(stream_key@);
                let s1 = final(self).stream_at(stream_key@);
                &&& s1.key() == s0.key()
                &&& s1.status() == status
                &&& s1.info() == spec_info_with_live(
                    s0.info(),
                    spec_live_flag(status, s0.info().is_live),
                )
                &&& s1.viewers() == s0.viewers()
                &&& s1.cache() == s0.cache()
            }),
    {
        let ghost s0 = old(self).streams@;
        match self.find_index(stream_key) {
            Some(i) => {
                proof {
                    lemma_registry_lookup(s0, stream_key@, i as int);
                }
                let stream = &mut self.streams[i];
                stream.set_status(status);
                proof {
                    lemma_registry_update(s0, i as int, self.streams@[i as int]);
                }
                true
            },
            None => false,
        }
    }

    /// Hands one incoming packet to the stream under `stream_key` (see
    /// `LiveStream::send_media_packet`); absent keys surface
    /// `StreamNotFound`.
    pub fn send_media_packet(&mut self, stream_key: &str, packet: MediaPacket) -> (r: StreamResult<
        (),
    >)
        requires
            old(self).wf(),
        ensures
            final(self).wf(),
            r is Ok <==> old(self).has_stream(stream_key@),
            r matches Err(e) ==> e is StreamNotFound && final(self).streams() == old(
                self,
            ).streams(),
            forall|k: Seq<char>|
                k != stream_key@ ==> #[trigger] final(self).has_stream(k) == old(self).has_stream(
                    k,
                ),
            forall|k: Seq<char>|
                k != stream_key@ && old(self).has_stream(k) ==> #[trigger] final(self).stream_at(k)
                    == old(self).stream_at(k),
            r is Ok ==> final(self).has_stream(stream_key@) && ({
                let s0 = old(self).stream_at(stream_key@);
                let s1 = final(self).stream_at(stream_key@);
                &&& s1.key() == s0.key()
                &&& s1.status() == s0.status()
                &&& s1.info() == s0.info()
                &&& s1.viewers() == s0.viewers()
                &&& s1.cache() == spec_buffer_add(s0.cache(), packet@)
            }),
    {
        let ghost s0 = old(self).streams@;
        match self.find_index(stream_key) {
            Some(i) => {
                proof {
                    lemma_registry_lookup(s0, stream_key@, i as int);
                }
                let stream = &mut self.streams[i];
                let _ = stream.send_media_packet(packet);
                proof {
                    lemma_registry_update(s0, i as int, self.streams@[i as int]);
                }
                Ok(())
            },
            None => Err(StreamError::StreamNotFound(stream_key.to_owned())),
        }
    }

    /// Registers a viewer session against the stream under `stream_key`
    /// (see `LiveStream::add_viewer`) and returns the init sequence the
    /// viewer must receive first; absent keys surface `StreamNotFound`.
    pub fn add_viewer(&mut self, stream_key: &str, viewer: ViewerConnection) -> (r: StreamResult<
        Vec<MediaPacket>,
    >)
        requires
            old(self).wf(),
            old(self).has_stream(stream_key@) ==> old(self).stream_at(stream_key@).viewers().len()
                < u32::MAX,
        ensures
            final(self).wf(),
            r is Ok <==> old(self).has_stream(stream_key@),
            r matches Err(e) ==> e is StreamNotFound && final(self).streams() == old(
                self,
            ).streams(),
            forall|k: Seq<char>|
                k != stream_key@ ==> #[trigger] final(self).has_stream(k) == old(self).has_stream(
                    k,
                ),
            forall|k: Seq<char>|
                k != stream_key@ && old(self).has_stream(k) ==> #[trigger] final(self).stream_at(k)
                    == old(self).stream_at(k),
            r matches Ok(init) ==> final(self).has_stream(stream_key@) && ({
                let s0 = old(self).stream_at(stream_key@);
                let s1 = final(self).stream_at(stream_key@);
                &&& s1.key() == s0.key()
                &&& s1.status() == s0.status()
                &&& s1.cache() == s0.cache()
                &&& s1.viewer_ids() == s0.viewer_ids().insert(viewer.id)
                &&& s1.viewers().contains(viewer)
                &&& s1.info() == spec_info_with_count(s0.info(), s1.viewers().len() as u32)
                &&& init@.map_values(|p: MediaPacket| p@) == spec_init_packets(s0.cache())
            }),
    {
        let ghost s0 = old(self).streams@;
        match self.find_index(stream_key) {
            Some(i) => {
                proof {
                    lemma_registry_lookup(s0, stream_key@, i as int);
                }
                let stream = &mut self.streams[i];
                let init = stream.add_viewer(viewer);
                proof {
                    lemma_registry_update(s0, i as int, self.streams@[i as int]);
                }
                Ok(init)
            },
            None => Err(StreamError::StreamNotFound(stream_key.to_owned())),
        }
    }

    /// Drops the viewer session with `viewer_id` from the stream under
    /// `stream_key` (see `LiveStream::remove_viewer`); reports whether
    /// such a stream exists.
    pub fn remove_viewer(&mut self, stream_key: &str, viewer_id: u128) -> (r: bool)
        requires
            old(self).wf(),
        ensures
            final(self).wf(),
            r == old(self).has_stream(stream_key@),
            !r ==> final(self).streams() == old(self).streams(),
            forall|k: Seq<char>|
                k != stream_key@ ==> #[trigger] final(self).has_stream(k) == old(self).has_stream(
                    k,
                ),
            forall|k: Seq<char>|
                k != stream_key@ && old(self).has_stream(k) ==> #[trigger] final(self).stream_at(k)
                    == old(self).stream_at(k),
            r ==> final(self).has_stream(stream_key@) && ({
                let s0 = old(self).stream_at(stream_key@);
                let s1 = final(self).stream_at(stream_key@);
                &&& s1.key() == s0.key()
                &&& s1.status() == s0.status()
                &&& s1.cache() == s0.cache()
                &&& s1.viewer_ids() == s0.viewer_ids().remove(viewer_id)
                &&& s1.info() == spec_info_with_count(s0.info(), s1.viewers().len() as u32)
            }),
    {
        let ghost s0 = old(self).streams@;
        match self.find_index(stream_key) {
            Some(i) => {
                proof {
                    lemma_registry_lookup(s0, stream_key@, i as int);
                }
                let stream = &mut self.streams[i];
                stream.remove_viewer(viewer_id);
                proof {
                    lemma_registry_update(s0, i as int, self.streams@[i as int]);
                }
                true
            },
            None => false,
        }
    }
}

/// Whole seconds between a stream's creation and `now_ms`, negative when
/// the clock reads earlier than the creation instant (both truncate
/// toward zero).
pub fn uptime_seconds(now_ms: u64, created_ms: u64) -> (r: i64)
    requires
        now_ms < 0x4000_0000_0000_0000,
        created_ms < 0x4000_0000_0000_0000,
    ensures
        now_ms >= created_ms ==> r == (now_ms - created_ms) as int / 1000,
        now_ms < created_ms ==> r == -((created_ms - now_ms) as int / 1000),
{
    if now_ms >= created_ms {
        ((now_ms - created_ms) / 1000) as i64
    } else {
        -(((created_ms - now_ms) / 1000) as i64)
    }
}

/// Creating a stream and then looking its key up returns a handle whose
/// descriptor key equals the input key, for every valid (key, descriptor)
/// pair — a pair is valid when the descriptor names the key it is
/// registered under.
pub proof fn lemma_create_then_get(m: &StreamManager, stream_key: Seq<char>, info: StreamInfo)
    requires
        info.stream_key@ == stream_key,
        m.has_stream(stream_key),
        m.stream_at(stream_key).info() == spec_info_with_count(info, 0),
    ensures
        m.stream_at(stream_key).info().stream_key@ == stream_key,
{
}

/// Init packets are never duplicated and always come in protocol order:
/// after a fresh cache receives a metadata packet, a first (configuration)
/// audio packet, and then a keyframe, the init sequence is exactly
/// [metadata, audio configuration, keyframe].
pub proof fn lemma_init_sequence_order(
    b0: MediaBufferView,
    meta: MediaPacketView,
    audio: MediaPacketView,
    kf: MediaPacketView,
)
    requires
        b0.audio_config is None,
        meta is Metadata,
        audio is Audio,
        kf matches MediaPacketView::Video { is_keyframe: true, .. },
    ensures
        spec_init_packets(spec_buffer_add(spec_buffer_add(spec_buffer_add(b0, meta), audio), kf))
            =~= seq![meta, audio, kf],
{
}

} // verus!
