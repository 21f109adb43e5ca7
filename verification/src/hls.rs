//! Segment packaging: time-bounded segment boundaries, sliding playlist
//! windows, and the bit-exact playlist text format.

use vstd::prelude::*;
use vstd::string::*;
use crate::config::StorageConfig;
use crate::error::{StreamError, StreamResult};
use crate::stream::LiveStream;
use crate::strutil::{clone_bytes, spec_uint_string, str_eq, u32_to_string};

verus! {

/// One advertised media segment.
pub struct HlsSegment {
    pub name: String,
    /// Seconds.
    pub duration: u32,
    pub sequence: u32,
}

/// The mathematical value of a segment entry.
pub struct HlsSegmentView {
    pub name: Seq<char>,
    pub duration: u32,
    pub sequence: u32,
}

impl View for HlsSegment {
    type V = HlsSegmentView;

    open spec fn view(&self) -> HlsSegmentView {
        HlsSegmentView { name: self.name@, duration: self.duration, sequence: self.sequence }
    }
}

/// The mathematical value of a playlist: its window of segments, its
/// counters, and the instant of its last boundary.
pub struct HlsPlaylistView {
    pub stream_key: Seq<char>,
    pub segments: Seq<HlsSegmentView>,
    pub next_segment_number: u32,
    pub target_duration: u32,
    pub max_segments: u32,
    pub last_segment_time: Option<u64>,
}

/// A per-stream sliding playlist.
pub struct HlsPlaylist {
    stream_key: String,
    segments: Vec<HlsSegment>,
    next_segment_number: u32,
    target_duration: u32,
    max_segments: u32,
    last_segment_time: Option<u64>,
}

impl View for HlsPlaylist {
    type V = HlsPlaylistView;

    closed spec fn view(&self) -> HlsPlaylistView {
        HlsPlaylistView {
            stream_key: self.stream_key@,
            segments: self.segments@.map_values(|s: HlsSegment| s@),
            next_segment_number: self.next_segment_number,
            target_duration: self.target_duration,
            max_segments: self.max_segments,
            last_segment_time: self.last_segment_time,
        }
    }
}

/// A playlist's invariant: the window never exceeds its bound, and the
/// advertised sequence numbers are consecutive, ending just before the
/// next number to assign (so numbers strictly increase and are never
/// reused).
pub open spec fn spec_playlist_wf(p: HlsPlaylistView) -> bool {
    &&& p.segments.len() <= p.max_segments
    &&& p.segments.len() <= p.next_segment_number
    &&& forall|i: int|
        0 <= i < p.segments.len() ==> (#[trigger] p.segments[i]).sequence as int
            == p.next_segment_number - p.segments.len() + i
}

/// A fresh, empty playlist for `key` under the given windowing policy.
pub open spec fn spec_fresh_playlist(key: Seq<char>, target: u32, window: u32) -> HlsPlaylistView {
    HlsPlaylistView {
        stream_key: key,
        segments: Seq::empty(),
        next_segment_number: 0,
        target_duration: target,
        max_segments: window,
        last_segment_time: None,
    }
}

/// Whether a new segment boundary is due at `now`: yes if no segment was
/// ever produced, else when at least `target_duration` whole seconds have
/// passed since the last boundary.
pub open spec fn spec_segment_due(p: HlsPlaylistView, now: u64) -> bool {
    match p.last_segment_time {
        None => true,
        Some(t) => now >= t && (now - t) / 1000 >= p.target_duration,
    }
}

/// The sliding window: everything beyond the bound is dropped from the
/// front (oldest first).
pub open spec fn spec_window(segs: Seq<HlsSegmentView>, window: u32) -> Seq<HlsSegmentView> {
    if segs.len() > window {
        segs.skip(segs.len() - window)
    } else {
        segs
    }
}

/// A playlist after one boundary: the new segment takes the next sequence
/// number, the window slides, and the boundary instant is recorded.
pub open spec fn spec_playlist_add(
    p: HlsPlaylistView,
    name: Seq<char>,
    duration: u32,
    now: u64,
) -> HlsPlaylistView {
    let seg = HlsSegmentView { name, duration, sequence: p.next_segment_number };
    HlsPlaylistView {
        segments: spec_window(p.segments.push(seg), p.max_segments),
        next_segment_number: (p.next_segment_number + 1) as u32,
        last_segment_time: Some(now),
        ..p
    }
}

/// The name of the segment numbered `n`.
pub open spec fn spec_segment_name(n: nat) -> Seq<char> {
    "segment_"@ + spec_uint_string(n) + ".ts"@
}

/// One `#EXTINF` entry: the duration line, then the segment file name.
pub open spec fn spec_extinf(seg: HlsSegmentView) -> Seq<char> {
    "#EXTINF:"@ + spec_uint_string(seg.duration as nat) + ".0,\n"@ + seg.name + "\n"@
}

/// The `#EXTINF` entries of `segs`, in order.
pub open spec fn spec_segment_lines(segs: Seq<HlsSegmentView>) -> Seq<char>
    decreases segs.len(),
{
    if segs.len() == 0 {
        Seq::empty()
    } else {
        spec_segment_lines(segs.drop_last()) + spec_extinf(segs.last())
    }
}

/// The exact playlist text: the three header lines, the media-sequence
/// line when any segment exists, then one entry per segment in order.
pub open spec fn spec_m3u8(p: HlsPlaylistView) -> Seq<char> {
    "#EXTM3U\n"@ + "#EXT-X-VERSION:3\n"@ + "#EXT-X-TARGETDURATION:"@ + spec_uint_string(
        p.target_duration as nat,
    ) + "\n"@ + (if p.segments.len() > 0 {
        "#EXT-X-MEDIA-SEQUENCE:"@ + spec_uint_string(p.segments[0].sequence as nat) + "\n"@
    } else {
        Seq::empty()
    }) + spec_segment_lines(p.segments)
}

/// Renders the name of the segment numbered `n`.
pub fn segment_name(n: u32) -> (s: String)
    ensures
        s@ == spec_segment_name(n as nat),
{
    let mut s = String::new();
    s.append("segment_");
    let num = u32_to_string(n);
    s.append(num.as_str());
    s.append(".ts");
    proof {
        assert(s@ =~= spec_segment_name(n as nat));
    }
    s
}

impl HlsPlaylist {
    /// A fresh playlist for `stream_key` under the configured windowing
    /// policy.
    pub fn new(stream_key: String, config: &StorageConfig) -> (p: HlsPlaylist)
        ensures
            p@ == spec_fresh_playlist(
                stream_key@,
                config.hls_segment_duration,
                config.hls_playlist_length,
            ),
            spec_playlist_wf(p@),
    {
        let p = HlsPlaylist {
            stream_key,
            segments: Vec::new(),
            next_segment_number: 0,
            target_duration: config.hls_segment_duration,
            max_segments: config.hls_playlist_length,
            last_segment_time: None,
        };
        proof {
            assert(p@.segments =~= Seq::<HlsSegmentView>::empty());
            assert(p@ =~= spec_fresh_playlist(
                p.stream_key@,
                config.hls_segment_duration,
                config.hls_playlist_length,
            ));
        }
        p
    }

    /// Whether a new segment boundary is due at `now_ms`.
    pub fn should_generate_segment(&self, now_ms: u64) -> (r: bool)
        ensures
            r == spec_segment_due(self@, now_ms),
    {
        match self.last_segment_time {
            None => true,
            Some(t) => now_ms >= t && (now_ms - t) / 1000 >= self.target_duration as u64,
        }
    }

    /// Appends a segment at a boundary happening at `now_ms`, assigning it
    /// the next sequence number and sliding the window.
    pub fn add_segment(&mut self, segment_name: String, duration: u32, now_ms: u64)
        requires
            spec_playlist_wf(old(self)@),
            old(self)@.next_segment_number < u32::MAX,
        ensures
            final(self)@ == spec_playlist_add(old(self)@, segment_name@, duration, now_ms),
            spec_playlist_wf(final(self)@),
    {
        let ghost p0 = old(self)@;
        let seg = HlsSegment { name: segment_name, duration, sequence: self.next_segment_number };
        let ghost segv = seg@;
        self.segments.push(seg);
        self.next_segment_number = self.next_segment_number + 1;
        self.last_segment_time = Some(now_ms);
        let ghost appended = p0.segments.push(segv);
        proof {
            assert(self.segments@.map_values(|s: HlsSegment| s@) =~= appended);
        }
        while self.segments.len() > self.max_segments as usize
            invariant
                self.segments@.map_values(|s: HlsSegment| s@) == appended.skip(
                    appended.len() - self.segments@.len(),
                ),
                self.segments@.len() <= appended.len(),
                appended.len() <= p0.max_segments ==> self.segments@.len() == appended.len(),
                appended.len() > p0.max_segments ==> self.segments@.len() >= p0.max_segments,
                self.max_segments == p0.max_segments,
                self.stream_key@ == p0.stream_key,
                self.next_segment_number == p0.next_segment_number + 1,
                self.target_duration == p0.target_duration,
                self.max_segments == p0.max_segments,
                self.last_segment_time == Some(now_ms),
            decreases self.segments@.len(),
        {
            let ghost prev = self.segments@;
            let ghost d = appended.len() - prev.len();
            self.segments.remove(0);
            proof {
                assert(self.segments@ == prev.remove(0));
                assert forall|j: int| 0 <= j < self.segments@.len() implies (
                #[trigger] self.segments@[j])@ == appended.skip(d + 1)[j] by {
                    assert(self.segments@[j] == prev[j + 1]);
                    assert(prev.map_values(|s: HlsSegment| s@)[j + 1] == prev[j + 1]@);
                    assert(appended.skip(d)[j + 1] == appended[d + 1 + j]);
                }
                assert(self.segments@.map_values(|s: HlsSegment| s@) =~= appended.skip(
                    appended.len() - self.segments@.len(),
                ));
            }
        }
        proof {
            let segs = self.segments@.map_values(|s: HlsSegment| s@);
            assert(segs =~= spec_window(appended, p0.max_segments));
            assert(final(self)@ =~= spec_playlist_add(p0, segv.name, duration, now_ms));
            let p1 = final(self)@;
            assert forall|i: int| 0 <= i < p1.segments.len() implies (
            #[trigger] p1.segments[i]).sequence as int == p1.next_segment_number
                - p1.segments.len() + i by {
                let d = appended.len() - p1.segments.len();
                assert(p1.segments[i] == appended[i + d]);
            }
        }
    }

    /// The playlist's stream key text.
    pub fn get_stream_key(&self) -> (r: &String)
        ensures
            r@ == self@.stream_key,
    {
        &self.stream_key
    }

    /// The next sequence number to assign.
    pub fn next_sequence(&self) -> (r: u32)
        ensures
            r == self@.next_segment_number,
    {
        self.next_segment_number
    }

    /// How many segments the window currently advertises.
    pub fn segment_count(&self) -> (r: usize)
        ensures
            r == self@.segments.len(),
    {
        self.segments.len()
    }

    /// Renders the playlist in its exact text format.
    pub fn generate_m3u8(&self) -> (s: String)
        ensures
            s@ == spec_m3u8(self@),
    {
        let mut m = String::new();
        m.append("#EXTM3U\n");
        m.append("#EXT-X-VERSION:3\n");
        m.append("#EXT-X-TARGETDURATION:");
        let t = u32_to_string(self.target_duration);
        m.append(t.as_str());
        m.append("\n");
        if self.segments.len() > 0 {
            m.append("#EXT-X-MEDIA-SEQUENCE:");
            let q = u32_to_string(self.segments[0].sequence);
            m.append(q.as_str());
            m.append("\n");
        }
        let ghost segs = self@.segments;
        let ghost hdr = m@;
        proof {
            assert(spec_segment_lines(segs.take(0)) =~= Seq::<char>::empty());
            assert(m@ =~= hdr + spec_segment_lines(segs.take(0)));
        }
        let n = self.segments.len();
        let mut i: usize = 0;
        while i < n
            invariant
                n == self.segments@.len(),
                n == segs.len(),
                segs == self@.segments,
                i <= n,
                self.segments@.map_values(|s: HlsSegment| s@) == segs,
                m@ == hdr + spec_segment_lines(segs.take(i as int)),
            decreases n - i,
        {
            m.append("#EXTINF:");
            let d = u32_to_string(self.segments[i].duration);
            m.append(d.as_str());
            m.append(".0,\n");
            m.append(self.segments[i].name.as_str());
            m.append("\n");
            proof {
                assert(segs[i as int] == self.segments@[i as int]@);
                assert(segs.take(i as int + 1).drop_last() =~= segs.take(i as int));
                assert(segs.take(i as int + 1).last() == segs[i as int]);
                assert(m@ =~= hdr + spec_segment_lines(segs.take(i as int + 1)));
            }
            i += 1;
        }
        proof {
            assert(segs.take(n as int) =~= segs);
            assert(m@ =~= spec_m3u8(self@));
        }
        m
    }
}

/// How many bytes the placeholder segment payload holds.
pub const SEGMENT_BLOB_BYTES: usize = 1048576;

/// The byte sequence of a placeholder segment payload.
pub open spec fn spec_segment_blob() -> Seq<u8> {
    Seq::new(SEGMENT_BLOB_BYTES as nat, |i: int| 0u8)
}

/// Materializes a segment payload. Collecting and repackaging the actual
/// media span is an external concern; the packaging policy only dictates
/// the payload's existence and addressing, so the payload is a placeholder
/// block.
fn make_segment_data() -> (v: Vec<u8>)
    ensures
        v@ == spec_segment_blob(),
{
    let v = vec![0u8; SEGMENT_BLOB_BYTES];
    proof {
        assert(v@ =~= spec_segment_blob());
    }
    v
}

/// A stored segment payload, addressed by stream key and segment name.
pub struct StoredSegment {
    pub stream_key: String,
    pub name: String,
    pub data: Vec<u8>,
}

/// The mathematical value of a stored segment payload.
pub struct StoredSegmentView {
    pub stream_key: Seq<char>,
    pub name: Seq<char>,
    pub data: Seq<u8>,
}

impl View for StoredSegment {
    type V = StoredSegmentView;

    open spec fn view(&self) -> StoredSegmentView {
        StoredSegmentView { stream_key: self.stream_key@, name: self.name@, data: self.data@ }
    }
}

/// Whether some playlist in `pls` belongs to `key`.
pub open spec fn spec_pl_has(pls: Seq<HlsPlaylistView>, key: Seq<char>) -> bool {
    exists|i: int| 0 <= i < pls.len() && pls[i].stream_key == key
}

/// The index of the playlist of `key`.
pub open spec fn spec_pl_idx(pls: Seq<HlsPlaylistView>, key: Seq<char>) -> int {
    choose|i: int| 0 <= i < pls.len() && pls[i].stream_key == key
}

/// The playlist of `key`.
pub open spec fn spec_pl_at(pls: Seq<HlsPlaylistView>, key: Seq<char>) -> HlsPlaylistView {
    pls[spec_pl_idx(pls, key)]
}

/// True when no two playlists in `pls` share a stream key.
pub open spec fn spec_pl_distinct(pls: Seq<HlsPlaylistView>) -> bool {
    forall|i: int, j: int| 0 <= i < j < pls.len() ==> pls[i].stream_key != pls[j].stream_key
}

/// With distinct keys, an index holding `key` is the lookup result.
proof fn lemma_pl_lookup(pls: Seq<HlsPlaylistView>, key: Seq<char>, i: int)
    requires
        spec_pl_distinct(pls),
        0 <= i < pls.len(),
        pls[i].stream_key == key,
    ensures
        spec_pl_has(pls, key),
        spec_pl_idx(pls, key) == i,
        spec_pl_at(pls, key) == pls[i],
{
    assert(spec_pl_has(pls, key));
    let j = spec_pl_idx(pls, key);
    assert(0 <= j < pls.len() && pls[j].stream_key == key);
    if i < j {
        assert(pls[i].stream_key != pls[j].stream_key);
    } else if j < i {
        assert(pls[j].stream_key != pls[i].stream_key);
    }
}

/// Replacing the playlist at `at` by one of the same key keeps every key,
/// maps that key to the replacement, and leaves every other playlist as
/// it was.
proof fn lemma_pl_update(pls: Seq<HlsPlaylistView>, at: int, p: HlsPlaylistView)
    requires
        spec_pl_distinct(pls),
        0 <= at < pls.len(),
        p.stream_key == pls[at].stream_key,
    ensures
        spec_pl_distinct(pls.update(at, p)),
        spec_pl_has(pls.update(at, p), p.stream_key),
        spec_pl_at(pls.update(at, p), p.stream_key) == p,
        forall|k: Seq<char>| #[trigger]
            spec_pl_has(pls.update(at, p), k) == spec_pl_has(pls, k),
        forall|k: Seq<char>|
            k != p.stream_key && spec_pl_has(pls, k) ==> #[trigger] spec_pl_at(pls.update(at, p), k)
                == spec_pl_at(pls, k),
{
    let s1 = pls.update(at, p);
    assert forall|k: Seq<char>| #[trigger] spec_pl_has(s1, k) == spec_pl_has(pls, k) by {
        if spec_pl_has(s1, k) {
            let wi = choose|wi: int| 0 <= wi < s1.len() && s1[wi].stream_key == k;
            if wi == at {
                assert(pls[at].stream_key == k);
            } else {
                assert(pls[wi].stream_key == k);
            }
            assert(spec_pl_has(pls, k));
        }
        if spec_pl_has(pls, k) {
            let wi = choose|wi: int| 0 <= wi < pls.len() && pls[wi].stream_key == k;
            if wi == at {
                assert(s1[at].stream_key == k);
            } else {
                assert(s1[wi].stream_key == k);
            }
            assert(spec_pl_has(s1, k));
        }
    }
    lemma_pl_lookup(s1, p.stream_key, at);
    assert forall|k: Seq<char>|
        k != p.stream_key && spec_pl_has(pls, k) implies #[trigger] spec_pl_at(s1, k)
        == spec_pl_at(pls, k) by {
        let wi = choose|wi: int| 0 <= wi < pls.len() && pls[wi].stream_key == k;
        assert(wi != at);
        lemma_pl_lookup(pls, k, wi);
        lemma_pl_lookup(s1, k, wi);
    }
}

/// Appending a playlist with a fresh key adds exactly that key and leaves
/// every other playlist as it was.
proof fn lemma_pl_push(pls: Seq<HlsPlaylistView>, p: HlsPlaylistView)
    requires
        spec_pl_distinct(pls),
        !spec_pl_has(pls, p.stream_key),
    ensures
        spec_pl_distinct(pls.push(p)),
        spec_pl_has(pls.push(p), p.stream_key),
        spec_pl_at(pls.push(p), p.stream_key) == p,
        forall|k: Seq<char>|
            k != p.stream_key ==> #[trigger] spec_pl_has(pls.push(p), k) == spec_pl_has(pls, k),
        forall|k: Seq<char>|
            k != p.stream_key && spec_pl_has(pls, k) ==> #[trigger] spec_pl_at(pls.push(p), k)
                == spec_pl_at(pls, k),
{
    let s1 = pls.push(p);
    assert forall|i: int, j: int|
        0 <= i < j < s1.len() implies s1[i].stream_key != s1[j].stream_key by {
        if j < pls.len() {
            assert(pls[i].stream_key != pls[j].stream_key);
        } else {
            assert(s1[j] == p);
            if s1[i].stream_key == p.stream_key {
                assert(pls[i].stream_key == p.stream_key);
                assert(spec_pl_has(pls, p.stream_key));
            }
        }
    }
    lemma_pl_lookup(s1, p.stream_key, pls.len() as int);
    assert forall|k: Seq<char>|
        k != p.stream_key implies #[trigger] spec_pl_has(s1, k) == spec_pl_has(pls, k) by {
        if spec_pl_has(s1, k) {
            let wi = choose|wi: int| 0 <= wi < s1.len() && s1[wi].stream_key == k;
            assert(wi < pls.len());
            assert(spec_pl_has(pls, k));
        }
        if spec_pl_has(pls, k) {
            let wi = choose|wi: int| 0 <= wi < pls.len() && pls[wi].stream_key == k;
            assert(s1[wi].stream_key == k);
            assert(spec_pl_has(s1, k));
        }
    }
    assert forall|k: Seq<char>|
        k != p.stream_key && spec_pl_has(pls, k) implies #[trigger] spec_pl_at(s1, k)
        == spec_pl_at(pls, k) by {
        let wi = choose|wi: int| 0 <= wi < pls.len() && pls[wi].stream_key == k;
        lemma_pl_lookup(pls, k, wi);
        lemma_pl_lookup(s1, k, wi);
    }
}

/// Whether some stored payload in `blobs` is addressed by `key`/`name`.
pub open spec fn spec_blob_has(blobs: Seq<StoredSegmentView>, key: Seq<char>, name: Seq<char>) -> bool {
    exists|i: int| 0 <= i < blobs.len() && blobs[i].stream_key == key && blobs[i].name == name
}

/// The index of the payload addressed by `key`/`name`.
pub open spec fn spec_blob_idx(blobs: Seq<StoredSegmentView>, key: Seq<char>, name: Seq<char>) -> int {
    choose|i: int| 0 <= i < blobs.len() && blobs[i].stream_key == key && blobs[i].name == name
}

/// The payload addressed by `key`/`name`.
pub open spec fn spec_blob_at(
    blobs: Seq<StoredSegmentView>,
    key: Seq<char>,
    name: Seq<char>,
) -> StoredSegmentView {
    blobs[spec_blob_idx(blobs, key, name)]
}

/// True when no two stored payloads share an address.
pub open spec fn spec_blob_distinct(blobs: Seq<StoredSegmentView>) -> bool {
    forall|i: int, j: int|
        0 <= i < j < blobs.len() ==> !(blobs[i].stream_key == blobs[j].stream_key && blobs[i].name
            == blobs[j].name)
}

/// With distinct addresses, an index holding `key`/`name` is the lookup
/// result.
proof fn lemma_blob_lookup(blobs: Seq<StoredSegmentView>, key: Seq<char>, name: Seq<char>, i: int)
    requires
        spec_blob_distinct(blobs),
        0 <= i < blobs.len(),
        blobs[i].stream_key == key,
        blobs[i].name == name,
    ensures
        spec_blob_has(blobs, key, name),
        spec_blob_idx(blobs, key, name) == i,
        spec_blob_at(blobs, key, name) == blobs[i],
{
    assert(spec_blob_has(blobs, key, name));
    let j = spec_blob_idx(blobs, key, name);
    assert(0 <= j < blobs.len() && blobs[j].stream_key == key && blobs[j].name == name);
    if i < j {
        assert(!(blobs[i].stream_key == blobs[j].stream_key && blobs[i].name == blobs[j].name));
    } else if j < i {
        assert(!(blobs[j].stream_key == blobs[i].stream_key && blobs[j].name == blobs[i].name));
    }
}

/// Storing a payload (replacing or appending at its address) maps exactly
/// that address to it and leaves every other address as it was.
proof fn lemma_blob_store(s0: Seq<StoredSegmentView>, s1: Seq<StoredSegmentView>, b: StoredSegmentView, at: int)
    requires
        spec_blob_distinct(s0),
        (0 <= at < s0.len() && s0[at].stream_key == b.stream_key && s0[at].name == b.name && s1
            == s0.update(at, b)) || (!spec_blob_has(s0, b.stream_key, b.name) && at == s0.len()
            && s1 == s0.push(b)),
    ensures
        spec_blob_distinct(s1),
        spec_blob_has(s1, b.stream_key, b.name),
        spec_blob_at(s1, b.stream_key, b.name) == b,
        forall|k: Seq<char>, n: Seq<char>|
            !(k == b.stream_key && n == b.name) ==> #[trigger] spec_blob_has(s1, k, n)
                == spec_blob_has(s0, k, n),
        forall|k: Seq<char>, n: Seq<char>|
            !(k == b.stream_key && n == b.name) && spec_blob_has(s0, k, n)
                ==> #[trigger] spec_blob_at(s1, k, n) == spec_blob_at(s0, k, n),
{
    assert forall|i: int, j: int|
        0 <= i < j < s1.len() implies !(s1[i].stream_key == s1[j].stream_key && s1[i].name
        == s1[j].name) by {
        if i != at && j != at {
            assert(s1[i] == s0[i] && s1[j] == s0[j]);
        } else if i == at {
            assert(s1[j] == s0[j]);
            if s0[j].stream_key == b.stream_key && s0[j].name == b.name {
                if at < s0.len() && s1 == s0.update(at, b) {
                    assert(!(s0[at].stream_key == s0[j].stream_key && s0[at].name == s0[j].name));
                } else {
                    assert(spec_blob_has(s0, b.stream_key, b.name));
                }
            }
        } else {
            assert(s1[i] == s0[i]);
            if s0[i].stream_key == b.stream_key && s0[i].name == b.name {
                if at < s0.len() && s1 == s0.update(at, b) {
                    assert(!(s0[i].stream_key == s0[at].stream_key && s0[i].name == s0[at].name));
                } else {
                    assert(spec_blob_has(s0, b.stream_key, b.name));
                }
            }
        }
    }
    lemma_blob_lookup(s1, b.stream_key, b.name, at);
    assert forall|k: Seq<char>, n: Seq<char>|
        !(k == b.stream_key && n == b.name) implies #[trigger] spec_blob_has(s1, k, n)
        == spec_blob_has(s0, k, n) by {
        if spec_blob_has(s1, k, n) {
            let wi = choose|wi: int|
                0 <= wi < s1.len() && s1[wi].stream_key == k && s1[wi].name == n;
            assert(wi != at);
            assert(s0[wi].stream_key == k && s0[wi].name == n);
            assert(spec_blob_has(s0, k, n));
        }
        if spec_blob_has(s0, k, n) {
            let wi = choose|wi: int|
                0 <= wi < s0.len() && s0[wi].stream_key == k && s0[wi].name == n;
            assert(wi != at);
            assert(s1[wi].stream_key == k && s1[wi].name == n);
            assert(spec_blob_has(s1, k, n));
        }
    }
    assert forall|k: Seq<char>, n: Seq<char>|
        !(k == b.stream_key && n == b.name) && spec_blob_has(s0, k, n) implies #[trigger] spec_blob_at(
        s1,
        k,
        n,
    ) == spec_blob_at(s0, k, n) by {
        let wi = choose|wi: int| 0 <= wi < s0.len() && s0[wi].stream_key == k && s0[wi].name == n;
        assert(wi != at);
        lemma_blob_lookup(s0, k, n, wi);
        lemma_blob_lookup(s1, k, n, wi);
    }
}

/// The playlist a packaging step starts from: the stored playlist of
/// `key`, or a fresh one under the configured windowing policy.
pub open spec fn spec_pl_or_fresh(
    pls: Seq<HlsPlaylistView>,
    key: Seq<char>,
    cfg: StorageConfig,
) -> HlsPlaylistView {
    if spec_pl_has(pls, key) {
        spec_pl_at(pls, key)
    } else {
        spec_fresh_playlist(key, cfg.hls_segment_duration, cfg.hls_playlist_length)
    }
}

/// A playlist after one packaging step at `now`: when a boundary is due,
/// the next segment is appended; otherwise the playlist is unchanged.
pub open spec fn spec_processed_playlist(
    p0: HlsPlaylistView,
    duration: u32,
    now: u64,
) -> HlsPlaylistView {
    if spec_segment_due(p0, now) {
        spec_playlist_add(p0, spec_segment_name(p0.next_segment_number as nat), duration, now)
    } else {
        p0
    }
}

/// The segment packaging component: one sliding playlist per live stream
/// and the store of produced segment payloads.
pub struct HlsManager {
    config: StorageConfig,
    playlists: Vec<HlsPlaylist>,
    segments: Vec<StoredSegment>,
}

impl HlsManager {
    /// The packager's storage configuration.
    pub closed spec fn config(&self) -> StorageConfig {
        self.config
    }

    /// The playlists, one per stream key.
    pub closed spec fn playlists(&self) -> Seq<HlsPlaylistView> {
        self.playlists@.map_values(|p: HlsPlaylist| p@)
    }

    /// The stored segment payloads.
    pub closed spec fn blobs(&self) -> Seq<StoredSegmentView> {
        self.segments@.map_values(|b: StoredSegment| b@)
    }

    /// Whether a playlist exists for `key`.
    pub open spec fn pl_has(&self, key: Seq<char>) -> bool {
        spec_pl_has(self.playlists(), key)
    }

    /// The playlist of `key`.
    pub open spec fn pl_at(&self, key: Seq<char>) -> HlsPlaylistView {
        spec_pl_at(self.playlists(), key)
    }

    /// Internal shape: playlist keys and payload addresses are distinct,
    /// every playlist is well-formed, and every playlist carries the
    /// configured windowing policy.
    pub open spec fn wf(&self) -> bool {
        &&& spec_pl_distinct(self.playlists())
        &&& spec_blob_distinct(self.blobs())
        &&& forall|i: int|
            0 <= i < self.playlists().len() ==> spec_playlist_wf(#[trigger] self.playlists()[i])
        &&& forall|i: int|
            0 <= i < self.playlists().len() ==> (#[trigger] self.playlists()[i]).target_duration
                == self.config().hls_segment_duration
        &&& forall|i: int|
            0 <= i < self.playlists().len() ==> (#[trigger] self.playlists()[i]).max_segments
                == self.config().hls_playlist_length
    }

    /// A packager with no playlists and no stored payloads. Creating the
    /// segment directory on disk is the surrounding process's part.
    pub fn new(config: &StorageConfig) -> (m: HlsManager)
        ensures
            m.wf(),
            m.config() == *config,
            m.playlists().len() == 0,
            m.blobs().len() == 0,
    {
        let m = HlsManager { config: config.clone(), playlists: Vec::new(), segments: Vec::new() };
        proof {
            assert(m.playlists() =~= Seq::<HlsPlaylistView>::empty());
            assert(m.blobs() =~= Seq::<StoredSegmentView>::empty());
        }
        m
    }

    /// The index of the playlist of `key`, if one exists.
    fn find_playlist(&self, key: &str) -> (r: Option<usize>)
        ensures
            match r {
                Some(i) => i < self.playlists().len() && self.playlists()[i as int].stream_key
                    == key@,
                None => !self.pl_has(key@),
            },
    {
        let n = self.playlists.len();
        let mut i: usize = 0;
        while i < n
            invariant
                n == self.playlists@.len(),
                i <= n,
                forall|j: int| 0 <= j < i ==> self.playlists()[j].stream_key != key@,
            decreases n - i,
        {
            if str_eq(self.playlists[i].stream_key.as_str(), key) {
                proof {
                    assert(self.playlists()[i as int] == self.playlists@[i as int]@);
                }
                return Some(i);
            }
            proof {
                assert(self.playlists()[i as int] == self.playlists@[i as int]@);
            }
            i += 1;
        }
        None
    }

    /// The index of the payload addressed by `key`/`name`, if one exists.
    fn find_blob(&self, key: &str, name: &str) -> (r: Option<usize>)
        ensures
            match r {
                Some(i) => i < self.blobs().len() && self.blobs()[i as int].stream_key == key@
                    && self.blobs()[i as int].name == name@,
                None => !spec_blob_has(self.blobs(), key@, name@),
            },
    {
        let n = self.segments.len();
        let mut i: usize = 0;
        while i < n
            invariant
                n == self.segments@.len(),
                i <= n,
                forall|j: int|
                    0 <= j < i ==> !((#[trigger] self.blobs()[j]).stream_key == key@
                        && self.blobs()[j].name == name@),
            decreases n - i,
        {
            if str_eq(self.segments[i].stream_key.as_str(), key) && str_eq(
                self.segments[i].name.as_str(),
                name,
            ) {
                proof {
                    assert(self.blobs()[i as int] == self.segments@[i as int]@);
                }
                return Some(i);
            }
            proof {
                assert(self.blobs()[i as int] == self.segments@[i as int]@);
            }
            i += 1;
        }
        None
    }

    /// The playlist text for `stream_key`, in the exact format; an absent
    /// key surfaces `StreamNotFound`.
    pub fn get_playlist(&self, stream_key: &str) -> (r: StreamResult<String>)
        requires
            self.wf(),
        ensures
            match r {
                Ok(s) => self.pl_has(stream_key@) && s@ == spec_m3u8(self.pl_at(stream_key@)),
                Err(e) => e is StreamNotFound && !self.pl_has(stream_key@),
            },
    {
        match self.find_playlist(stream_key) {
            Some(i) => {
                proof {
                    lemma_pl_lookup(self.playlists(), stream_key@, i as int);
                }
                Ok(self.playlists[i].generate_m3u8())
            },
            None => Err(StreamError::StreamNotFound(stream_key.to_owned())),
        }
    }

    /// The payload of segment `segment_name` of `stream_key`; an absent
    /// address surfaces `StreamNotFound`.
    pub fn get_segment(&self, stream_key: &str, segment_name: &str) -> (r: StreamResult<Vec<u8>>)
        requires
            self.wf(),
        ensures
            match r {
                Ok(d) => spec_blob_has(self.blobs(), stream_key@, segment_name@) && d@
                    == spec_blob_at(self.blobs(), stream_key@, segment_name@).data,
                Err(e) => e is StreamNotFound && !spec_blob_has(
                    self.blobs(),
                    stream_key@,
                    segment_name@,
                ),
            },
    {
        match self.find_blob(stream_key, segment_name) {
            Some(i) => {
                proof {
                    lemma_blob_lookup(self.blobs(), stream_key@, segment_name@, i as int);
                }
                Ok(clone_bytes(&self.segments[i].data))
            },
            None => Err(StreamError::StreamNotFound(segment_name.to_owned())),
        }
    }

    /// One packaging step for one stream at instant `now_ms`: nothing for
    /// a stream that is not live; otherwise ensure the stream's playlist
    /// exists and, when a boundary is due, materialize the next segment,
    /// store its payload, and slide the playlist window.
    pub fn process_stream(&mut self, stream_key: &str, stream: &LiveStream, now_ms: u64) -> (r:
        StreamResult<()>)
        requires
            old(self).wf(),
            old(self).pl_has(stream_key@) ==> old(self).pl_at(stream_key@).next_segment_number
                < u32::MAX,
        ensures
            final(self).wf(),
            r is Ok,
            final(self).config() == old(self).config(),
            !(stream.status() is Live) ==> final(self).playlists() == old(self).playlists()
                && final(self).blobs() == old(self).blobs(),
            stream.status() is Live ==> ({
                let p0 = if old(self).pl_has(stream_key@) {
                    old(self).pl_at(stream_key@)
                } else {
                    spec_fresh_playlist(
                        stream_key@,
                        old(self).config().hls_segment_duration,
                        old(self).config().hls_playlist_length,
                    )
                };
                let nm = spec_segment_name(p0.next_segment_number as nat);
                &&& final(self).pl_has(stream_key@)
                &&& (spec_segment_due(p0, now_ms) ==> final(self).pl_at(stream_key@)
                    == spec_playlist_add(
                    p0,
                    nm,
                    old(self).config().hls_segment_duration,
                    now_ms,
                ) && spec_blob_has(final(self).blobs(), stream_key@, nm) && spec_blob_at(
                    final(self).blobs(),
                    stream_key@,
                    nm,
                ).data == spec_segment_blob())
                &&& (!spec_segment_due(p0, now_ms) ==> final(self).pl_at(stream_key@) == p0
                    && final(self).blobs() == old(self).blobs())
                &&& forall|k: Seq<char>|
                    k != stream_key@ ==> #[trigger] spec_pl_has(final(self).playlists(), k)
                        == spec_pl_has(old(self).playlists(), k)
                &&& forall|k: Seq<char>|
                    k != stream_key@ && spec_pl_has(old(self).playlists(), k)
                        ==> #[trigger] spec_pl_at(final(self).playlists(), k) == spec_pl_at(
                        old(self).playlists(),
                        k,
                    )
                &&& forall|k: Seq<char>, n: Seq<char>|
                    !(k == stream_key@ && n == nm) ==> #[trigger] spec_blob_has(
                        final(self).blobs(),
                        k,
                        n,
                    ) == spec_blob_has(old(self).blobs(), k, n)
                &&& forall|k: Seq<char>, n: Seq<char>|
                    !(k == stream_key@ && n == nm) && spec_blob_has(old(self).blobs(), k, n)
                        ==> #[trigger] spec_blob_at(final(self).blobs(), k, n) == spec_blob_at(
                        old(self).blobs(),
                        k,
                        n,
                    )
            }),
    {
        if !stream.get_status().is_live() {
            return Ok(());
        }
        let ghost pls0 = old(self).playlists();
        let i: usize = match self.find_playlist(stream_key) {
            Some(i) => {
                proof {
                    lemma_pl_lookup(pls0, stream_key@, i as int);
                }
                i
            },
            None => {
                let p = HlsPlaylist::new(stream_key.to_owned(), &self.config);
                self.playlists.push(p);
                proof {
                    assert(self.playlists() =~= pls0.push(p@));
                    lemma_pl_push(pls0, p@);
                }
                self.playlists.len() - 1
            },
        };
        let ghost pls1 = self.playlists();
        let ghost p0 = pls1[i as int];
        let due = self.playlists[i].should_generate_segment(now_ms);
        if due {
            let nm = segment_name(self.playlists[i].next_sequence());
            let data = make_segment_data();
            let blob = StoredSegment {
                stream_key: stream_key.to_owned(),
                name: nm.clone(),
                data,
            };
            let ghost blobs0 = self.blobs();
            let ghost blobv = blob@;
            match self.find_blob(stream_key, nm.as_str()) {
                Some(bi) => {
                    self.segments.set(bi, blob);
                    proof {
                        assert(self.blobs() =~= blobs0.update(bi as int, blobv));
                        lemma_blob_store(blobs0, self.blobs(), blobv, bi as int);
                    }
                },
                None => {
                    self.segments.push(blob);
                    proof {
                        assert(self.blobs() =~= blobs0.push(blobv));
                        lemma_blob_store(blobs0, self.blobs(), blobv, blobs0.len() as int);
                    }
                },
            }
            let dur = self.config.hls_segment_duration;
            let playlist = &mut self.playlists[i];
            playlist.add_segment(nm, dur, now_ms);
            proof {
                assert(self.playlists() =~= pls1.update(
                    i as int,
                    spec_playlist_add(p0, blobv.name, dur, now_ms),
                ));
                lemma_pl_update(pls1, i as int, spec_playlist_add(p0, blobv.name, dur, now_ms));
            }
        }
        Ok(())
    }
}

/// The playlist window never exceeds its bound, the newest segment is
/// always kept, and segments leave oldest-first: after a boundary, the
/// advertised window is a suffix of the old segments plus the new one.
pub proof fn lemma_playlist_window_bound(p: HlsPlaylistView, name: Seq<char>, dur: u32, now: u64)
    requires
        spec_playlist_wf(p),
        p.next_segment_number < u32::MAX,
    ensures
        ({
            let seg = HlsSegmentView { name, duration: dur, sequence: p.next_segment_number };
            let all = p.segments.push(seg);
            let p1 = spec_playlist_add(p, name, dur, now);
            &&& p1.segments.len() <= p.max_segments
            &&& spec_playlist_wf(p1)
            &&& (p.max_segments >= 1 ==> p1.segments.len() >= 1 && p1.segments.last() == seg)
            &&& forall|i: int|
                0 <= i < p1.segments.len() ==> #[trigger] p1.segments[i] == all[i + (all.len()
                    - p1.segments.len())]
        }),
{
    let seg = HlsSegmentView { name, duration: dur, sequence: p.next_segment_number };
    let all = p.segments.push(seg);
    let p1 = spec_playlist_add(p, name, dur, now);
    assert forall|i: int| 0 <= i < p1.segments.len() implies (#[trigger] p1.segments[i]).sequence
        as int == p1.next_segment_number - p1.segments.len() + i by {
        let d = all.len() - p1.segments.len();
        assert(p1.segments[i] == all[i + d]);
    }
}

} // verus!
