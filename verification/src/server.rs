//! The streaming server's composition: the shared registry, the guard, the
//! packager and the signaling handler, plus the recurring packaging sweep.
//! Listening, accepting and task scheduling are the surrounding process's
//! part.

use vstd::prelude::*;
use crate::auth::AuthManager;
use crate::config::ServerConfig;
use crate::error::StreamResult;
use crate::hls::{spec_pl_has, HlsManager};
use crate::signaling::WebRtcSignalingHandler;
use crate::stream::StreamManager;

verus! {

/// One packaging sweep at instant `now_ms`: every registered live stream
/// is processed once (see `HlsManager::process_stream`), so each live
/// stream's playlist afterwards is exactly its old (or fresh) playlist
/// after one packaging step; playlists that no live stream claims are
/// untouched, and one stream's handling never affects the sweep over the
/// others.
pub fn hls_sweep(hls: &mut HlsManager, registry: &StreamManager, now_ms: u64)
    requires
        old(hls).wf(),
        registry.wf(),
        forall|k: Seq<char>|
            spec_pl_has(old(hls).playlists(), k) ==> (#[trigger] crate::hls::spec_pl_at(
                old(hls).playlists(),
                k,
            )).next_segment_number < u32::MAX,
    ensures
        final(hls).wf(),
        final(hls).config() == old(hls).config(),
        forall|i: int|
            0 <= i < registry.streams().len() && (#[trigger] registry.streams()[i]).status()
                is Live ==> final(hls).pl_has(registry.streams()[i].key()),
        forall|i: int|
            0 <= i < registry.streams().len() && (#[trigger] registry.streams()[i]).status()
                is Live ==> crate::hls::spec_pl_at(final(hls).playlists(), registry.streams()[i].key())
                == crate::hls::spec_processed_playlist(
                crate::hls::spec_pl_or_fresh(
                    old(hls).playlists(),
                    registry.streams()[i].key(),
                    old(hls).config(),
                ),
                old(hls).config().hls_segment_duration,
                now_ms,
            ),
        forall|k: Seq<char>|
            !(exists|i: int|
                0 <= i < registry.streams().len() && (#[trigger] registry.streams()[i]).key() == k
                    && registry.streams()[i].status() is Live) ==> #[trigger] spec_pl_has(
                final(hls).playlists(),
                k,
            ) == spec_pl_has(old(hls).playlists(), k) && (spec_pl_has(old(hls).playlists(), k)
                ==> crate::hls::spec_pl_at(final(hls).playlists(), k) == crate::hls::spec_pl_at(
                old(hls).playlists(),
                k,
            )),
{
    let keys = registry.list_streams();
    let n = keys.len();
    let mut i: usize = 0;
    while i < n
        invariant
            registry.wf(),
            n == keys@.len(),
            n == registry.streams().len(),
            forall|j: int| 0 <= j < n ==> (#[trigger] keys@[j])@ == registry.streams()[j].key(),
            i <= n,
            hls.wf(),
            hls.config() == old(hls).config(),
            forall|k: Seq<char>|
                hls.pl_has(k) ==> (#[trigger] crate::hls::spec_pl_at(
                    hls.playlists(),
                    k,
                )).next_segment_number < u32::MAX || (exists|j: int|
                    0 <= j < i && (#[trigger] registry.streams()[j]).key() == k),
            forall|j: int|
                0 <= j < i && (#[trigger] registry.streams()[j]).status() is Live ==> hls.pl_has(
                    registry.streams()[j].key(),
                ) && crate::hls::spec_pl_at(hls.playlists(), registry.streams()[j].key())
                    == crate::hls::spec_processed_playlist(
                    crate::hls::spec_pl_or_fresh(
                        old(hls).playlists(),
                        registry.streams()[j].key(),
                        old(hls).config(),
                    ),
                    old(hls).config().hls_segment_duration,
                    now_ms,
                ),
            forall|k: Seq<char>|
                !(exists|j: int|
                    0 <= j < i && (#[trigger] registry.streams()[j]).key() == k
                        && registry.streams()[j].status() is Live) ==> #[trigger] spec_pl_has(
                    hls.playlists(),
                    k,
                ) == spec_pl_has(old(hls).playlists(), k) && (spec_pl_has(old(hls).playlists(), k)
                    ==> crate::hls::spec_pl_at(hls.playlists(), k) == crate::hls::spec_pl_at(
                    old(hls).playlists(),
                    k,
                )),
        decreases n - i,
    {
        let key = &keys[i];
        let ghost pls_before = hls.playlists();
        match registry.get_stream(key.as_str()) {
            Some(stream) => {
                proof {
                    assert(registry.streams()[i as int].key() == key@);
                    // the keys are distinct, so this key was not processed yet
                    assert(!(exists|j: int|
                        0 <= j < i && (#[trigger] registry.streams()[j]).key() == key@)) by {
                        if exists|j: int|
                            0 <= j < i && (#[trigger] registry.streams()[j]).key() == key@ {
                            let j = choose|j: int|
                                0 <= j < i && (#[trigger] registry.streams()[j]).key() == key@;
                            assert(registry.streams()[j].key() == registry.streams()[
                                i as int].key());
                            assert(false);
                        }
                    }
                    assert(registry.stream_at(key@) == registry.streams()[i as int]);
                }
                let _ = hls.process_stream(key.as_str(), stream, now_ms);
                proof {
                    assert forall|k: Seq<char>|
                        hls.pl_has(k) implies (#[trigger] crate::hls::spec_pl_at(
                        hls.playlists(),
                        k,
                    )).next_segment_number < u32::MAX || (exists|j: int|
                        0 <= j < i + 1 && (#[trigger] registry.streams()[j]).key() == k) by {
                        if k == key@ {
                            assert(registry.streams()[i as int].key() == k);
                        } else {
                            assert(spec_pl_has(pls_before, k) == hls.pl_has(k));
                        }
                    }
                    assert forall|j: int|
                        0 <= j < i + 1 && (#[trigger] registry.streams()[j]).status()
                            is Live implies hls.pl_has(registry.streams()[j].key())
                        && crate::hls::spec_pl_at(hls.playlists(), registry.streams()[j].key())
                        == crate::hls::spec_processed_playlist(
                        crate::hls::spec_pl_or_fresh(
                            old(hls).playlists(),
                            registry.streams()[j].key(),
                            old(hls).config(),
                        ),
                        old(hls).config().hls_segment_duration,
                        now_ms,
                    ) by {
                        let k = registry.streams()[j].key();
                        if j < i {
                            assert(k != key@);
                            assert(spec_pl_has(pls_before, k) == hls.pl_has(k));
                        }
                    }
                    assert forall|k: Seq<char>|
                        !(exists|j: int|
                            0 <= j < i + 1 && (#[trigger] registry.streams()[j]).key() == k
                                && registry.streams()[j].status() is Live) implies #[trigger] spec_pl_has(
                        hls.playlists(),
                        k,
                    ) == spec_pl_has(old(hls).playlists(), k) && (spec_pl_has(
                        old(hls).playlists(),
                        k,
                    ) ==> crate::hls::spec_pl_at(hls.playlists(), k) == crate::hls::spec_pl_at(
                        old(hls).playlists(),
                        k,
                    )) by {
                        if k == key@ && stream.status() is Live {
                            assert(registry.streams()[i as int].key() == k
                                && registry.streams()[i as int].status() is Live);
                            assert(false);
                        }
                        if k != key@ {
                            assert(spec_pl_has(pls_before, k) == spec_pl_has(hls.playlists(), k));
                        }
                    }
                }
            },
            None => {
                proof {
                    assert(registry.streams()[i as int].key() == key@);
                    assert(false);
                }
            },
        }
        i += 1;
    }
}

/// The streaming server: every shared component under one roof, each
/// handed by shared ownership to the surface that needs it.
pub struct StreamingServer {
    pub config: ServerConfig,
    pub stream_manager: StreamManager,
    pub auth_manager: AuthManager,
    pub hls_manager: HlsManager,
    pub signaling: WebRtcSignalingHandler,
}

impl StreamingServer {
    /// Internal shape: every component is well-formed.
    pub open spec fn wf(&self) -> bool {
        &&& self.stream_manager.wf()
        &&& self.auth_manager.wf()
        &&& self.hls_manager.wf()
        &&& self.signaling.wf()
    }

    /// Builds the server's components from configuration: an empty
    /// registry, the guard over the configured allow-list, an empty
    /// packager and an idle signaling handler.
    pub fn new(config: ServerConfig) -> (r: StreamResult<StreamingServer>)
        ensures
            r matches Ok(s) && ({
                &&& s.wf()
                &&& s.stream_manager.streams().len() == 0
                &&& s.auth_manager.spec_enabled() == config.auth.enabled
                &&& s.auth_manager.key_set() == crate::auth::spec_key_set(
                    config.auth.valid_stream_keys@,
                )
                &&& s.hls_manager.config() == config.storage
                &&& s.hls_manager.playlists().len() == 0
                &&& s.signaling.sessions().len() == 0
            }),
    {
        let stream_manager = StreamManager::new();
        let auth_manager = AuthManager::new(&config.auth);
        let hls_manager = HlsManager::new(&config.storage);
        let signaling = WebRtcSignalingHandler::new();
        Ok(StreamingServer { config, stream_manager, auth_manager, hls_manager, signaling })
    }

    /// One packaging sweep over the registry at instant `now_ms`.
    pub fn process_hls_once(&mut self, now_ms: u64)
        requires
            old(self).wf(),
            forall|k: Seq<char>|
                spec_pl_has(old(self).hls_manager.playlists(), k) ==> (
                #[trigger] crate::hls::spec_pl_at(
                    old(self).hls_manager.playlists(),
                    k,
                )).next_segment_number < u32::MAX,
        ensures
            final(self).wf(),
            final(self).stream_manager == old(self).stream_manager,
            final(self).auth_manager == old(self).auth_manager,
            final(self).signaling == old(self).signaling,
            forall|i: int|
                0 <= i < final(self).stream_manager.streams().len()
                    && (#[trigger] final(self).stream_manager.streams()[i]).status() is Live
                    ==> final(self).hls_manager.pl_has(
                    final(self).stream_manager.streams()[i].key(),
                ),
    {
        hls_sweep(&mut self.hls_manager, &self.stream_manager, now_ms);
    }
}

} // verus!
