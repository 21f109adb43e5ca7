//! The publisher authentication guard: an allow-list of stream keys behind
//! an enabled/disabled toggle.
//!
//! Disabled means every key validates (an explicit bypass). Enabled means
//! validation is pure set membership. Key provisioning takes effect for
//! subsequent validations only; it never touches live connections.

use vstd::prelude::*;
use crate::config::AuthConfig;
use crate::strutil::str_eq;

verus! {

/// The set of key texts held in a list of keys.
pub open spec fn spec_key_set(keys: Seq<String>) -> Set<Seq<char>> {
    Set::new(|k: Seq<char>| exists|i: int| 0 <= i < keys.len() && keys[i]@ == k)
}

/// True when no two entries of `keys` hold the same text.
pub open spec fn spec_keys_distinct(keys: Seq<String>) -> bool {
    forall|i: int, j: int| 0 <= i < j < keys.len() ==> keys[i]@ != keys[j]@
}

/// Appending a key adds exactly its text to the key set.
proof fn lemma_key_set_push(keys: Seq<String>, k: String)
    ensures
        spec_key_set(keys.push(k)) == spec_key_set(keys).insert(k@),
{
    assert forall|k2: Seq<char>| spec_key_set(keys.push(k)).contains(k2) implies spec_key_set(
        keys,
    ).insert(k@).contains(k2) by {
        let wi = choose|wi: int| 0 <= wi < keys.push(k).len() && keys.push(k)[wi]@ == k2;
        if wi < keys.len() {
            assert(keys[wi]@ == k2);
            assert(spec_key_set(keys).contains(k2));
        }
    }
    assert forall|k2: Seq<char>| spec_key_set(keys).insert(k@).contains(k2) implies spec_key_set(
        keys.push(k),
    ).contains(k2) by {
        if k2 == k@ {
            assert(keys.push(k)[keys.len() as int]@ == k2);
        } else {
            let wi = choose|wi: int| 0 <= wi < keys.len() && keys[wi]@ == k2;
            assert(keys.push(k)[wi]@ == k2);
        }
    }
    assert(spec_key_set(keys.push(k)) =~= spec_key_set(keys).insert(k@));
}

/// Lists whose entries hold the same texts hold the same key set.
proof fn lemma_key_set_same_views(a: Seq<String>, b: Seq<String>)
    requires
        a.len() == b.len(),
        forall|i: int| 0 <= i < a.len() ==> a[i]@ == b[i]@,
    ensures
        spec_key_set(a) == spec_key_set(b),
{
    assert forall|k2: Seq<char>| spec_key_set(a).contains(k2) implies spec_key_set(b).contains(
        k2,
    ) by {
        let wi = choose|wi: int| 0 <= wi < a.len() && a[wi]@ == k2;
        assert(b[wi]@ == k2);
    }
    assert forall|k2: Seq<char>| spec_key_set(b).contains(k2) implies spec_key_set(a).contains(
        k2,
    ) by {
        let wi = choose|wi: int| 0 <= wi < b.len() && b[wi]@ == k2;
        assert(a[wi]@ == k2);
    }
    assert(spec_key_set(a) =~= spec_key_set(b));
}

/// Removing the only entry whose text is `key` from a duplicate-free list
/// removes exactly that text from the key set.
proof fn lemma_key_set_remove(keys: Seq<String>, at: int, key: Seq<char>)
    requires
        0 <= at < keys.len(),
        keys[at]@ == key,
        spec_keys_distinct(keys),
    ensures
        spec_key_set(keys.remove(at)) == spec_key_set(keys).remove(key),
{
    let rest = keys.remove(at);
    assert forall|k2: Seq<char>| spec_key_set(rest).contains(k2) implies spec_key_set(
        keys,
    ).remove(key).contains(k2) by {
        let wi = choose|wi: int| 0 <= wi < rest.len() && rest[wi]@ == k2;
        if wi < at {
            assert(keys[wi]@ == k2);
            assert(keys[wi]@ != keys[at]@);
        } else {
            assert(keys[wi + 1]@ == k2);
            assert(keys[wi + 1]@ != keys[at]@);
        }
        assert(spec_key_set(keys).contains(k2));
    }
    assert forall|k2: Seq<char>| spec_key_set(keys).remove(key).contains(k2) implies spec_key_set(
        rest,
    ).contains(k2) by {
        let wi = choose|wi: int| 0 <= wi < keys.len() && keys[wi]@ == k2;
        assert(wi != at);
        if wi < at {
            assert(rest[wi]@ == k2);
        } else {
            assert(rest[wi - 1]@ == k2);
        }
    }
    assert(spec_key_set(rest) =~= spec_key_set(keys).remove(key));
}

/// The authentication guard.
pub struct AuthManager {
    enabled: bool,
    valid_stream_keys: Vec<String>,
}

impl AuthManager {
    /// Whether the guard is enforcing its allow-list.
    pub closed spec fn spec_enabled(&self) -> bool {
        self.enabled
    }

    /// The allow-listed key texts.
    pub closed spec fn key_set(&self) -> Set<Seq<char>> {
        spec_key_set(self.valid_stream_keys@)
    }

    /// Internal shape: the allow-list holds no duplicate text.
    pub closed spec fn wf(&self) -> bool {
        spec_keys_distinct(self.valid_stream_keys@)
    }

    /// How many keys the allow-list holds.
    pub closed spec fn key_list_len(&self) -> nat {
        self.valid_stream_keys@.len()
    }

    /// Builds the guard from configuration, collecting the configured keys
    /// into a duplicate-free allow-list.
    pub fn new(config: &AuthConfig) -> (m: AuthManager)
        ensures
            m.wf(),
            m.spec_enabled() == config.enabled,
            m.key_set() == spec_key_set(config.valid_stream_keys@),
    {
        let ghost all = config.valid_stream_keys@;
        let mut keys: Vec<String> = Vec::new();
        let n = config.valid_stream_keys.len();
        let mut i: usize = 0;
        while i < n
            invariant
                n == all.len(),
                all == config.valid_stream_keys@,
                i <= n,
                spec_keys_distinct(keys@),
                spec_key_set(keys@) == spec_key_set(all.take(i as int)),
            decreases n - i,
        {
            let ghost old_keys = keys@;
            let k = &config.valid_stream_keys[i];
            let present = vec_contains_key(&keys, k.as_str());
            if !present {
                keys.push(k.clone());
            }
            proof {
                assert(all.take(i as int + 1) =~= all.take(i as int).push(all[i as int]));
                lemma_key_set_push(all.take(i as int), all[i as int]);
                if present {
                    assert(spec_key_set(old_keys).insert(k@) =~= spec_key_set(old_keys));
                } else {
                    assert(keys@ == old_keys.push(keys@.last()));
                    lemma_key_set_push(old_keys, keys@.last());
                }
            }
            i += 1;
        }
        proof {
            assert(all.take(n as int) =~= all);
        }
        AuthManager { enabled: config.enabled, valid_stream_keys: keys }
    }

    /// Decides whether a publisher presenting `stream_key` may publish:
    /// always when the guard is disabled, else exactly when the key is
    /// allow-listed.
    pub fn validate_stream_key(&self, stream_key: &str) -> (r: bool)
        ensures
            r == (!self.spec_enabled() || self.key_set().contains(stream_key@)),
    {
        if !self.enabled {
            return true;
        }
        vec_contains_key(&self.valid_stream_keys, stream_key)
    }

    /// Decides whether a viewer may watch the stream at `stream_key`: the
    /// same rule as for publishing, regardless of any viewer token.
    pub fn validate_viewer(&self, stream_key: &str, _viewer_token: Option<&str>) -> (r: bool)
        ensures
            r == (!self.spec_enabled() || self.key_set().contains(stream_key@)),
    {
        self.validate_stream_key(stream_key)
    }

    /// Allow-lists a key for subsequent validations.
    pub fn add_stream_key(&mut self, stream_key: String)
        requires
            old(self).wf(),
        ensures
            final(self).wf(),
            final(self).spec_enabled() == old(self).spec_enabled(),
            final(self).key_set() == old(self).key_set().insert(stream_key@),
    {
        let ghost old_keys = old(self).valid_stream_keys@;
        let present = vec_contains_key(&self.valid_stream_keys, stream_key.as_str());
        if !present {
            self.valid_stream_keys.push(stream_key);
            proof {
                lemma_key_set_push(old_keys, self.valid_stream_keys@.last());
            }
        } else {
            proof {
                assert(spec_key_set(old_keys).insert(stream_key@) =~= spec_key_set(old_keys));
            }
        }
    }

    /// Drops a key from the allow-list; subsequent validations of it fail
    /// while the guard is enabled.
    pub fn remove_stream_key(&mut self, stream_key: &str)
        requires
            old(self).wf(),
        ensures
            final(self).wf(),
            final(self).spec_enabled() == old(self).spec_enabled(),
            final(self).key_set() == old(self).key_set().remove(stream_key@),
    {
        let ghost old_keys = old(self).valid_stream_keys@;
        let n = self.valid_stream_keys.len();
        let mut i: usize = 0;
        while i < n
            invariant
                n == self.valid_stream_keys@.len(),
                i <= n,
                self.valid_stream_keys@ == old_keys,
                old(self).valid_stream_keys@ == old_keys,
                self.enabled == old(self).enabled,
                spec_keys_distinct(old_keys),
                forall|j: int| 0 <= j < i ==> old_keys[j]@ != stream_key@,
            decreases n - i,
        {
            if str_eq(self.valid_stream_keys[i].as_str(), stream_key) {
                self.valid_stream_keys.remove(i);
                proof {
                    lemma_key_set_remove(old_keys, i as int, stream_key@);
                    assert(self.valid_stream_keys@ == old_keys.remove(i as int));
                    assert(spec_key_set(self.valid_stream_keys@) == spec_key_set(
                        old_keys,
                    ).remove(stream_key@));
                }
                return;
            }
            i += 1;
        }
        proof {
            assert(!spec_key_set(old_keys).contains(stream_key@));
            assert(spec_key_set(old_keys) =~= spec_key_set(old_keys).remove(stream_key@));
        }
    }

    /// A snapshot of the allow-list.
    pub fn get_valid_stream_keys(&self) -> (keys: Vec<String>)
        ensures
            keys@.len() == self.key_list_len(),
            spec_key_set(keys@) == self.key_set(),
    {
        let mut out: Vec<String> = Vec::new();
        let n = self.valid_stream_keys.len();
        let mut i: usize = 0;
        while i < n
            invariant
                n == self.valid_stream_keys@.len(),
                i <= n,
                out@.len() == i,
                forall|j: int| 0 <= j < i ==> out@[j]@ == self.valid_stream_keys@[j]@,
            decreases n - i,
        {
            out.push(self.valid_stream_keys[i].clone());
            i += 1;
        }
        proof {
            lemma_key_set_same_views(out@, self.valid_stream_keys@);
        }
        out
    }
}

/// Membership of a key text in a list of keys.
fn vec_contains_key(keys: &Vec<String>, key: &str) -> (r: bool)
    ensures
        r == spec_key_set(keys@).contains(key@),
{
    let n = keys.len();
    let mut i: usize = 0;
    while i < n
        invariant
            n == keys@.len(),
            i <= n,
            forall|j: int| 0 <= j < i ==> keys@[j]@ != key@,
        decreases n - i,
    {
        if str_eq(keys[i].as_str(), key) {
            return true;
        }
        i += 1;
    }
    false
}

} // verus!
