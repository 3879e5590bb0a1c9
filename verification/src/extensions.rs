//! The extension bag: a property map attached to a request, carrying at most
//! one value per key. The transport recognizes two policy entries — the
//! redirect policy and the read timeout — and translates them into engine
//! options; entries under other keys are preserved opaquely and ignored.

use vstd::prelude::*;

verus! {

/// How the engine should treat redirect responses for one request.
#[derive(Clone, Copy, Debug, PartialEq, Eq, Structural)]
pub enum RedirectPolicy {
    /// Do not follow redirects: the redirect response is returned as is.
    NoFollow,
    /// Follow at most this many redirects, then fail the request.
    FollowLimit(u32),
    /// Follow redirects without a caller-chosen bound.
    FollowAll,
}

/// An upper bound, in milliseconds, on how long the engine may take to
/// produce the response for one request.
#[derive(Clone, Copy, Debug, PartialEq, Eq, Structural)]
pub struct ReadTimeout(pub u64);

/// The contents of the opaque entries of a bag, as a map from key to value.
pub open spec fn opaque_map(s: Seq<(u64, Vec<u8>)>) -> Map<u64, Seq<u8>>
    decreases s.len(),
{
    if s.len() == 0 {
        Map::empty()
    } else {
        opaque_map(s.drop_last()).insert(s.last().0, s.last().1@)
    }
}

/// A property map attached to a request: at most one value per key,
/// inserting overwrites. The redirect policy and the read timeout are the
/// entries the transport reads; opaque entries ride along untouched.
pub struct ExtensionBag {
    redirect: Option<RedirectPolicy>,
    timeout: Option<ReadTimeout>,
    opaque: Vec<(u64, Vec<u8>)>,
}

impl ExtensionBag {
    /// The recognized redirect policy entry, if present.
    pub closed spec fn spec_redirect_policy(self) -> Option<RedirectPolicy> {
        self.redirect
    }

    /// The recognized read timeout entry, if present.
    pub closed spec fn spec_read_timeout(self) -> Option<ReadTimeout> {
        self.timeout
    }

    /// The opaque entries, as a map from key to value.
    pub closed spec fn spec_opaque(self) -> Map<u64, Seq<u8>> {
        opaque_map(self.opaque@)
    }

    /// The opaque entries hold at most one value per key.
    pub closed spec fn wf(self) -> bool {
        forall|i: int, j: int|
            0 <= i < j < self.opaque@.len() ==> self.opaque@[i].0 != self.opaque@[j].0
    }

    /// An empty bag: no policies, no opaque entries.
    pub fn new() -> (r: ExtensionBag)
        ensures
            r.wf(),
            r.spec_redirect_policy() is None,
            r.spec_read_timeout() is None,
            r.spec_opaque() == Map::<u64, Seq<u8>>::empty(),
    {
        ExtensionBag { redirect: None, timeout: None, opaque: Vec::new() }
    }

    /// Stores the redirect policy, overwriting any previous one.
    pub fn insert_redirect_policy(&mut self, policy: RedirectPolicy)
        ensures
            final(self).spec_redirect_policy() == Some(policy),
            final(self).spec_read_timeout() == old(self).spec_read_timeout(),
            final(self).spec_opaque() == old(self).spec_opaque(),
            final(self).wf() == old(self).wf(),
    {
        self.redirect = Some(policy);
    }

    /// Stores the read timeout, overwriting any previous one.
    pub fn insert_read_timeout(&mut self, timeout: ReadTimeout)
        ensures
            final(self).spec_read_timeout() == Some(timeout),
            final(self).spec_redirect_policy() == old(self).spec_redirect_policy(),
            final(self).spec_opaque() == old(self).spec_opaque(),
            final(self).wf() == old(self).wf(),
    {
        self.timeout = Some(timeout);
    }

    /// The redirect policy entry, if present.
    pub fn redirect_policy(&self) -> (r: Option<RedirectPolicy>)
        ensures
            r == self.spec_redirect_policy(),
    {
        self.redirect
    }

    /// The read timeout entry, if present.
    pub fn read_timeout(&self) -> (r: Option<ReadTimeout>)
        ensures
            r == self.spec_read_timeout(),
    {
        self.timeout
    }

    /// Stores an opaque entry under `key`, overwriting any previous value
    /// stored under the same key.
    pub fn insert_opaque(&mut self, key: u64, value: Vec<u8>)
        requires
            old(self).wf(),
        ensures
            final(self).wf(),
            final(self).spec_opaque() == old(self).spec_opaque().insert(key, value@),
            final(self).spec_redirect_policy() == old(self).spec_redirect_policy(),
            final(self).spec_read_timeout() == old(self).spec_read_timeout(),
    {
        let n = self.opaque.len();
        for i in 0..n
            invariant
                n == self.opaque@.len(),
                self.wf(),
                self.redirect == old(self).redirect,
                self.timeout == old(self).timeout,
                self.opaque@ == old(self).opaque@,
                forall|j: int| 0 <= j < i ==> self.opaque@[j].0 != key,
        {
            if self.opaque[i].0 == key {
                let ghost pre = self.opaque@;
                self.opaque[i].1 = value;
                proof {
                    assert(self.opaque@ =~= pre.update(i as int, (pre[i as int].0, self.opaque@[i as int].1)));
                    lemma_opaque_map_update(pre, i as int, self.opaque@[i as int].1);
                }
                return;
            }
        }
        self.opaque.push((key, value));
        proof {
            assert(self.opaque@.drop_last() =~= old(self).opaque@);
        }
    }

    /// The opaque entry stored under `key`, if present.
    pub fn get_opaque(&self, key: u64) -> (r: Option<&Vec<u8>>)
        requires
            self.wf(),
        ensures
            match r {
                Some(v) => self.spec_opaque().contains_key(key) && v@ == self.spec_opaque()[key],
                None => !self.spec_opaque().contains_key(key),
            },
    {
        let n = self.opaque.len();
        for i in 0..n
            invariant
                n == self.opaque@.len(),
                self.wf(),
                forall|j: int| 0 <= j < i ==> self.opaque@[j].0 != key,
        {
            if self.opaque[i].0 == key {
                proof {
                    lemma_opaque_map_found(self.opaque@, i as int, key);
                }
                return Some(&self.opaque[i].1);
            }
        }
        proof {
            lemma_opaque_map_absent(self.opaque@, key);
        }
        None
    }
}

/// Looking up a key not paired in the sequence finds nothing.
proof fn lemma_opaque_map_absent(s: Seq<(u64, Vec<u8>)>, key: u64)
    requires
        forall|i: int| 0 <= i < s.len() ==> s[i].0 != key,
    ensures
        !opaque_map(s).contains_key(key),
    decreases s.len(),
{
    if s.len() > 0 {
        lemma_opaque_map_absent(s.drop_last(), key);
    }
}

/// With unique keys, the entry at `at` decides what the map holds there.
proof fn lemma_opaque_map_found(s: Seq<(u64, Vec<u8>)>, at: int, key: u64)
    requires
        0 <= at < s.len(),
        s[at].0 == key,
        forall|i: int, j: int| 0 <= i < j < s.len() ==> s[i].0 != s[j].0,
    ensures
        opaque_map(s).contains_key(key),
        opaque_map(s)[key] == s[at].1@,
    decreases s.len(),
{
    if at + 1 < s.len() {
        assert(s.drop_last()[at] == s[at]);
        lemma_opaque_map_found(s.drop_last(), at, key);
        assert(s.last().0 != key);
    }
}

/// Replacing the value at `at` (keys unique) updates the map at that key.
proof fn lemma_opaque_map_update(s: Seq<(u64, Vec<u8>)>, at: int, value: Vec<u8>)
    requires
        0 <= at < s.len(),
        forall|i: int, j: int| 0 <= i < j < s.len() ==> s[i].0 != s[j].0,
    ensures
        opaque_map(s.update(at, (s[at].0, value))) == opaque_map(s).insert(s[at].0, value@),
    decreases s.len(),
{
    let t = s.update(at, (s[at].0, value));
    if at + 1 == s.len() {
        assert(t.drop_last() =~= s.drop_last());
        assert(opaque_map(t) =~= opaque_map(s).insert(s[at].0, value@));
    } else {
        assert(t.drop_last() =~= s.drop_last().update(at, (s[at].0, value)));
        assert(s.drop_last()[at] == s[at]);
        lemma_opaque_map_update(s.drop_last(), at, value);
        assert(t.last() == s.last());
        assert(opaque_map(t) =~= opaque_map(s).insert(s[at].0, value@));
    }
}

} // verus!
