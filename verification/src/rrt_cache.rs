use vstd::prelude::*;

verus! {

/// One outstanding request: the key is the pair (flow id, optional
/// sub-stream id) and the value is the request's capture timestamp in
/// nanoseconds.
#[derive(Clone, Copy, Debug)]
pub struct RrtEntry {
    pub flow_id: u64,
    pub stream_id: Option<u32>,
    pub timestamp: u64,
}

/// Whether `e` is the outstanding request of key `(flow_id, stream_id)`.
pub open spec fn entry_matches(e: RrtEntry, flow_id: u64, stream_id: Option<u32>) -> bool {
    e.flow_id == flow_id && e.stream_id == stream_id
}

/// Whether two entries carry the same key.
pub open spec fn entry_same_key(a: RrtEntry, b: RrtEntry) -> bool {
    a.flow_id == b.flow_id && a.stream_id == b.stream_id
}

/// Whether an entry with the given key is present.
pub open spec fn cache_has(s: Seq<RrtEntry>, flow_id: u64, stream_id: Option<u32>) -> bool {
    exists|i: int| 0 <= i < s.len() && entry_matches(s[i], flow_id, stream_id)
}

/// The index of the entry with the given key.  Meaningful only when the
/// key is present and the sequence holds each key at most once.
pub open spec fn cache_index(s: Seq<RrtEntry>, flow_id: u64, stream_id: Option<u32>) -> int {
    choose|i: int| 0 <= i < s.len() && entry_matches(s[i], flow_id, stream_id)
}

/// The cached request timestamp for the given key, when present.
pub open spec fn cache_lookup(s: Seq<RrtEntry>, flow_id: u64, stream_id: Option<u32>) -> Option<
    u64,
> {
    if cache_has(s, flow_id, stream_id) {
        Some(s[cache_index(s, flow_id, stream_id)].timestamp)
    } else {
        None
    }
}

/// The entries after recording a request of key `(flow_id, stream_id)` at
/// `timestamp` in a cache bounded to `cap` entries: an entry with the same
/// key is overwritten in place; otherwise the entry is appended, evicting
/// the oldest entry when the cache is full.
pub open spec fn cache_after_add(
    s: Seq<RrtEntry>,
    cap: int,
    flow_id: u64,
    stream_id: Option<u32>,
    timestamp: u64,
) -> Seq<RrtEntry> {
    let e = RrtEntry { flow_id, stream_id, timestamp };
    if cache_has(s, flow_id, stream_id) {
        s.update(cache_index(s, flow_id, stream_id), e)
    } else if s.len() < cap {
        s.push(e)
    } else {
        s.skip(1).push(e)
    }
}

/// The entries after a lookup-and-remove of the given key: the matching
/// entry leaves the cache, so a request correlates with at most one
/// response; an absent key leaves the cache unchanged.
pub open spec fn cache_after_remove(
    s: Seq<RrtEntry>,
    flow_id: u64,
    stream_id: Option<u32>,
) -> Seq<RrtEntry> {
    if cache_has(s, flow_id, stream_id) {
        s.remove(cache_index(s, flow_id, stream_id))
    } else {
        s
    }
}

/// Every key appears at most once.
pub open spec fn cache_keys_unique(s: Seq<RrtEntry>) -> bool {
    forall|i: int, j: int|
        0 <= i < s.len() && 0 <= j < s.len() && i != j ==> !entry_same_key(
            #[trigger] s[i],
            #[trigger] s[j],
        )
}

/// Removing an entry never introduces a duplicate key.
proof fn lemma_unique_after_remove(s: Seq<RrtEntry>, i: int)
    requires
        cache_keys_unique(s),
        0 <= i < s.len(),
    ensures
        cache_keys_unique(s.remove(i)),
{
    let t = s.remove(i);
    assert forall|a: int, b: int|
        0 <= a < t.len() && 0 <= b < t.len() && a != b implies !entry_same_key(
        #[trigger] t[a],
        #[trigger] t[b],
    ) by {
        let a0: int = if a < i { a } else { a + 1 };
        let b0: int = if b < i { b } else { b + 1 };
        assert(t[a] == s[a0]);
        assert(t[b] == s[b0]);
    }
}

/// Bounded cache correlating outstanding requests with their responses.
///
/// Keys pair the flow identifier with an optional sub-stream identifier
/// (`None` for single-exchange protocols, the stream id for multiplexed
/// ones).  Capacity is fixed at construction; when the cache is full a new
/// key evicts the oldest entry, trading worst-case correlation accuracy
/// for bounded memory.
#[derive(Debug)]
pub struct L7RrtCache {
    entries: Vec<RrtEntry>,
    cap: usize,
}

impl L7RrtCache {
    /// The recorded requests, oldest first.
    pub closed spec fn view(&self) -> Seq<RrtEntry> {
        self.entries@
    }

    /// The capacity bound the cache was created with.
    pub closed spec fn spec_cap(&self) -> int {
        self.cap as int
    }

    pub open spec fn wf(&self) -> bool {
        &&& self.spec_cap() >= 1
        &&& self@.len() <= self.spec_cap()
        &&& cache_keys_unique(self@)
    }

    pub fn new(cap: usize) -> (r: Self)
        requires
            cap >= 1,
        ensures
            r.wf(),
            r@ == Seq::<RrtEntry>::empty(),
            r.spec_cap() == cap,
    {
        let r = L7RrtCache { entries: Vec::new(), cap };
        proof {
            assert(r@ =~= Seq::<RrtEntry>::empty());
        }
        r
    }

    /// Index of the entry with the given key, if any.
    fn find(&self, flow_id: u64, stream_id: Option<u32>) -> (r: Option<usize>)
        requires
            self.wf(),
        ensures
            r is Some <==> cache_has(self@, flow_id, stream_id),
            r matches Some(i) ==> 0 <= i < self@.len() && entry_matches(
                self@[i as int],
                flow_id,
                stream_id,
            ) && i == cache_index(self@, flow_id, stream_id),
    {
        let n = self.entries.len();
        let mut i: usize = 0;
        while i < n
            invariant
                n == self@.len(),
                self.wf(),
                0 <= i <= n,
                forall|j: int| 0 <= j < i ==> !entry_matches(#[trigger] self@[j], flow_id, stream_id),
            decreases n - i,
        {
            let e = &self.entries[i];
            if e.flow_id == flow_id && e.stream_id == stream_id {
                proof {
                    assert(entry_matches(self@[i as int], flow_id, stream_id));
                    let k = cache_index(self@, flow_id, stream_id);
                    assert(0 <= k < self@.len() && entry_matches(self@[k], flow_id, stream_id));
                    if k != i as int {
                        assert(!entry_same_key(self@[k], self@[i as int]));
                    }
                }
                return Some(i);
            }
            i = i + 1;
        }
        None
    }

    /// Records the outstanding request of key `(flow_id, stream_id)` at
    /// `timestamp`, overwriting an entry of the same key and evicting the
    /// oldest entry when a new key arrives at capacity.
    pub fn add_req_time(&mut self, flow_id: u64, stream_id: Option<u32>, timestamp: u64)
        requires
            old(self).wf(),
        ensures
            final(self).wf(),
            final(self).spec_cap() == old(self).spec_cap(),
            final(self)@ == cache_after_add(
                old(self)@,
                old(self).spec_cap(),
                flow_id,
                stream_id,
                timestamp,
            ),
    {
        let e = RrtEntry { flow_id, stream_id, timestamp };
        let ghost s0 = self@;
        match self.find(flow_id, stream_id) {
            Some(i) => {
                self.entries[i] = e;
                proof {
                    let s1 = self@;
                    assert(s1 == s0.update(i as int, e));
                    assert forall|a: int, b: int|
                        0 <= a < s1.len() && 0 <= b < s1.len() && a != b implies !entry_same_key(
                        #[trigger] s1[a],
                        #[trigger] s1[b],
                    ) by {
                        assert(entry_same_key(s1[a], s0[a]));
                        assert(entry_same_key(s1[b], s0[b]));
                        assert(!entry_same_key(s0[a], s0[b]));
                    }
                }
            },
            None => {
                proof {
                    assert forall|x: int| 0 <= x < s0.len() implies !entry_same_key(
                        #[trigger] s0[x],
                        e,
                    ) by {
                        assert(!entry_matches(s0[x], flow_id, stream_id));
                    }
                }
                if self.entries.len() >= self.cap {
                    self.entries.remove(0);
                    proof {
                        lemma_unique_after_remove(s0, 0);
                        assert(s0.remove(0) =~= s0.skip(1));
                    }
                }
                self.entries.push(e);
                proof {
                    let sm = if s0.len() >= self.spec_cap() {
                        s0.skip(1)
                    } else {
                        s0
                    };
                    let s1 = self@;
                    assert(s1 == sm.push(e));
                    assert forall|a: int, b: int|
                        0 <= a < s1.len() && 0 <= b < s1.len() && a != b implies !entry_same_key(
                        #[trigger] s1[a],
                        #[trigger] s1[b],
                    ) by {
                        if a < sm.len() && b < sm.len() {
                            assert(s1[a] == sm[a]);
                            assert(s1[b] == sm[b]);
                        } else if a < sm.len() {
                            assert(s1[b] == e);
                            if s0.len() >= self.spec_cap() {
                                assert(s1[a] == s0[a + 1]);
                            } else {
                                assert(s1[a] == s0[a]);
                            }
                        } else {
                            assert(s1[a] == e);
                            if s0.len() >= self.spec_cap() {
                                assert(s1[b] == s0[b + 1]);
                            } else {
                                assert(s1[b] == s0[b]);
                            }
                        }
                    }
                }
            },
        }
    }

    /// Returns and deletes the cached request timestamp for the key, or
    /// returns nothing when the key is absent (already matched, evicted,
    /// or never seen — indistinguishable, and all normal).
    pub fn get_and_remove_l7_req_time(&mut self, flow_id: u64, stream_id: Option<u32>) -> (r:
        Option<u64>)
        requires
            old(self).wf(),
        ensures
            final(self).wf(),
            final(self).spec_cap() == old(self).spec_cap(),
            r == cache_lookup(old(self)@, flow_id, stream_id),
            final(self)@ == cache_after_remove(old(self)@, flow_id, stream_id),
    {
        let ghost s0 = self@;
        match self.find(flow_id, stream_id) {
            Some(i) => {
                let e = self.entries.remove(i);
                proof {
                    lemma_unique_after_remove(s0, i as int);
                }
                Some(e.timestamp)
            },
            None => None,
        }
    }
}

/// Recording a request never introduces a duplicate key.
pub proof fn lemma_unique_after_add(
    s: Seq<RrtEntry>,
    cap: int,
    flow_id: u64,
    stream_id: Option<u32>,
    timestamp: u64,
)
    requires
        cache_keys_unique(s),
        cap >= 1,
    ensures
        cache_keys_unique(cache_after_add(s, cap, flow_id, stream_id, timestamp)),
{
    let e = RrtEntry { flow_id, stream_id, timestamp };
    let t = cache_after_add(s, cap, flow_id, stream_id, timestamp);
    if cache_has(s, flow_id, stream_id) {
        let i = cache_index(s, flow_id, stream_id);
        assert(0 <= i < s.len() && entry_matches(s[i], flow_id, stream_id));
        assert forall|a: int, b: int|
            0 <= a < t.len() && 0 <= b < t.len() && a != b implies !entry_same_key(
            #[trigger] t[a],
            #[trigger] t[b],
        ) by {
            assert(entry_same_key(t[a], s[a]));
            assert(entry_same_key(t[b], s[b]));
        }
    } else {
        assert forall|x: int| 0 <= x < s.len() implies !entry_same_key(#[trigger] s[x], e) by {
            assert(!entry_matches(s[x], flow_id, stream_id));
        }
        if s.len() < cap {
            assert forall|a: int, b: int|
                0 <= a < t.len() && 0 <= b < t.len() && a != b implies !entry_same_key(
                #[trigger] t[a],
                #[trigger] t[b],
            ) by {
                if a < s.len() && b < s.len() {
                    assert(t[a] == s[a] && t[b] == s[b]);
                } else if a < s.len() {
                    assert(t[a] == s[a] && t[b] == e);
                } else {
                    assert(t[a] == e && t[b] == s[b]);
                }
            }
        } else {
            let m = s.skip(1);
            assert forall|a: int, b: int|
                0 <= a < t.len() && 0 <= b < t.len() && a != b implies !entry_same_key(
                #[trigger] t[a],
                #[trigger] t[b],
            ) by {
                if a < m.len() && b < m.len() {
                    assert(t[a] == s[a + 1] && t[b] == s[b + 1]);
                } else if a < m.len() {
                    assert(t[a] == s[a + 1] && t[b] == e);
                } else {
                    assert(t[a] == e && t[b] == s[b + 1]);
                }
            }
        }
    }
}

/// After a request is recorded, a lookup of its key yields exactly the
/// recorded timestamp.
pub proof fn lemma_lookup_after_add(
    s: Seq<RrtEntry>,
    cap: int,
    flow_id: u64,
    stream_id: Option<u32>,
    timestamp: u64,
)
    requires
        cache_keys_unique(s),
        cap >= 1,
    ensures
        cache_lookup(cache_after_add(s, cap, flow_id, stream_id, timestamp), flow_id, stream_id)
            == Some(timestamp),
{
    let e = RrtEntry { flow_id, stream_id, timestamp };
    let t = cache_after_add(s, cap, flow_id, stream_id, timestamp);
    lemma_unique_after_add(s, cap, flow_id, stream_id, timestamp);
    if cache_has(s, flow_id, stream_id) {
        let i = cache_index(s, flow_id, stream_id);
        assert(t[i] == e);
        assert(cache_has(t, flow_id, stream_id));
        let k = cache_index(t, flow_id, stream_id);
        if k != i {
            assert(!entry_same_key(t[k], t[i]));
        }
    } else if s.len() < cap {
        let i = s.len() as int;
        assert(t[i] == e);
        assert(cache_has(t, flow_id, stream_id));
        let k = cache_index(t, flow_id, stream_id);
        if k != i {
            assert(!entry_same_key(t[k], t[i]));
        }
    } else {
        let i = t.len() - 1;
        assert(t[i] == e);
        assert(cache_has(t, flow_id, stream_id));
        let k = cache_index(t, flow_id, stream_id);
        if k != i {
            assert(!entry_same_key(t[k], t[i]));
        }
    }
}

/// A request timestamp correlates with at most one response: once the
/// matching entry has been looked up and removed, a second lookup of the
/// same key finds nothing.
pub proof fn lemma_correlation_at_most_once(
    s: Seq<RrtEntry>,
    flow_id: u64,
    stream_id: Option<u32>,
)
    requires
        cache_keys_unique(s),
        cache_has(s, flow_id, stream_id),
    ensures
        cache_lookup(cache_after_remove(s, flow_id, stream_id), flow_id, stream_id) is None,
{
    let i = cache_index(s, flow_id, stream_id);
    let t = s.remove(i);
    assert(0 <= i < s.len() && entry_matches(s[i], flow_id, stream_id));
    assert forall|j: int| 0 <= j < t.len() implies !entry_matches(
        #[trigger] t[j],
        flow_id,
        stream_id,
    ) by {
        let j0: int = if j < i { j } else { j + 1 };
        assert(t[j] == s[j0]);
        if entry_matches(s[j0], flow_id, stream_id) {
            assert(entry_same_key(s[j0], s[i]));
        }
    }
}

/// A lookup of one key neither observes nor disturbs the entry cached
/// under a different key: concurrent sub-streams of one flow correlate
/// independently.
pub proof fn lemma_distinct_keys_independent(
    s: Seq<RrtEntry>,
    flow_id: u64,
    stream_a: Option<u32>,
    stream_b: Option<u32>,
)
    requires
        cache_keys_unique(s),
        stream_a != stream_b,
    ensures
        cache_lookup(cache_after_remove(s, flow_id, stream_a), flow_id, stream_b) == cache_lookup(
            s,
            flow_id,
            stream_b,
        ),
{
    if cache_has(s, flow_id, stream_a) {
        let i = cache_index(s, flow_id, stream_a);
        let t = s.remove(i);
        assert(0 <= i < s.len() && entry_matches(s[i], flow_id, stream_a));
        if cache_has(s, flow_id, stream_b) {
            let j = cache_index(s, flow_id, stream_b);
            assert(0 <= j < s.len() && entry_matches(s[j], flow_id, stream_b));
            assert(j != i);
            let j1: int = if j < i { j } else { j - 1 };
            assert(t[j1] == s[j]);
            assert(cache_has(t, flow_id, stream_b));
            let k = cache_index(t, flow_id, stream_b);
            assert(0 <= k < t.len() && entry_matches(t[k], flow_id, stream_b));
            let k0: int = if k < i { k } else { k + 1 };
            assert(t[k] == s[k0]);
            if k0 != j {
                assert(!entry_same_key(s[k0], s[j]));
            }
            assert(t[k].timestamp == s[j].timestamp);
        } else {
            if cache_has(t, flow_id, stream_b) {
                let k = cache_index(t, flow_id, stream_b);
                let k0: int = if k < i { k } else { k + 1 };
                assert(t[k] == s[k0]);
                assert(entry_matches(s[k0], flow_id, stream_b));
            }
        }
    }
}

} // verus!
