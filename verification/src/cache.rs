//! The cache store: four mappings keyed by window handle — class name,
//! eligibility verdict, root ancestor, and learned handle pair — all
//! belonging to one cache generation. The generation carries a creation
//! time; once its age exceeds the fixed time-to-live, all four mappings are
//! discarded together and the creation time is reset. No entry is ever
//! evicted on its own: invalidation is O(1) and all-or-nothing, trading a
//! little staleness for simplicity, and bounds memory growth from
//! short-lived window handles.

use std::collections::HashMap;
use vstd::prelude::*;

verus! {

broadcast use vstd::std_specs::hash::group_hash_axioms;

/// How long one cache generation lives, in seconds: ten minutes.
pub const CACHE_TTL_SECONDS: u64 = 600;

/// The four handle-keyed mappings of one cache generation, and the time the
/// generation was created. Clock readings are seconds on a monotone clock
/// supplied by the caller, so the store is testable with an injected clock.
pub struct CacheStore {
    eligibility: HashMap<u64, bool>,
    classes: HashMap<u64, String>,
    pairs: HashMap<u64, u64>,
    roots: HashMap<u64, u64>,
    birth: u64,
}

impl CacheStore {
    /// The memoized eligibility verdicts.
    pub closed spec fn eligibility_map(&self) -> Map<u64, bool> {
        self.eligibility@
    }

    /// The memoized class names.
    pub closed spec fn class_map(&self) -> Map<u64, Seq<char>> {
        Map::new(
            |h: u64| self.classes@.contains_key(h),
            |h: u64| self.classes@[h]@,
        )
    }

    /// The learned pair relation: cursor-side handle to foreground handle.
    pub closed spec fn pair_map(&self) -> Map<u64, u64> {
        self.pairs@
    }

    /// The memoized root ancestors.
    pub closed spec fn root_map(&self) -> Map<u64, u64> {
        self.roots@
    }

    /// When the current generation was created.
    pub closed spec fn birth_time(&self) -> u64 {
        self.birth
    }

    /// All four mappings are empty.
    pub open spec fn is_empty(&self) -> bool {
        &&& self.eligibility_map() == Map::<u64, bool>::empty()
        &&& self.class_map() == Map::<u64, Seq<char>>::empty()
        &&& self.pair_map() == Map::<u64, u64>::empty()
        &&& self.root_map() == Map::<u64, u64>::empty()
    }

    /// The generation has outlived the time-to-live at clock reading `now`.
    pub open spec fn spec_expired(&self, now: u64) -> bool {
        now - self.birth_time() > CACHE_TTL_SECONDS
    }

    /// A fresh, empty generation created at `now`.
    pub fn new(now: u64) -> (r: CacheStore)
        ensures
            r.is_empty(),
            r.birth_time() == now,
    {
        let r = CacheStore {
            eligibility: HashMap::new(),
            classes: HashMap::new(),
            pairs: HashMap::new(),
            roots: HashMap::new(),
            birth: now,
        };
        proof {
            assert(r.class_map() =~= Map::<u64, Seq<char>>::empty());
        }
        r
    }

    /// Discard the whole generation: all four mappings are cleared together
    /// — never one entry at a time — and a new generation starts at `now`.
    pub fn clear_all(&mut self, now: u64)
        ensures
            final(self).is_empty(),
            final(self).birth_time() == now,
    {
        self.eligibility.clear();
        self.classes.clear();
        self.pairs.clear();
        self.roots.clear();
        self.birth = now;
        proof {
            assert(self.class_map() =~= Map::<u64, Seq<char>>::empty());
        }
    }

    /// Discard the generation if it has expired. Called once per
    /// dispatch-loop iteration, before the next event is processed.
    pub fn refresh(&mut self, now: u64)
        ensures
            old(self).spec_expired(now) ==> final(self).is_empty() && final(self).birth_time()
                == now,
            !old(self).spec_expired(now) ==> *final(self) == *old(self),
    {
        if now > self.birth && now - self.birth > CACHE_TTL_SECONDS {
            self.clear_all(now);
        }
    }

    /// Look up the memoized eligibility verdict for a handle.
    pub fn get_eligibility(&self, handle: u64) -> (r: Option<bool>)
        ensures
            r == if self.eligibility_map().contains_key(handle) {
                Some(self.eligibility_map()[handle])
            } else {
                None::<bool>
            },
    {
        match self.eligibility.get(&handle) {
            Some(v) => Some(*v),
            None => None,
        }
    }

    /// Memoize an eligibility verdict.
    pub fn put_eligibility(&mut self, handle: u64, eligible: bool)
        ensures
            final(self).eligibility_map() == old(self).eligibility_map().insert(handle, eligible),
            final(self).class_map() == old(self).class_map(),
            final(self).pair_map() == old(self).pair_map(),
            final(self).root_map() == old(self).root_map(),
            final(self).birth_time() == old(self).birth_time(),
    {
        self.eligibility.insert(handle, eligible);
    }

    /// Look up the memoized class name for a handle.
    pub fn get_class(&self, handle: u64) -> (r: Option<String>)
        ensures
            match r {
                Some(class) => self.class_map().contains_key(handle) && class@
                    == self.class_map()[handle],
                None => !self.class_map().contains_key(handle),
            },
    {
        match self.classes.get(&handle) {
            Some(class) => Some(class.clone()),
            None => None,
        }
    }

    /// Memoize a class name.
    pub fn put_class(&mut self, handle: u64, class: String)
        ensures
            final(self).class_map() == old(self).class_map().insert(handle, class@),
            final(self).eligibility_map() == old(self).eligibility_map(),
            final(self).pair_map() == old(self).pair_map(),
            final(self).root_map() == old(self).root_map(),
            final(self).birth_time() == old(self).birth_time(),
    {
        self.classes.insert(handle, class);
        proof {
            assert(self.class_map() =~= old(self).class_map().insert(handle, class@));
        }
    }

    /// Look up the learned pair target for a cursor-side handle.
    pub fn get_pair(&self, handle: u64) -> (r: Option<u64>)
        ensures
            r == if self.pair_map().contains_key(handle) {
                Some(self.pair_map()[handle])
            } else {
                None::<u64>
            },
    {
        match self.pairs.get(&handle) {
            Some(v) => Some(*v),
            None => None,
        }
    }

    /// Record that the two handles stand for one logical window.
    pub fn put_pair(&mut self, handle: u64, foreground: u64)
        ensures
            final(self).pair_map() == old(self).pair_map().insert(handle, foreground),
            final(self).eligibility_map() == old(self).eligibility_map(),
            final(self).class_map() == old(self).class_map(),
            final(self).root_map() == old(self).root_map(),
            final(self).birth_time() == old(self).birth_time(),
    {
        self.pairs.insert(handle, foreground);
    }

    /// Look up the memoized root ancestor for a handle.
    pub fn get_root(&self, handle: u64) -> (r: Option<u64>)
        ensures
            r == if self.root_map().contains_key(handle) {
                Some(self.root_map()[handle])
            } else {
                None::<u64>
            },
    {
        match self.roots.get(&handle) {
            Some(v) => Some(*v),
            None => None,
        }
    }

    /// Memoize a root ancestor.
    pub fn put_root(&mut self, handle: u64, root: u64)
        ensures
            final(self).root_map() == old(self).root_map().insert(handle, root),
            final(self).eligibility_map() == old(self).eligibility_map(),
            final(self).class_map() == old(self).class_map(),
            final(self).pair_map() == old(self).pair_map(),
            final(self).birth_time() == old(self).birth_time(),
    {
        self.roots.insert(handle, root);
    }
}

} // verus!
