//! Keyed registries of shared resources.
//!
//! A cache is an arena that only grows: every resource is built once, on the
//! first request for its key, and is addressed from then on by a small
//! integer, its handle. Holders of a handle share the one resource, and a
//! handle never changes its meaning.

use vstd::prelude::*;

verus! {

/// A registry that maps string keys to resources of type `T`, one resource
/// per key at most.
#[derive(Debug)]
pub struct ResourceCache<T> {
    keys: Vec<String>,
    values: Vec<T>,
}

/// What a successful request for `key` does to a cache: `pre` and `post` are
/// the keys before and after, `handle` is what the request returns.
pub open spec fn served(
    pre: Seq<Seq<char>>,
    key: Seq<char>,
    post: Seq<Seq<char>>,
    handle: int,
) -> bool {
    &&& 0 <= handle < post.len()
    &&& post[handle] == key
    &&& if pre.contains(key) {
        post == pre
    } else {
        post == pre.push(key) && handle == pre.len()
    }
}

impl<T> ResourceCache<T> {
    /// The keys in order of creation: the key at position `h` belongs to
    /// handle `h`.
    pub closed spec fn keys(&self) -> Seq<Seq<char>> {
        Seq::new(self.keys@.len(), |i: int| self.keys@[i]@)
    }

    /// The resources in order of creation: the one at position `h` is what
    /// handle `h` stands for.
    pub closed spec fn resources(&self) -> Seq<T> {
        self.values@
    }

    /// Every key has its resource, and no key occurs twice.
    pub open spec fn wf(&self) -> bool {
        &&& self.keys().len() == self.resources().len()
        &&& self.keys().no_duplicates()
    }

    /// The handle that `key` is registered under, if it is.
    pub open spec fn handle_of(&self, key: Seq<char>) -> Option<int> {
        if self.keys().contains(key) {
            Some(self.keys().index_of(key))
        } else {
            None
        }
    }

    /// An empty cache.
    pub fn new() -> (cache: Self)
        ensures
            cache.wf(),
            cache.keys() == Seq::<Seq<char>>::empty(),
            cache.resources() == Seq::<T>::empty(),
    {
        let cache = ResourceCache { keys: Vec::new(), values: Vec::new() };
        assert(cache.keys() =~= Seq::<Seq<char>>::empty());
        cache
    }

    /// Number of resources held.
    pub fn len(&self) -> (n: usize)
        requires
            self.wf(),
        ensures
            n == self.keys().len(),
            n == self.resources().len(),
    {
        self.keys.len()
    }

    /// The handle of `key`, if a resource was created for it.
    pub fn find(&self, key: &str) -> (found: Option<usize>)
        requires
            self.wf(),
        ensures
            match found {
                Some(h) => self.handle_of(key@) == Some(h as int) && h < self.keys().len()
                    && self.keys()[h as int] == key@,
                None => !self.keys().contains(key@),
            },
    {
        let wanted = String::from_str(key);
        let n: usize = self.keys.len();
        let mut i: usize = 0;
        while i < n
            invariant
                i <= n,
                n == self.keys@.len(),
                wanted@ == key@,
                self.wf(),
                forall|j: int| 0 <= j < i ==> self.keys()[j] != key@,
            decreases n - i,
        {
            if self.keys[i] == wanted {
                assert(self.keys()[i as int] == key@);
                return Some(i);
            }
            i += 1;
        }
        None
    }

    /// The resource behind `handle`, if the handle was given out by this
    /// cache.
    pub fn get(&self, handle: usize) -> (resource: Option<&T>)
        requires
            self.wf(),
        ensures
            match resource {
                Some(r) => handle < self.resources().len() && *r == self.resources()[handle as int],
                None => handle >= self.resources().len(),
            },
    {
        if handle < self.values.len() {
            Some(&self.values[handle])
        } else {
            None
        }
    }

    /// The key that `handle` was created for, if the handle was given out by
    /// this cache.
    pub fn key(&self, handle: usize) -> (key: Option<&str>)
        requires
            self.wf(),
        ensures
            match key {
                Some(k) => handle < self.keys().len() && k@ == self.keys()[handle as int],
                None => handle >= self.keys().len(),
            },
    {
        if handle < self.keys.len() {
            Some(self.keys[handle].as_str())
        } else {
            None
        }
    }

    /// Returns the handle of the resource registered under `key`, building
    /// the resource first if there is none yet.
    ///
    /// With the key present the builder is not run and the cache stays as it
    /// is. With the key absent the builder runs once; what it builds is
    /// appended under the next free handle. If the builder fails, its error is
    /// returned and the cache stays as it is.
    pub fn get_or_create<E, F: FnOnce() -> Result<T, E>>(&mut self, key: &str, builder: F) -> (r:
        Result<usize, E>)
        requires
            old(self).wf(),
            !old(self).keys().contains(key@) ==> builder.requires(()),
        ensures
            final(self).wf(),
            old(self).keys().contains(key@) ==> r.is_ok() && final(self).resources() == old(
                self,
            ).resources(),
            match r {
                Ok(h) => {
                    &&& served(old(self).keys(), key@, final(self).keys(), h as int)
                    &&& !old(self).keys().contains(key@) ==> {
                        &&& builder.ensures((), Ok(final(self).resources()[h as int]))
                        &&& final(self).resources() == old(self).resources().push(
                            final(self).resources()[h as int],
                        )
                    }
                },
                Err(e) => {
                    &&& !old(self).keys().contains(key@)
                    &&& builder.ensures((), Err(e))
                    &&& final(self).keys() == old(self).keys()
                    &&& final(self).resources() == old(self).resources()
                },
            },
    {
        match self.find(key) {
            Some(h) => Ok(h),
            None => {
                match builder() {
                    Ok(resource) => {
                        let h: usize = self.keys.len();
                        let ghost before = self.keys();
                        self.keys.push(String::from_str(key));
                        self.values.push(resource);
                        proof {
                            assert(self.keys() =~= before.push(key@));
                            assert(self.keys().no_duplicates()) by {
                                assert forall|i: int, j: int|
                                    0 <= i < self.keys().len() && 0 <= j < self.keys().len() && i
                                        != j implies self.keys()[i] != self.keys()[j] by {
                                    if i < before.len() {
                                        assert(before[i] == self.keys()[i]);
                                        assert(before.contains(before[i]));
                                    }
                                    if j < before.len() {
                                        assert(before[j] == self.keys()[j]);
                                        assert(before.contains(before[j]));
                                    }
                                }
                            }
                        }
                        Ok(h)
                    },
                    Err(e) => Err(e),
                }
            },
        }
    }
}

/// Cache identity: once a request for `key` has been served, every later
/// request for the same key is answered with the same handle and adds
/// nothing to the cache.
pub proof fn lemma_cache_identity(
    k0: Seq<Seq<char>>,
    key: Seq<char>,
    k1: Seq<Seq<char>>,
    first: int,
    k2: Seq<Seq<char>>,
    second: int,
)
    requires
        k0.no_duplicates(),
        served(k0, key, k1, first),
        served(k1, key, k2, second),
    ensures
        second == first,
        k2 == k1,
{
    lemma_served_keeps_order(k0, key, k1, first);
    assert(k1.contains(key));
}

/// A served request leaves the keys free of duplicates and every earlier
/// handle bound to the key it had.
pub proof fn lemma_served_keeps_order(
    pre: Seq<Seq<char>>,
    key: Seq<char>,
    post: Seq<Seq<char>>,
    handle: int,
)
    requires
        pre.no_duplicates(),
        served(pre, key, post, handle),
    ensures
        post.no_duplicates(),
        pre.len() <= post.len(),
        forall|h: int| 0 <= h < pre.len() ==> post[h] == pre[h],
{
    if !pre.contains(key) {
        assert forall|i: int, j: int| 0 <= i < post.len() && 0 <= j < post.len() && i != j implies post[i]
            != post[j] by {
            if i < pre.len() {
                assert(pre.contains(pre[i]));
            }
            if j < pre.len() {
                assert(pre.contains(pre[j]));
            }
        }
    }
}

} // verus!
