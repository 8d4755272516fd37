use vstd::prelude::*;

use crate::client::{IOClient, ObjectSource, SourceFactory};
use crate::config::{IOConfig, IOConfigView};

verus! {

/// One cached client and the key it is cached under.
pub struct CacheEntry<S, F> {
    pub multi_thread: bool,
    pub client: IOClient<S, F>,
}

/// The clients built so far, one for each pair of concurrency mode and
/// configuration value, so that equal configurations share one client.
/// Entries are never evicted.
pub struct ClientCache<S, F> {
    pub entries: Vec<CacheEntry<S, F>>,
}

/// The key of an entry: its concurrency mode and its configuration's value.
pub open spec fn entry_key<S, F>(e: CacheEntry<S, F>) -> (bool, IOConfigView) {
    (e.multi_thread, e.client.config@)
}

impl<S: ObjectSource, F: SourceFactory<S>> ClientCache<S, F> {
    pub open spec fn keys(&self) -> Seq<(bool, IOConfigView)> {
        self.entries@.map_values(|e: CacheEntry<S, F>| entry_key(e))
    }

    /// One entry per key, and every client well formed.
    pub open spec fn wf(&self) -> bool {
        &&& self.keys().no_duplicates()
        &&& forall|i: int| 0 <= i < self.entries@.len() ==> (#[trigger] self.entries@[i]).client.wf()
    }

    /// An empty cache.
    pub fn new() -> (r: ClientCache<S, F>)
        ensures
            r.wf(),
            r.entries@.len() == 0,
    {
        ClientCache { entries: Vec::new() }
    }

    /// Where the client for a key is kept, if one was built.
    pub fn find(&self, multi_thread: bool, config: &IOConfig) -> (r: Option<usize>)
        ensures
            r is Some <==> self.keys().contains((multi_thread, config@)),
            r is Some ==> r->Some_0 < self.entries@.len() && self.keys()[r->Some_0 as int] == (
                multi_thread,
                config@,
            ),
    {
        let mut i: usize = 0;
        while i < self.entries.len()
            invariant
                i <= self.entries@.len(),
                forall|j: int| 0 <= j < i ==> self.keys()[j] != (multi_thread, config@),
            decreases self.entries@.len() - i,
        {
            let e = &self.entries[i];
            if e.multi_thread == multi_thread && e.client.config.same_as(config) {
                assert(self.keys()[i as int] == (multi_thread, config@));
                return Some(i);
            }
            i = i + 1;
        }
        proof {
            if self.keys().contains((multi_thread, config@)) {
                let j = choose|j: int|
                    0 <= j < self.keys().len() && self.keys()[j] == (multi_thread, config@);
                assert(self.keys()[j] == (multi_thread, config@));
            }
        }
        None
    }
}

/// The client for `config` in the given concurrency mode: the cached one when
/// an equal configuration was seen before, else a new client (built with
/// `factory`) that is cached from then on. The result is the entry's place.
pub fn get_io_client<S: ObjectSource, F: SourceFactory<S>>(
    cache: &mut ClientCache<S, F>,
    multi_thread: bool,
    config: IOConfig,
    factory: F,
) -> (r: usize)
    requires
        old(cache).wf(),
    ensures
        final(cache).wf(),
        r < final(cache).entries@.len(),
        final(cache).keys()[r as int] == (multi_thread, config@),
        old(cache).keys().contains((multi_thread, config@)) ==> final(cache).entries@ == old(
            cache,
        ).entries@,
        !old(cache).keys().contains((multi_thread, config@)) ==> final(cache).keys() == old(
            cache,
        ).keys().push((multi_thread, config@)) && final(cache).entries@.drop_last() == old(
            cache,
        ).entries@ && r == old(cache).entries@.len() && final(cache).entries@[r as int].client.sources@.len()
            == 0 && final(cache).entries@[r as int].client.factory == factory,
{
    match cache.find(multi_thread, &config) {
        Some(i) => i,
        None => {
            let ghost before = cache.entries@;
            let client = IOClient::new(config, factory);
            cache.entries.push(CacheEntry { multi_thread, client });
            proof {
                assert(cache.entries@.drop_last() == before);
                assert(cache.keys() == before.map_values(|e: CacheEntry<S, F>| entry_key(e)).push(
                    (multi_thread, config@),
                ));
                assert forall|i: int| 0 <= i < cache.entries@.len() implies (
                #[trigger] cache.entries@[i]).client.wf() by {
                    if i < before.len() {
                        assert(cache.entries@[i] == before[i]);
                    }
                }
            }
            cache.entries.len() - 1
        },
    }
}

/// In a well-formed cache a key has one entry: two requests with the same
/// concurrency mode and equal configurations reach the same client, and
/// requests that differ in either reach different clients.
pub proof fn lemma_one_entry_per_key(keys: Seq<(bool, IOConfigView)>, i: int, j: int)
    requires
        keys.no_duplicates(),
        0 <= i < keys.len(),
        0 <= j < keys.len(),
    ensures
        (keys[i] == keys[j]) == (i == j),
{
}

} // verus!
