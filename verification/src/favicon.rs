//! Per-session cache mapping page URLs to favicon URLs.

use vstd::map::*;
use vstd::prelude::*;

verus! {

/// The map abstraction of a key/value entry list with unique keys.
pub open spec fn cache_map(s: Seq<(String, String)>) -> Map<Seq<char>, Seq<char>> {
    Map::new(
        |k: Seq<char>| exists|i: int| 0 <= i < s.len() && s[i].0@ == k,
        |k: Seq<char>|
            {
                let i = choose|i: int| 0 <= i < s.len() && s[i].0@ == k;
                s[i].1@
            },
    )
}

/// Mapping from page URL to favicon URL. Keys are unique; insertion order
/// carries no meaning. Consulted when a URL change arrives without a favicon
/// event, so the UI need not show a stale icon while a page with a known
/// favicon loads.
pub struct FaviconCache {
    entries: Vec<(String, String)>,
}

impl View for FaviconCache {
    type V = Map<Seq<char>, Seq<char>>;

    closed spec fn view(&self) -> Map<Seq<char>, Seq<char>> {
        cache_map(self.entries@)
    }
}

impl FaviconCache {
    #[verifier::type_invariant]
    spec fn wf(&self) -> bool {
        forall|i: int, j: int|
            0 <= i < j < self.entries@.len() ==> (#[trigger] self.entries@[i]).0@ != (
            #[trigger] self.entries@[j]).0@
    }

    /// An empty cache.
    pub fn new() -> (r: Self)
        ensures
            r@ == Map::<Seq<char>, Seq<char>>::empty(),
    {
        let r = FaviconCache { entries: Vec::new() };
        proof {
            assert(r@ =~= Map::<Seq<char>, Seq<char>>::empty());
        }
        r
    }

    /// The favicon URL cached for a page URL, if one is known.
    pub fn lookup(&self, url: &String) -> (r: Option<String>)
        ensures
            match r {
                Some(f) => self@.contains_key(url@) && self@[url@] == f@,
                None => !self@.contains_key(url@),
            },
    {
        proof {
            use_type_invariant(self);
        }
        let n = self.entries.len();
        let mut i: usize = 0;
        while i < n
            invariant
                self.wf(),
                n == self.entries@.len(),
                i <= n,
                forall|j: int| 0 <= j < i ==> (#[trigger] self.entries@[j]).0@ != url@,
            decreases n - i,
        {
            if self.entries[i].0 == *url {
                let f = self.entries[i].1.clone();
                proof {
                    let w = choose|w: int|
                        0 <= w < self.entries@.len() && self.entries@[w].0@ == url@;
                    assert(self.entries@[i as int].0@ == url@);
                    assert(w == i as int);
                }
                return Some(f);
            }
            i = i + 1;
        }
        proof {
            assert(forall|j: int|
                0 <= j < self.entries@.len() ==> (#[trigger] self.entries@[j]).0@ != url@);
        }
        None
    }

    /// Records the favicon URL for a page URL, replacing any earlier entry.
    pub fn insert(&mut self, url: &String, favicon: String)
        ensures
            final(self)@ == old(self)@.insert(url@, favicon@),
    {
        proof {
            use_type_invariant(&*self);
        }
        let ghost key = url@;
        let mut list: Vec<(String, String)> = Vec::new();
        core::mem::swap(&mut self.entries, &mut list);
        let ghost orig = list@;
        let n = list.len();
        let mut i: usize = 0;
        let mut found: Option<usize> = None;
        while i < n
            invariant
                list@ == orig,
                n == orig.len(),
                i <= n,
                forall|k: int, l: int|
                    0 <= k < l < orig.len() ==> (#[trigger] orig[k]).0@ != (#[trigger] orig[l]).0@,
                found is None ==> (forall|j: int|
                    0 <= j < i ==> (#[trigger] orig[j]).0@ != url@),
                found matches Some(f) ==> f < n && orig[f as int].0@ == url@,
            decreases n - i,
        {
            match found {
                None => {
                    if list[i].0 == *url {
                        found = Some(i);
                    }
                },
                Some(_) => {},
            }
            i = i + 1;
        }
        let ghost newpair: (String, String) = (*url, favicon);
        if let Some(f) = found {
            list[f] = (url.clone(), favicon);
            let ghost i = f;
            proof {
                assert(list@ =~= orig.update(i as int, newpair));
                assert forall|k: int, l: int|
                    0 <= k < l < list@.len() implies (#[trigger] list@[k]).0@ != (
                #[trigger] list@[l]).0@ by {
                    assert(orig[k].0@ != orig[l].0@);
                }
                assert_maps_equal!(
                    cache_map(list@),
                    cache_map(orig).insert(key, favicon@),
                    k => {
                        if cache_map(list@).contains_key(k) {
                            let w = choose|w: int| 0 <= w < list@.len() && list@[w].0@ == k;
                            if k == key {
                                assert(w == i as int);
                            } else {
                                assert(orig[w].0@ == k);
                            }
                        }
                        if cache_map(orig).insert(key, favicon@).contains_key(k) {
                            if k == key {
                                assert(list@[i as int].0@ == k);
                            } else {
                                let w = choose|w: int| 0 <= w < orig.len() && orig[w].0@ == k;
                                assert(w != i as int);
                                assert(list@[w].0@ == k);
                                let v = choose|v: int| 0 <= v < list@.len() && list@[v].0@ == k;
                                assert(list@[v].0@ == list@[w].0@);
                                assert(v == w);
                            }
                        }
                    }
                );
            }
        } else {
            list.push((url.clone(), favicon));
            proof {
                assert(list@ =~= orig.push(newpair));
                assert(list@[orig.len() as int].0@ == key);
                assert forall|k: int, l: int|
                    0 <= k < l < list@.len() implies (#[trigger] list@[k]).0@ != (
                #[trigger] list@[l]).0@ by {
                    if l < orig.len() {
                        assert(orig[k].0@ != orig[l].0@);
                    } else {
                        assert(orig[k].0@ != key);
                    }
                }
                assert_maps_equal!(
                    cache_map(list@),
                    cache_map(orig).insert(key, favicon@),
                    k => {
                        if cache_map(list@).contains_key(k) {
                            let w = choose|w: int| 0 <= w < list@.len() && list@[w].0@ == k;
                            if k == key {
                                assert(list@[orig.len() as int].0@ == k);
                            } else {
                                assert(w < orig.len());
                                assert(orig[w].0@ == k);
                            }
                        }
                        if cache_map(orig).insert(key, favicon@).contains_key(k) {
                            if k == key {
                                assert(list@[orig.len() as int].0@ == k);
                            } else {
                                let w = choose|w: int| 0 <= w < orig.len() && orig[w].0@ == k;
                                assert(list@[w].0@ == k);
                                let v = choose|v: int| 0 <= v < list@.len() && list@[v].0@ == k;
                                assert(list@[v].0@ == list@[w].0@);
                                assert(v == w);
                            }
                        }
                    }
                );
            }
        }
        core::mem::swap(&mut self.entries, &mut list);
    }
}

} // verus!
