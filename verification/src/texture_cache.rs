//! The images of frames as the editor has them: loading, loaded (with the
//! texture that shows them and their size), or missing; and which images to
//! load or drop as the documents change.

use vstd::prelude::*;
use crate::paths::{same_path, spec_same_path};
use crate::sheet::{first_index, lemma_first_index, lemma_first_index_found, same_path_flags};

verus! {

/// A loaded image: the texture that shows it, and its size in pixels.
#[derive(Clone, Copy, Debug)]
pub struct TextureCacheImage {
    pub id: usize,
    pub size: (u32, u32),
}

#[derive(Clone, Copy, Debug)]
pub enum CacheEntryState {
    Loading,
    Loaded(TextureCacheImage),
    Missing,
}

/// What the cache holds for an image; `outdated` once the file changed.
#[derive(Clone, Copy, Debug)]
pub struct CacheEntry {
    pub state: CacheEntryState,
    pub outdated: bool,
}

/// What the cache tells of an image.
#[derive(Clone, Copy, Debug)]
pub enum TextureCacheResult {
    Loading,
    Loaded(TextureCacheImage),
    Missing,
}

/// The images the editor has, by path; no path twice.
#[derive(Debug)]
pub struct TextureCache {
    pub cache: Vec<(String, CacheEntry)>,
}

pub open spec fn entries(cache: Seq<(String, CacheEntry)>) -> Seq<(Seq<char>, CacheEntry)> {
    cache.map_values(|e: (String, CacheEntry)| (e.0@, e.1))
}

pub open spec fn keys(entries: Seq<(Seq<char>, CacheEntry)>) -> Seq<Seq<char>> {
    entries.map_values(|e: (Seq<char>, CacheEntry)| e.0)
}

/// Whether the cache holds an image at the same path as `path`.
pub open spec fn holds(es: Seq<(Seq<char>, CacheEntry)>, path: Seq<char>) -> bool {
    same_path_flags(keys(es), path).contains(true)
}

/// The position of the first entry at the same path as `path`.
pub open spec fn key_index(es: Seq<(Seq<char>, CacheEntry)>, path: Seq<char>) -> int {
    first_index(same_path_flags(keys(es), path), true)
}

/// What the cache holds for the image at the same path as `path`.
#[verifier::opaque]
pub open spec fn entry_for(es: Seq<(Seq<char>, CacheEntry)>, path: Seq<char>) -> Option<CacheEntry> {
    if holds(es, path) {
        Some(es[key_index(es, path)].1)
    } else {
        None
    }
}

impl View for TextureCache {
    type V = Seq<(Seq<char>, CacheEntry)>;

    open spec fn view(&self) -> Seq<(Seq<char>, CacheEntry)> {
        entries(self.cache@)
    }
}

impl TextureCache {
    /// No path is held twice.
    pub open spec fn wf(&self) -> bool {
        keys(self@).no_duplicates()
    }
}

/// What the cache tells of an entry.
pub open spec fn result_of(e: CacheEntry) -> TextureCacheResult {
    match e.state {
        CacheEntryState::Loading => TextureCacheResult::Loading,
        CacheEntryState::Loaded(t) => TextureCacheResult::Loaded(t),
        CacheEntryState::Missing => TextureCacheResult::Missing,
    }
}

/// The cache once the image at `path` is given `state`: an image being
/// loaded does not replace what the cache already holds for it; an entry
/// at the same path keeps the spelling of its path, as a map's key does.
pub open spec fn inserted(es: Seq<(Seq<char>, CacheEntry)>, path: Seq<char>, state: CacheEntryState) -> Seq<
    (Seq<char>, CacheEntry),
> {
    let entry = CacheEntry { state, outdated: false };
    if holds(es, path) {
        if state is Loading {
            es
        } else {
            es.update(key_index(es, path), (es[key_index(es, path)].0, entry))
        }
    } else {
        es.push((path, entry))
    }
}

impl TextureCache {
    pub fn new() -> (r: TextureCache)
        ensures
            r@ == Seq::<(Seq<char>, CacheEntry)>::empty(),
            r.wf(),
    {
        let r = TextureCache { cache: Vec::new() };
        assert(r@ =~= Seq::<(Seq<char>, CacheEntry)>::empty());
        r
    }

    /// The position of the first entry at the same path as `path`; where
    /// there is none, no entry is at `path` itself either.
    fn position(&self, path: &str) -> (r: Option<usize>)
        ensures
            match r {
                Some(i) => i < self.cache.len() && holds(self@, path@) && key_index(self@, path@) == i,
                None => !holds(self@, path@) && !keys(self@).contains(path@),
            },
    {
        let ghost ks = keys(self@);
        let ghost flags = same_path_flags(ks, path@);
        let mut i: usize = 0;
        while i < self.cache.len()
            invariant
                i <= self.cache.len(),
                ks == keys(self@),
                flags == same_path_flags(ks, path@),
                forall|j: int| 0 <= j < i ==> flags[j] != true && ks[j] != path@,
            decreases self.cache.len() - i,
        {
            if same_path(self.cache[i].0.as_str(), path) {
                proof {
                    assert(ks[i as int] == self.cache@[i as int].0@);
                    assert(flags[i as int] == true);
                    lemma_first_index(flags, true, i as int);
                }
                return Some(i);
            }
            assert(ks[i as int] == self.cache@[i as int].0@);
            assert(flags[i as int] != true);
            i += 1;
        }
        None
    }

    /// What the cache holds for the image at the same path as `path`.
    pub fn get(&self, path: &str) -> (r: Option<TextureCacheResult>)
        ensures
            match entry_for(self@, path@) {
                Some(e) => r == Some(result_of(e)),
                None => r is None,
            },
    {
        proof {
            reveal(entry_for);
        }
        match self.position(path) {
            Some(i) => Some(
                match self.cache[i].1.state {
                    CacheEntryState::Loading => TextureCacheResult::Loading,
                    CacheEntryState::Loaded(t) => TextureCacheResult::Loaded(t),
                    CacheEntryState::Missing => TextureCacheResult::Missing,
                },
            ),
            None => None,
        }
    }

    fn insert(&mut self, path: &str, state: CacheEntryState)
        requires
            old(self).wf(),
        ensures
            final(self).wf(),
            final(self)@ == inserted(old(self)@, path@, state),
    {
        let entry = CacheEntry { state, outdated: false };
        match self.position(path) {
            Some(i) => {
                if let CacheEntryState::Loading = state {
                    return ;
                }
                let key = self.cache[i].0.clone();
                self.cache.set(i, (key, entry));
                assert(self@ =~= old(self)@.update(i as int, (old(self)@[i as int].0, entry)));
                assert(keys(self@) =~= keys(old(self)@));
            },
            None => {
                let ghost before = keys(self@);
                self.cache.push((path.to_owned(), entry));
                assert(self@ =~= old(self)@.push((path@, entry)));
                proof {
                    let after = keys(self@);
                    assert(after =~= before.push(path@));
                    assert forall|a: int, b: int| 0 <= a < b < after.len() implies after[a]
                        != after[b] by {
                        if b == before.len() {
                            assert(before[a] == after[a]);
                            assert(before.contains(before[a]));
                        }
                    }
                }
            },
        }
    }

    /// Records that the image at `path` is loaded, as texture `id` of `size`.
    pub fn insert_entry(&mut self, path: &str, id: usize, size: (u32, u32))
        requires
            old(self).wf(),
        ensures
            final(self).wf(),
            final(self)@ == inserted(
                old(self)@,
                path@,
                CacheEntryState::Loaded(TextureCacheImage { id, size }),
            ),
    {
        self.insert(path, CacheEntryState::Loaded(TextureCacheImage { id, size }));
    }

    /// Records that the image at `path` could not be loaded.
    pub fn insert_error(&mut self, path: &str)
        requires
            old(self).wf(),
        ensures
            final(self).wf(),
            final(self)@ == inserted(old(self)@, path@, CacheEntryState::Missing),
    {
        self.insert(path, CacheEntryState::Missing);
    }

    /// Records that the image at `path` is being loaded, unless the cache
    /// holds something for it already.
    pub fn insert_pending(&mut self, path: &str)
        requires
            old(self).wf(),
        ensures
            final(self).wf(),
            final(self)@ == inserted(old(self)@, path@, CacheEntryState::Loading),
    {
        self.insert(path, CacheEntryState::Loading);
    }
}

impl TextureCache {
    /// Marks the image at the same path as `path` as changed on disk, where
    /// the cache holds it.
    pub fn invalidate(&mut self, path: &str)
        requires
            old(self).wf(),
        ensures
            final(self).wf(),
            final(self)@ == if holds(old(self)@, path@) {
                old(self)@.update(
                    key_index(old(self)@, path@),
                    (
                        old(self)@[key_index(old(self)@, path@)].0,
                        CacheEntry { outdated: true, ..old(self)@[key_index(old(self)@, path@)].1 },
                    ),
                )
            } else {
                old(self)@
            },
    {
        if let Some(i) = self.position(path) {
            let entry = CacheEntry { state: self.cache[i].1.state, outdated: true };
            let key = self.cache[i].0.clone();
            self.cache.set(i, (key, entry));
            assert(self@ =~= old(self)@.update(i as int, (old(self)@[i as int].0, entry)));
            assert(keys(self@) =~= keys(old(self)@));
        }
    }

    /// Forgets the image at the same path as `path`.
    #[verifier::rlimit(100)]
    #[verifier::spinoff_prover]
    pub fn remove(&mut self, path: &str)
        requires
            old(self).wf(),
        ensures
            final(self).wf(),
            final(self)@ == if holds(old(self)@, path@) {
                old(self)@.remove(key_index(old(self)@, path@))
            } else {
                old(self)@
            },
    {
        if let Some(i) = self.position(path) {
            let ghost before = keys(self@);
            self.cache.remove(i);
            assert(self@ =~= old(self)@.remove(i as int));
            proof {
                let after = keys(self@);
                assert(after =~= before.remove(i as int));
                assert forall|a: int, b: int| 0 <= a < b < after.len() implies #[trigger] after[a] != #[trigger] after[b] by {
                    let a0 = if a < i { a } else { a + 1 };
                    let b0 = if b < i { b } else { b + 1 };
                    assert(after[a] == before[a0]);
                    assert(after[b] == before[b0]);
                }
            }
        }
    }

    /// Forgets the image at the same path as `path` where it is loaded, and
    /// gives back the texture that showed it, which is no longer needed.
    pub fn remove_if_loaded(&mut self, path: &str) -> (r: Option<usize>)
        requires
            old(self).wf(),
        ensures
            final(self).wf(),
            match entry_for(old(self)@, path@) {
                Some(e) if e.state is Loaded => r == Some(e.state->Loaded_0.id) && final(self)@ == old(
                    self,
                )@.remove(key_index(old(self)@, path@)),
                _ => r is None && final(self)@ == old(self)@,
            },
    {
        proof {
            reveal(entry_for);
        }
        match self.get(path) {
            Some(TextureCacheResult::Loaded(t)) => {
                self.remove(path);
                Some(t.id)
            },
            _ => None,
        }
    }
}

/// Whether the image at `path` is to be loaded: the cache holds nothing up
/// to date for it, loaded or known missing.
pub open spec fn needs_loading(es: Seq<(Seq<char>, CacheEntry)>, path: Seq<char>) -> bool {
    !(entry_for(es, path) matches Some(e) && !e.outdated && (e.state is Loaded || e.state is Missing))
}

/// The images to load, in the order they are wanted, and the images the
/// cache holds that are no longer wanted.
#[derive(Debug)]
pub struct LoadPlan {
    pub to_load: Vec<String>,
    pub obsolete: Vec<String>,
}

pub open spec fn path_seq(v: Seq<String>) -> Seq<Seq<char>> {
    v.map_values(|s: String| s@)
}

/// Whether some path of `paths` is the same path as `p`.
pub open spec fn among_paths(paths: Seq<Seq<char>>, p: Seq<char>) -> bool {
    same_path_flags(paths, p).contains(true)
}

/// Whether some path of `paths` is the same path as `p`.
fn among(paths: &Vec<String>, p: &str) -> (r: bool)
    ensures
        r == among_paths(path_seq(paths@), p@),
{
    let ghost flags = same_path_flags(path_seq(paths@), p@);
    let mut i: usize = 0;
    while i < paths.len()
        invariant
            i <= paths.len(),
            flags == same_path_flags(path_seq(paths@), p@),
            forall|j: int| 0 <= j < i ==> flags[j] != true,
        decreases paths.len() - i,
    {
        if same_path(paths[i].as_str(), p) {
            assert(flags[i as int] == true);
            return true;
        }
        assert(flags[i as int] != true);
        i += 1;
    }
    false
}

/// Which of the `desired` images to load, and which held images are no
/// longer wanted.
pub fn plan_loads(desired: &Vec<String>, cache: &TextureCache) -> (r: LoadPlan)
    requires
        cache.wf(),
    ensures
        path_seq(r.to_load@) == path_seq(desired@).filter(|p: Seq<char>| needs_loading(cache@, p)),
        path_seq(r.obsolete@) == keys(cache@).filter(
            |p: Seq<char>| !among_paths(path_seq(desired@), p),
        ),
{
    let ghost want = path_seq(desired@);
    let ghost load_pred = |p: Seq<char>| needs_loading(cache@, p);
    let mut to_load: Vec<String> = Vec::new();
    let mut i: usize = 0;
    while i < desired.len()
        invariant
            i <= desired.len(),
            cache.wf(),
            want == path_seq(desired@),
            load_pred == (|p: Seq<char>| needs_loading(cache@, p)),
            path_seq(to_load@) == want.take(i as int).filter(load_pred),
        decreases desired.len() - i,
    {
        proof {
            crate::sheet::lemma_filter_step(want, load_pred, i as int);
        }
        proof {
            reveal(entry_for);
        }
        let wanted = match cache.position(desired[i].as_str()) {
            Some(j) => match cache.cache[j].1.state {
                CacheEntryState::Loaded(_) | CacheEntryState::Missing => cache.cache[j].1.outdated,
                CacheEntryState::Loading => true,
            },
            None => true,
        };
        assert(wanted == load_pred(want[i as int]));
        if wanted {
            let ghost before = to_load@;
            to_load.push(desired[i].clone());
            assert(path_seq(to_load@) =~= path_seq(before).push(want[i as int]));
        }
        i += 1;
    }
    assert(want.take(desired.len() as int) =~= want);
    let ghost held = keys(cache@);
    let ghost obsolete_pred = |p: Seq<char>| !among_paths(want, p);
    let mut obsolete: Vec<String> = Vec::new();
    let mut j: usize = 0;
    while j < cache.cache.len()
        invariant
            j <= cache.cache.len(),
            want == path_seq(desired@),
            held == keys(cache@),
            obsolete_pred == (|p: Seq<char>| !among_paths(want, p)),
            path_seq(obsolete@) == held.take(j as int).filter(obsolete_pred),
        decreases cache.cache.len() - j,
    {
        proof {
            crate::sheet::lemma_filter_step(held, obsolete_pred, j as int);
        }
        assert(held[j as int] == cache.cache@[j as int].0@);
        if !among(desired, cache.cache[j].0.as_str()) {
            let ghost before = obsolete@;
            obsolete.push(cache.cache[j].0.clone());
            assert(path_seq(obsolete@) =~= path_seq(before).push(held[j as int]));
        }
        j += 1;
    }
    assert(held.take(cache.cache.len() as int) =~= held);
    LoadPlan { to_load, obsolete }
}

} // verus!
