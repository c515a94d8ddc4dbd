//! Which image files the editor watches for changes: those of the frames
//! of the open documents.

use vstd::prelude::*;
use crate::app_state::AppState;
use crate::document::DocumentModel;
use crate::names::contains_string;

verus! {

/// The files being watched.
#[derive(Debug)]
pub struct FileWatcher {
    pub watched_files: Vec<String>,
}

/// What bringing the watched files up to date takes: the files to stop
/// watching, and those to start watching.
#[derive(Debug)]
pub struct WatchChanges {
    pub to_unwatch: Vec<String>,
    pub to_watch: Vec<String>,
}

pub open spec fn string_set(v: Seq<String>) -> Set<Seq<char>> {
    v.map_values(|s: String| s@).to_set()
}

/// The image files of the frames of the documents.
pub open spec fn relevant_files(documents: Seq<DocumentModel>) -> Set<Seq<char>> {
    Set::new(
        |p: Seq<char>|
            exists|i: int, j: int|
                0 <= i < documents.len() && 0 <= j < documents[i].state.sheet.frames.len()
                    && documents[i].state.sheet.frames[j].source == p,
    )
}

/// No file is held twice.
pub open spec fn no_repeats(v: Seq<String>) -> bool {
    v.map_values(|s: String| s@).no_duplicates()
}

fn push_new(v: &mut Vec<String>, s: &String)
    requires
        no_repeats(old(v)@),
    ensures
        no_repeats(final(v)@),
        string_set(final(v)@) == string_set(old(v)@).insert(s@),
{
    let ghost before = v@.map_values(|x: String| x@);
    if !contains_string(v, s) {
        v.push(s.clone());
        assert(v@.map_values(|x: String| x@) =~= before.push(s@));
        proof {
            before.lemma_push_to_set_commute(s@);
            let after = before.push(s@);
            assert forall|a: int, b: int| 0 <= a < b < after.len() implies after[a] != after[b] by {
                if b == before.len() {
                    assert(before[a] == after[a]);
                }
            }
        }
    } else {
        assert(string_set(v@) =~= string_set(old(v)@).insert(s@));
    }
}

/// The image files of the frames of `app_state`'s documents, each once.
fn collect_relevant_files(app_state: &AppState) -> (r: Vec<String>)
    ensures
        no_repeats(r@),
        string_set(r@) == relevant_files(app_state@.documents),
{
    let ghost documents = app_state@.documents;
    let mut r: Vec<String> = Vec::new();
    let mut i: usize = 0;
    assert(string_set(r@) =~= Set::<Seq<char>>::empty());
    while i < app_state.documents.len()
        invariant
            i <= app_state.documents.len(),
            documents == app_state@.documents,
            no_repeats(r@),
            string_set(r@) == Set::new(
                |p: Seq<char>|
                    exists|a: int, j: int|
                        0 <= a < i && 0 <= j < documents[a].state.sheet.frames.len()
                            && documents[a].state.sheet.frames[j].source == p,
            ),
        decreases app_state.documents.len() - i,
    {
        let frames = app_state.documents[i].sheet.frames_iter();
        let ghost before = string_set(r@);
        let mut j: usize = 0;
        while j < frames.len()
            invariant
                i < app_state.documents.len(),
                j <= frames.len(),
                frames@ == app_state.documents@[i as int].sheet.frames@,
                documents == app_state@.documents,
                no_repeats(r@),
                string_set(r@) == before.union(
                    Set::new(
                        |p: Seq<char>|
                            exists|k: int|
                                0 <= k < j && documents[i as int].state.sheet.frames[k].source == p,
                    ),
                ),
            decreases frames.len() - j,
        {
            push_new(&mut r, &frames[j].source);
            assert(documents[i as int].state.sheet.frames[j as int].source == frames@[j as int].source@);
            assert(string_set(r@) =~= before.union(
                Set::new(
                    |p: Seq<char>|
                        exists|k: int|
                            0 <= k < j + 1 && documents[i as int].state.sheet.frames[k].source == p,
                ),
            ));
            j += 1;
        }
        assert(string_set(r@) =~= Set::new(
            |p: Seq<char>|
                exists|a: int, k: int|
                    0 <= a < i + 1 && 0 <= k < documents[a].state.sheet.frames.len()
                        && documents[a].state.sheet.frames[k].source == p,
        )) by {
            assert forall|p: Seq<char>|
                string_set(r@).contains(p) implies exists|a: int, k: int|
                    0 <= a < i + 1 && 0 <= k < documents[a].state.sheet.frames.len()
                        && documents[a].state.sheet.frames[k].source == p by {
                if !before.contains(p) {
                    let k = choose|k: int|
                        0 <= k < frames.len() && documents[i as int].state.sheet.frames[k].source
                            == p;
                    assert(0 <= i < i + 1 && 0 <= k < documents[i as int].state.sheet.frames.len()
                        && documents[i as int].state.sheet.frames[k].source == p);
                }
            }
            assert forall|p: Seq<char>|
                (exists|a: int, k: int|
                    0 <= a < i + 1 && 0 <= k < documents[a].state.sheet.frames.len()
                        && documents[a].state.sheet.frames[k].source == p) implies string_set(
                r@,
            ).contains(p) by {
                let (a, k) = choose|a: int, k: int|
                    0 <= a < i + 1 && 0 <= k < documents[a].state.sheet.frames.len()
                        && documents[a].state.sheet.frames[k].source == p;
                if a < i {
                    assert(before.contains(p));
                } else {
                    assert(0 <= k < frames.len() && documents[i as int].state.sheet.frames[k].source
                        == p);
                }
            }
        }
        i += 1;
    }
    assert(string_set(r@) =~= relevant_files(documents));
    r
}

/// The files of `v` that `set` does not hold, each once.
fn missing_from(v: &Vec<String>, set: &Vec<String>) -> (r: Vec<String>)
    requires
        no_repeats(v@),
    ensures
        no_repeats(r@),
        string_set(r@) == string_set(v@).difference(string_set(set@)),
{
    let mut r: Vec<String> = Vec::new();
    let mut i: usize = 0;
    assert(string_set(r@) =~= Set::<Seq<char>>::empty());
    while i < v.len()
        invariant
            i <= v.len(),
            no_repeats(v@),
            no_repeats(r@),
            string_set(r@) == string_set(v@.take(i as int)).difference(string_set(set@)),
        decreases v.len() - i,
    {
        if !contains_string(set, &v[i]) {
            push_new(&mut r, &v[i]);
        }
        assert(v@.take(i + 1) =~= v@.take(i as int).push(v@[i as int]));
        assert(v@.take(i + 1).map_values(|s: String| s@) =~= v@.take(i as int).map_values(
            |s: String| s@,
        ).push(v@[i as int]@));
        proof {
            v@.take(i as int).map_values(|s: String| s@).lemma_push_to_set_commute(v@[i as int]@);
        }
        assert(string_set(r@) =~= string_set(v@.take(i + 1)).difference(string_set(set@)));
        i += 1;
    }
    assert(v@.take(v.len() as int) =~= v@);
    r
}

impl FileWatcher {
    /// Nothing watched.
    pub fn new() -> (r: FileWatcher)
        ensures
            r.watched_files@ == Seq::<String>::empty(),
    {
        FileWatcher { watched_files: Vec::new() }
    }

    /// Watches the image files of the frames of the open documents, and
    /// only those: says which files to stop watching and which to start
    /// watching.
    pub fn update_watched_files(&mut self, app_state: &AppState) -> (r: WatchChanges)
        requires
            no_repeats(old(self).watched_files@),
        ensures
            no_repeats(final(self).watched_files@),
            string_set(final(self).watched_files@) == relevant_files(app_state@.documents),
            string_set(r.to_unwatch@) == string_set(old(self).watched_files@).difference(
                relevant_files(app_state@.documents),
            ),
            string_set(r.to_watch@) == relevant_files(app_state@.documents).difference(
                string_set(old(self).watched_files@),
            ),
    {
        let relevant = collect_relevant_files(app_state);
        let to_unwatch = missing_from(&self.watched_files, &relevant);
        let to_watch = missing_from(&relevant, &self.watched_files);
        self.watched_files = relevant;
        WatchChanges { to_unwatch, to_watch }
    }
}

} // verus!
