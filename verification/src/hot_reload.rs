//! Bookkeeping of watched script files for hot reloading: which paths are
//! watched and the modification time last seen for each. The caller reads the
//! file system and hands the times in.

use vstd::prelude::*;
use crate::text::{str_equals, string_views};

verus! {

/// A watched path and the modification time last recorded for it (nanoseconds
/// since the Unix epoch).
#[derive(Debug)]
pub struct WatchedScript {
    pub path: String,
    pub modified: u128,
}

/// A watched entry as values.
pub type Entry = (Seq<char>, u128);

/// The paths of some entries, in order.
pub open spec fn entry_paths(s: Seq<Entry>) -> Seq<Seq<char>> {
    s.map_values(|e: Entry| e.0)
}

/// No path is watched twice.
pub open spec fn distinct_paths(s: Seq<Entry>) -> bool {
    forall|i: int, j: int| 0 <= i < j < s.len() ==> s[i].0 != s[j].0
}

/// Whether the `i`-th entry changed given the time observed now (None when the
/// file could not be read).
pub open spec fn entry_changed(e: Entry, observed: Option<u128>) -> bool {
    match observed {
        Some(t) => t != e.1,
        None => false,
    }
}

/// The entry after recording what was observed: a different time replaces the old.
pub open spec fn entry_after_poll(e: Entry, observed: Option<u128>) -> Entry {
    if entry_changed(e, observed) {
        (e.0, observed.unwrap())
    } else {
        e
    }
}

/// The paths that changed, in order.
pub open spec fn changed_paths(s: Seq<Entry>, observed: Seq<Option<u128>>) -> Seq<Seq<char>>
    decreases s.len(),
{
    if s.len() == 0 {
        Seq::empty()
    } else {
        let rest = changed_paths(s.drop_last(), observed.take(s.len() - 1));
        if entry_changed(s.last(), observed[s.len() - 1]) {
            rest.push(s.last().0)
        } else {
            rest
        }
    }
}

/// The watched scripts as values.
pub open spec fn entries(v: Seq<WatchedScript>) -> Seq<Entry> {
    v.map_values(|w: WatchedScript| (w.path@, w.modified))
}

/// Watched scripts and their last seen modification times.
pub struct ScriptWatcher {
    scripts: Vec<WatchedScript>,
}

impl View for ScriptWatcher {
    type V = Seq<Entry>;

    closed spec fn view(&self) -> Seq<Entry> {
        entries(self.scripts@)
    }
}

impl ScriptWatcher {
    /// No path is watched twice.
    #[verifier::type_invariant]
    spec fn wf(&self) -> bool {
        distinct_paths(self@)
    }

    /// Nothing watched.
    pub fn new() -> (w: Self)
        ensures
            w@ == Seq::<Entry>::empty(),
            distinct_paths(w@),
    {
        let w = ScriptWatcher { scripts: Vec::new() };
        assert(w@ =~= Seq::<Entry>::empty());
        w
    }

    fn find(&self, path: &str) -> (r: Option<usize>)
        ensures
            match r {
                Some(i) => i < self@.len() && self@[i as int].0 == path@,
                None => forall|i: int| 0 <= i < self@.len() ==> self@[i].0 != path@,
            },
    {
        let mut i: usize = 0;
        while i < self.scripts.len()
            invariant
                i <= self.scripts@.len(),
                self@.len() == self.scripts@.len(),
                forall|j: int| 0 <= j < i ==> self@[j].0 != path@,
            decreases self.scripts.len() - i,
        {
            if str_equals(self.scripts[i].path.as_str(), path) {
                return Some(i);
            }
            i = i + 1;
        }
        None
    }

    /// Records `path` with modification time `modified`: a path already watched
    /// keeps its place and gets the new time, a new path is appended.
    pub fn watch(&mut self, path: String, modified: u128)
        ensures
            entry_paths(old(self)@).contains(path@) ==> final(self)@.len() == old(self)@.len()
                && forall|i: int|
                0 <= i < old(self)@.len() ==> #[trigger] final(self)@[i] == if old(self)@[i].0
                    == path@ {
                    (path@, modified)
                } else {
                    old(self)@[i]
                },
            !entry_paths(old(self)@).contains(path@) ==> final(self)@ == old(self)@.push(
                (path@, modified),
            ),
            entry_paths(final(self)@).contains(path@),
            distinct_paths(final(self)@),
    {
        proof {
            use_type_invariant(&*self);
        }
        let ghost before = self@;
        match self.find(path.as_str()) {
            Some(i) => {
                assert(entry_paths(before)[i as int] == path@);
                let mut scripts: Vec<WatchedScript> = Vec::new();
                std::mem::swap(&mut scripts, &mut self.scripts);
                scripts[i].modified = modified;
                assert forall|k: int| 0 <= k < before.len() implies #[trigger] entries(scripts@)[k]
                    == if before[k].0 == path@ {
                    (path@, modified)
                } else {
                    before[k]
                } by {
                    if k != i && before[k].0 == path@ {
                        assert(before[i as int].0 == before[k].0);
                    }
                }
                assert(distinct_paths(entries(scripts@))) by {
                    assert forall|x: int, y: int| 0 <= x < y < entries(scripts@).len() implies
                        entries(scripts@)[x].0 != entries(scripts@)[y].0 by {
                        assert(entries(scripts@)[x].0 == before[x].0);
                        assert(entries(scripts@)[y].0 == before[y].0);
                    }
                }
                self.scripts = scripts;
                assert(entry_paths(self@)[i as int] == path@);
            },
            None => {
                proof {
                    if entry_paths(before).contains(path@) {
                        let k = choose|k: int| 0 <= k < before.len() && entry_paths(before)[k] == path@;
                        assert(before[k].0 == path@);
                    }
                }
                let ghost n = path@;
                let mut scripts: Vec<WatchedScript> = Vec::new();
                std::mem::swap(&mut scripts, &mut self.scripts);
                scripts.push(WatchedScript { path, modified });
                assert(entries(scripts@) =~= before.push((n, modified)));
                assert(distinct_paths(entries(scripts@))) by {
                    assert forall|a: int, b: int| 0 <= a < b < entries(scripts@).len() implies
                        entries(scripts@)[a].0 != entries(scripts@)[b].0 by {
                        if b == before.len() {
                            assert(entry_paths(before)[a] == before[a].0);
                        }
                    }
                }
                self.scripts = scripts;
                assert(self@ =~= before.push((n, modified)));
                assert(entry_paths(self@)[before.len() as int] == n);
            },
        }
    }

    /// Stops watching `path` (nothing happens if it was not watched).
    pub fn unwatch(&mut self, path: &str)
        ensures
            !entry_paths(final(self)@).contains(path@),
            forall|i: int|
                0 <= i < old(self)@.len() && old(self)@[i].0 == path@ ==> final(self)@
                    == old(self)@.remove(i),
            !entry_paths(old(self)@).contains(path@) ==> final(self)@ == old(self)@,
            distinct_paths(final(self)@),
    {
        proof {
            use_type_invariant(&*self);
        }
        let ghost before = self@;
        match self.find(path) {
            Some(i) => {
                assert(entry_paths(before)[i as int] == path@);
                let mut scripts: Vec<WatchedScript> = Vec::new();
                std::mem::swap(&mut scripts, &mut self.scripts);
                scripts.remove(i);
                assert(entries(scripts@) =~= before.remove(i as int));
                assert(distinct_paths(entries(scripts@))) by {
                    assert forall|a: int, b: int| 0 <= a < b < entries(scripts@).len() implies
                        entries(scripts@)[a].0 != entries(scripts@)[b].0 by {
                        if a < i {
                            if b < i {
                            } else {
                                assert(entries(scripts@)[b] == before[b + 1]);
                            }
                        } else {
                            assert(entries(scripts@)[a] == before[a + 1]);
                            assert(entries(scripts@)[b] == before[b + 1]);
                        }
                    }
                }
                self.scripts = scripts;
                assert(self@ =~= before.remove(i as int));
                proof {
                    if entry_paths(self@).contains(path@) {
                        let k = choose|k: int| 0 <= k < self@.len() && entry_paths(self@)[k] == path@;
                        if k < i {
                            assert(before[k].0 == path@);
                        } else {
                            assert(before[k + 1].0 == path@);
                        }
                    }
                }
            },
            None => {
                proof {
                    if entry_paths(before).contains(path@) {
                        let k = choose|k: int| 0 <= k < before.len() && entry_paths(before)[k] == path@;
                        assert(before[k].0 == path@);
                    }
                }
            },
        }
    }

    /// The watched paths, in the order they were first watched.
    pub fn paths(&self) -> (p: Vec<String>)
        ensures
            string_views(p@) == entry_paths(self@),
            distinct_paths(self@),
    {
        proof {
            use_type_invariant(self);
        }
        let mut out: Vec<String> = Vec::new();
        let mut i: usize = 0;
        while i < self.scripts.len()
            invariant
                i <= self.scripts@.len(),
                self@.len() == self.scripts@.len(),
                string_views(out@) == entry_paths(self@).take(i as int),
            decreases self.scripts.len() - i,
        {
            let ghost prev = out@;
            assert(entry_paths(self@).len() == self@.len());
            assert(string_views(prev).len() == prev.len());
            assert(prev.len() == i);
            let p = self.scripts[i].path.clone();
            assert(p@ == self@[i as int].0);
            out.push(p);
            assert(out@ == prev.push(p));
            assert forall|k: int| 0 <= k < i + 1 implies #[trigger] string_views(out@)[k]
                == entry_paths(self@).take(i + 1)[k] by {
                assert(string_views(out@)[k] == out@[k]@);
                if k < i {
                    assert(out@[k] == prev[k]);
                    assert(string_views(prev)[k] == prev[k]@);
                    assert(string_views(prev)[k] == entry_paths(self@).take(i as int)[k]);
                } else {
                    assert(out@[k] == p);
                    assert(entry_paths(self@)[k] == self@[k].0);
                }
            }
            assert(string_views(out@) =~= entry_paths(self@).take(i + 1));
            i = i + 1;
        }
        assert(entry_paths(self@).take(i as int) =~= entry_paths(self@));
        out
    }

    /// Given the modification time observed now for each watched path (in the
    /// order of `paths`; None where the file could not be read), returns the
    /// paths whose time differs from the one recorded (the file changed since
    /// it was last recorded), in order, and records those times.
    pub fn poll_changed(&mut self, observed: &[Option<u128>]) -> (changed: Vec<String>)
        requires
            observed@.len() == old(self)@.len(),
        ensures
            final(self)@.len() == old(self)@.len(),
            forall|i: int|
                0 <= i < old(self)@.len() ==> #[trigger] final(self)@[i] == entry_after_poll(
                    old(self)@[i],
                    observed@[i],
                ),
            string_views(changed@) == changed_paths(old(self)@, observed@),
            changed_paths(old(self)@, observed@).no_duplicates(),
            distinct_paths(final(self)@),
    {
        proof {
            use_type_invariant(&*self);
        }
        let ghost before = self@;
        proof {
            lemma_changed_paths_distinct(before, observed@);
        }
        let mut scripts: Vec<WatchedScript> = Vec::new();
        std::mem::swap(&mut scripts, &mut self.scripts);
        let mut out: Vec<String> = Vec::new();
        let mut i: usize = 0;
        while i < scripts.len()
            invariant
                i <= scripts@.len(),
                entries(scripts@).len() == before.len(),
                observed@.len() == before.len(),
                scripts@.len() == before.len(),
                forall|j: int| 0 <= j < i ==> #[trigger] entries(scripts@)[j] == entry_after_poll(before[j], observed@[j]),
                forall|j: int| i <= j < before.len() ==> #[trigger] entries(scripts@)[j] == before[j],
                string_views(out@) == changed_paths(
                    before.take(i as int),
                    observed@.take(i as int),
                ),
            decreases scripts.len() - i,
        {
            let ghost out_before = string_views(out@);
            assert(before.take(i + 1).drop_last() =~= before.take(i as int));
            assert(observed@.take(i + 1).take(i as int) =~= observed@.take(i as int));
            assert(entries(scripts@)[i as int] == before[i as int]);
            let ghost v0 = entries(scripts@);
            match observed[i] {
                Some(t) => {
                    if t != scripts[i].modified {
                        scripts[i].modified = t;
                        assert(entries(scripts@) =~= v0.update(i as int, entry_after_poll(before[i as int], observed@[i as int])));
                        let ghost prev = out@;
                        let p = scripts[i].path.clone();
                        out.push(p);
                        assert(out@ == prev.push(p));
                        assert(string_views(out@) =~= out_before.push(before[i as int].0));
                    } else {
                        assert(entries(scripts@) =~= v0.update(i as int, entry_after_poll(before[i as int], observed@[i as int])));
                    }
                },
                None => {
                    assert(entries(scripts@) =~= v0.update(i as int, entry_after_poll(before[i as int], observed@[i as int])));
                },
            }
            i = i + 1;
        }
        assert(before.take(i as int) =~= before);
        assert(observed@.take(i as int) =~= observed@);
        assert(entry_paths(entries(scripts@)) =~= entry_paths(before)) by {
            assert forall|k: int| 0 <= k < before.len() implies entry_paths(entries(scripts@))[k] == entry_paths(before)[k] by {
                assert(entries(scripts@)[k] == entry_after_poll(before[k], observed@[k]));
            }
        }
        assert forall|a: int, b: int| 0 <= a < b < entries(scripts@).len() implies entries(scripts@)[a].0 != entries(scripts@)[b].0 by {
            assert(entries(scripts@)[a] == entry_after_poll(before[a], observed@[a]));
            assert(entries(scripts@)[b] == entry_after_poll(before[b], observed@[b]));
        }
        self.scripts = scripts;
        assert(self@ == entries(scripts@));
        out
    }
}

impl Default for ScriptWatcher {
    fn default() -> (w: Self)
        ensures
            w@ == Seq::<Entry>::empty(),
            distinct_paths(w@),
    {
        ScriptWatcher::new()
    }
}

/// Polling again with the same observations reports nothing: every changed time
/// was recorded by the first poll.
pub proof fn lemma_poll_settles(s: Seq<Entry>, observed: Seq<Option<u128>>)
    requires
        observed.len() == s.len(),
    ensures
        changed_paths(
            Seq::new(s.len(), |i: int| entry_after_poll(s[i], observed[i])),
            observed,
        ) == Seq::<Seq<char>>::empty(),
    decreases s.len(),
{
    let after = Seq::new(s.len(), |i: int| entry_after_poll(s[i], observed[i]));
    if s.len() > 0 {
        let n = (s.len() - 1) as int;
        lemma_poll_settles(s.drop_last(), observed.take(n));
        assert(after.drop_last() =~= Seq::new(
            s.drop_last().len(),
            |i: int| entry_after_poll(s.drop_last()[i], observed.take(n)[i]),
        ));
        assert(!entry_changed(after.last(), observed[n]));
    }
}


/// The paths that changed come from the watched paths, and none of them comes
/// twice when no path is watched twice.
pub proof fn lemma_changed_paths_distinct(s: Seq<Entry>, observed: Seq<Option<u128>>)
    requires
        distinct_paths(s),
    ensures
        changed_paths(s, observed).no_duplicates(),
        forall|x: Seq<char>| #[trigger] changed_paths(s, observed).contains(x) ==> exists|k: int|
            0 <= k < s.len() && s[k].0 == x,
    decreases s.len(),
{
    if s.len() > 0 {
        let n = s.len() - 1;
        let rest = changed_paths(s.drop_last(), observed.take(n));
        lemma_changed_paths_distinct(s.drop_last(), observed.take(n));
        assert forall|x: Seq<char>| #[trigger] rest.contains(x) implies exists|k: int|
            0 <= k < n && s[k].0 == x by {
            let k = choose|k: int| 0 <= k < s.drop_last().len() && s.drop_last()[k].0 == x;
            assert(s[k].0 == x);
        }
        if entry_changed(s.last(), observed[n]) {
            let all = rest.push(s.last().0);
            assert(changed_paths(s, observed) == all);
            assert forall|i: int, j: int| 0 <= i < all.len() && 0 <= j < all.len() && i != j
                implies all[i] != all[j] by {
                if i == rest.len() || j == rest.len() {
                    let o = if i == rest.len() { j } else { i };
                    assert(rest.contains(rest[o]));
                    let k = choose|k: int| 0 <= k < n && s[k].0 == rest[o];
                    assert(s[k].0 != s[n].0);
                }
            }
            assert forall|x: Seq<char>| #[trigger] all.contains(x) implies exists|k: int|
                0 <= k < s.len() && s[k].0 == x by {
                let i = choose|i: int| 0 <= i < all.len() && all[i] == x;
                if i < rest.len() {
                    assert(rest.contains(x));
                } else {
                    assert(s[n].0 == x);
                }
            }
        }
    }
}

} // verus!
