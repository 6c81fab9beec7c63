//! Watch-set manager core: the set of files that must be watched is
//! reconciled against each new dependency closure, and raw change
//! notifications are debounced. Installing and removing the operating
//! system's watches is the caller's job; this module decides which paths
//! to watch and which notifications to surface.

use vstd::prelude::*;
use crate::file_watcher::{spec_debounce, DEBOUNCE_WINDOW_MS};
use crate::text::{clone_strings, contains_string};

verus! {

/// The paths a reconciliation asks the caller to act on: watches to
/// install and watches to drop.
pub struct WatchDelta {
    pub to_add: Vec<String>,
    pub to_remove: Vec<String>,
}

/// The full set a reconciliation aims at: the new dependency closure plus,
/// always, the entry file.
pub open spec fn spec_watch_target(all: Seq<Seq<char>>, main: Seq<char>) -> Seq<Seq<char>> {
    if all.contains(main) {
        all
    } else {
        all.push(main)
    }
}

/// The members of `s`, in order, that also occur in `tgt`.
pub open spec fn spec_keep_in(s: Seq<Seq<char>>, tgt: Seq<Seq<char>>) -> Seq<Seq<char>>
    decreases s.len(),
{
    if s.len() == 0 {
        Seq::empty()
    } else {
        let rest = spec_keep_in(s.drop_last(), tgt);
        if tgt.contains(s.last()) {
            rest.push(s.last())
        } else {
            rest
        }
    }
}

/// The members of `s`, in order, that do not occur in `tgt`.
pub open spec fn spec_keep_out(s: Seq<Seq<char>>, tgt: Seq<Seq<char>>) -> Seq<Seq<char>>
    decreases s.len(),
{
    if s.len() == 0 {
        Seq::empty()
    } else {
        let rest = spec_keep_out(s.drop_last(), tgt);
        if tgt.contains(s.last()) {
            rest
        } else {
            rest.push(s.last())
        }
    }
}

/// Watch-set manager state: the entry file, the paths currently meant to
/// be watched, and the debounce clock.
pub struct MultiFileWatcher {
    pub main_file: String,
    pub watched_files: Vec<String>,
    pub last_change: u64,
}

impl MultiFileWatcher {
    /// A fresh manager watching just the entry file.
    pub fn new(main_file: String, now_ms: u64) -> (r: Self)
        ensures
            r.main_file@ == main_file@,
            r.watched_files.deep_view() =~= seq![main_file@],
            r.last_change == now_ms,
    {
        let ghost main_view = main_file@;
        let mut watched: Vec<String> = Vec::new();
        let main_clone = main_file.clone();
        watched.push(main_clone);
        MultiFileWatcher { main_file, watched_files: watched, last_change: now_ms }
    }

    /// Reconcile the watch set against a new dependency closure: the new
    /// set is the closure plus the entry file; paths no longer needed are
    /// handed back for removal, newly needed ones for installation.
    pub fn update_watched_files(&mut self, all_files: &Vec<String>) -> (delta: WatchDelta)
        ensures
            final(self).main_file@ == old(self).main_file@,
            final(self).last_change == old(self).last_change,
            delta.to_remove.deep_view() == spec_keep_out(
                old(self).watched_files.deep_view(),
                spec_watch_target(all_files.deep_view(), old(self).main_file@),
            ),
            delta.to_add.deep_view() == spec_keep_out(
                spec_watch_target(all_files.deep_view(), old(self).main_file@),
                old(self).watched_files.deep_view(),
            ),
            final(self).watched_files.deep_view() == spec_keep_in(
                old(self).watched_files.deep_view(),
                spec_watch_target(all_files.deep_view(), old(self).main_file@),
            ) + delta.to_add.deep_view(),
            forall|p: Seq<char>|
                final(self).watched_files.deep_view().contains(p) <==> spec_watch_target(
                    all_files.deep_view(),
                    old(self).main_file@,
                ).contains(p),
    {
        let ghost old_watched = self.watched_files.deep_view();
        let mut target: Vec<String> = clone_strings(all_files);
        if !contains_string(&target, &self.main_file) {
            let main_clone = self.main_file.clone();
            target.push(main_clone);
        }
        let ghost tgt = spec_watch_target(all_files.deep_view(), self.main_file@);
        assert(target.deep_view() == tgt);

        let to_remove = paths_not_in(&self.watched_files, &target);
        let to_add = paths_not_in(&target, &self.watched_files);
        let mut kept = paths_in(&self.watched_files, &target);
        let added = clone_strings(&to_add);
        append_paths(&mut kept, added);
        self.watched_files = kept;

        proof {
            assert forall|p: Seq<char>|
                self.watched_files.deep_view().contains(p) <==> #[trigger] tgt.contains(p) by {
                lemma_add_contains(
                    spec_keep_in(old_watched, tgt),
                    spec_keep_out(tgt, old_watched),
                    p,
                );
                lemma_keep_in_contains(old_watched, tgt, p);
                lemma_keep_out_contains(tgt, old_watched, p);
            }
        }
        WatchDelta { to_add, to_remove }
    }

    /// Poll for a debounced change: a raw notification for some watched
    /// path is surfaced exactly when the quiet window has elapsed since
    /// the last surfaced change; a suppressed notification is dropped.
    pub fn check_for_changes(&mut self, changed: Option<String>, now_ms: u64) -> (r: Option<
        String,
    >)
        requires
            old(self).last_change <= now_ms,
        ensures
            final(self).main_file == old(self).main_file,
            final(self).watched_files == old(self).watched_files,
            ({
                let (l, surfaced) = spec_debounce(old(self).last_change, changed is Some, now_ms);
                final(self).last_change == l && (match (r, changed) {
                    (Some(rp), Some(cp)) => surfaced && rp@ == cp@,
                    (None, _) => !surfaced,
                    _ => false,
                })
            }),
    {
        match changed {
            Some(path) => {
                if now_ms - self.last_change > DEBOUNCE_WINDOW_MS {
                    self.last_change = now_ms;
                    Some(path)
                } else {
                    None
                }
            },
            None => None,
        }
    }
}

/// Moves every path of `more` onto the end of `v`.
fn append_paths(v: &mut Vec<String>, more: Vec<String>)
    ensures
        final(v).deep_view() == old(v).deep_view() + more.deep_view(),
{
    let ghost old_v = v.deep_view();
    let ghost more_view = more.deep_view();
    let mut rest = more;
    let mut i: usize = 0;
    let n = rest.len();
    while i < n
        invariant
            i <= n,
            n == rest.len(),
            rest.deep_view() == more_view,
            v@.len() == old_v.len() + i,
            forall|j: int| 0 <= j < old_v.len() ==> #[trigger] v@[j]@ == old_v[j],
            forall|j: int|
                old_v.len() <= j < old_v.len() + i ==> #[trigger] v@[j]@ == more_view[
                    j - old_v.len()
                ],
        decreases n - i,
    {
        let s = rest[i].clone();
        assert(s@ == rest@[i as int]@);
        assert(rest@[i as int]@ == more_view[i as int]);
        v.push(s);
        i = i + 1;
    }
    assert(v.deep_view() =~= old_v + more_view);
}

/// The paths of `v`, in order, that also stand in `other`.
fn paths_in(v: &Vec<String>, other: &Vec<String>) -> (r: Vec<String>)
    ensures
        r.deep_view() == spec_keep_in(v.deep_view(), other.deep_view()),
{
    let mut r: Vec<String> = Vec::new();
    let mut i: usize = 0;
    while i < v.len()
        invariant
            i <= v.len(),
            r.deep_view() =~= spec_keep_in(v.deep_view().subrange(0, i as int), other.deep_view()),
        decreases v.len() - i,
    {
        let ghost prefix = v.deep_view().subrange(0, i as int + 1);
        assert(prefix.drop_last() =~= v.deep_view().subrange(0, i as int));
        assert(prefix.last() == v.deep_view()[i as int]);
        if contains_string(other, &v[i]) {
            let s = v[i].clone();
            r.push(s);
        }
        i = i + 1;
    }
    assert(v.deep_view().subrange(0, v.deep_view().len() as int) =~= v.deep_view());
    r
}

/// The paths of `v`, in order, that do not stand in `other`.
fn paths_not_in(v: &Vec<String>, other: &Vec<String>) -> (r: Vec<String>)
    ensures
        r.deep_view() == spec_keep_out(v.deep_view(), other.deep_view()),
{
    let mut r: Vec<String> = Vec::new();
    let mut i: usize = 0;
    while i < v.len()
        invariant
            i <= v.len(),
            r.deep_view() =~= spec_keep_out(v.deep_view().subrange(0, i as int), other.deep_view()),
        decreases v.len() - i,
    {
        let ghost prefix = v.deep_view().subrange(0, i as int + 1);
        assert(prefix.drop_last() =~= v.deep_view().subrange(0, i as int));
        assert(prefix.last() == v.deep_view()[i as int]);
        if !contains_string(other, &v[i]) {
            let s = v[i].clone();
            r.push(s);
        }
        i = i + 1;
    }
    assert(v.deep_view().subrange(0, v.deep_view().len() as int) =~= v.deep_view());
    r
}

/// A pushed sequence holds exactly the old members and the new element.
proof fn lemma_contains_push(s: Seq<Seq<char>>, x: Seq<char>, p: Seq<char>)
    ensures
        s.push(x).contains(p) <==> (s.contains(p) || p == x),
{
    if s.push(x).contains(p) {
        let i = choose|i: int| 0 <= i < s.push(x).len() && s.push(x)[i] == p;
        if i < s.len() {
            assert(s[i] == p);
        }
    }
    if s.contains(p) {
        let i = choose|i: int| 0 <= i < s.len() && s[i] == p;
        assert(s.push(x)[i] == p);
    }
    if p == x {
        assert(s.push(x)[s.len() as int] == p);
    }
}

/// A concatenation holds exactly the members of its two parts.
proof fn lemma_add_contains(a: Seq<Seq<char>>, b: Seq<Seq<char>>, p: Seq<char>)
    ensures
        (a + b).contains(p) <==> (a.contains(p) || b.contains(p)),
{
    if (a + b).contains(p) {
        let i = choose|i: int| 0 <= i < (a + b).len() && (a + b)[i] == p;
        if i < a.len() {
            assert(a[i] == p);
        } else {
            assert(b[i - a.len()] == p);
        }
    }
    if a.contains(p) {
        let i = choose|i: int| 0 <= i < a.len() && a[i] == p;
        assert((a + b)[i] == p);
    }
    if b.contains(p) {
        let i = choose|i: int| 0 <= i < b.len() && b[i] == p;
        assert((a + b)[a.len() + i] == p);
    }
}

/// `spec_keep_in` holds exactly the members of `s` that are also in `tgt`.
proof fn lemma_keep_in_contains(s: Seq<Seq<char>>, tgt: Seq<Seq<char>>, p: Seq<char>)
    ensures
        spec_keep_in(s, tgt).contains(p) <==> (s.contains(p) && tgt.contains(p)),
    decreases s.len(),
{
    if s.len() == 0 {
        if s.contains(p) {
            let i = choose|i: int| 0 <= i < s.len() && s[i] == p;
        }
    } else {
        let d = s.drop_last();
        lemma_keep_in_contains(d, tgt, p);
        lemma_contains_push(spec_keep_in(d, tgt), s.last(), p);
        lemma_contains_push(d, s.last(), p);
        assert(d.push(s.last()) =~= s);
    }
}

/// `spec_keep_out` holds exactly the members of `s` that are not in `tgt`.
proof fn lemma_keep_out_contains(s: Seq<Seq<char>>, tgt: Seq<Seq<char>>, p: Seq<char>)
    ensures
        spec_keep_out(s, tgt).contains(p) <==> (s.contains(p) && !tgt.contains(p)),
    decreases s.len(),
{
    if s.len() == 0 {
        if s.contains(p) {
            let i = choose|i: int| 0 <= i < s.len() && s[i] == p;
        }
    } else {
        let d = s.drop_last();
        lemma_keep_out_contains(d, tgt, p);
        lemma_contains_push(spec_keep_out(d, tgt), s.last(), p);
        lemma_contains_push(d, s.last(), p);
        assert(d.push(s.last()) =~= s);
    }
}

} // verus!
