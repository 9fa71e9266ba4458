//! File-name patterns and name-ordered file lists.
use vstd::prelude::*;
use crate::text::{
    contains, ends_with, lemma_text_lt_transitive,
    lemma_text_lt_trichotomy, occurs_in, precedes, same_text, starts_with, text_lt,
};

verus! {

/// A predicate over file names.
#[derive(Debug)]
pub enum Pattern {
    /// Whether a string starts with the pattern
    Start(String),
    /// Whether a string ends with the pattern
    End(String),
    /// Whether a string contains the pattern
    Contains(String),
    /// Whether the string is exactly the same as the pattern
    Exact(String),
    /// A conjunction: every sub-pattern must match
    Multi(Vec<Pattern>),
}

impl Pattern {
    /// Whether the pattern accepts the name `s`.
    pub open spec fn accepts(self, s: Seq<char>) -> bool
        decreases self,
    {
        match self {
            Pattern::Start(p) => p@.is_prefix_of(s),
            Pattern::End(p) => p@.is_suffix_of(s),
            Pattern::Contains(p) => occurs_in(p@, s),
            Pattern::Exact(p) => p@ == s,
            Pattern::Multi(pats) => forall|i: int|
                0 <= i < pats.len() ==> (#[trigger] pats[i]).accepts(s),
        }
    }

    /// Whether `self` matches the given string.
    pub fn matches(&self, string: &str) -> (r: bool)
        ensures
            r == self.accepts(string@),
        decreases self,
    {
        match self {
            Pattern::Start(pat) => starts_with(string, pat.as_str()),
            Pattern::End(pat) => ends_with(string, pat.as_str()),
            Pattern::Contains(pat) => contains(string, pat.as_str()),
            Pattern::Exact(pat) => same_text(string, pat.as_str()),
            Pattern::Multi(pats) => {
                let mut i: usize = 0;
                while i < pats.len()
                    invariant
                        *self == Pattern::Multi(*pats),
                        i <= pats@.len(),
                        forall|j: int| 0 <= j < i ==> (#[trigger] pats@[j]).accepts(string@),
                    decreases pats@.len() - i,
                {
                    proof {
                        let whole = *self;
                        assert(whole == Pattern::Multi(*pats));
                        assert(decreases_to!(whole => whole->Multi_0));
                        assert(decreases_to!(*pats => pats[i as int]));
                    }
                    if !pats[i].matches(string) {
                        assert(!pats[i as int].accepts(string@));
                        return false;
                    }
                    i = i + 1;
                }
                true
            },
        }
    }

    /// The flat list of sub-patterns whose conjunction is `self`.
    fn canonical(self) -> (r: Vec<Pattern>)
        ensures
            forall|s: Seq<char>| all_accept(r@, s) == self.accepts(s),
    {
        match self {
            Pattern::Multi(pats) => pats,
            Pattern::Start(pat) => {
                let r = vec![Pattern::Start(pat)];
                assert forall|s: Seq<char>| all_accept(r@, s) == self.accepts(s) by {
                    assert(r@[0] == self);
                }
                r
            },
            Pattern::End(pat) => {
                let r = vec![Pattern::End(pat)];
                assert forall|s: Seq<char>| all_accept(r@, s) == self.accepts(s) by {
                    assert(r@[0] == self);
                }
                r
            },
            Pattern::Contains(pat) => {
                let r = vec![Pattern::Contains(pat)];
                assert forall|s: Seq<char>| all_accept(r@, s) == self.accepts(s) by {
                    assert(r@[0] == self);
                }
                r
            },
            Pattern::Exact(pat) => {
                let r = vec![Pattern::Exact(pat)];
                assert forall|s: Seq<char>| all_accept(r@, s) == self.accepts(s) by {
                    assert(r@[0] == self);
                }
                r
            },
        }
    }

    /// Combines two patterns into one that matches a name exactly when both do.
    pub fn combine(self, other: Pattern) -> (r: Pattern)
        ensures
            r is Multi,
            forall|s: Seq<char>| r.accepts(s) == (self.accepts(s) && other.accepts(s)),
    {
        let mut pats = self.canonical();
        let mut rest = other.canonical();
        let ghost a = pats@;
        let ghost b = rest@;
        pats.append(&mut rest);
        let ghost v = pats;
        assert(v@ == a + b);
        let r = Pattern::Multi(pats);
        assert forall|s: Seq<char>| r.accepts(s) == (self.accepts(s) && other.accepts(s)) by {
            assert(r->Multi_0 == v);
            if all_accept(a, s) && all_accept(b, s) {
                assert forall|i: int| 0 <= i < v@.len() implies (#[trigger] v@[i]).accepts(s) by {
                    if i >= a.len() {
                        assert(v@[i] == b[i - a.len()]);
                    }
                }
            }
            if r.accepts(s) {
                assert forall|i: int| 0 <= i < a.len() implies (#[trigger] a[i]).accepts(s) by {
                    assert(v@[i].accepts(s));
                    assert(v@[i] == a[i]);
                }
                assert forall|i: int| 0 <= i < b.len() implies (#[trigger] b[i]).accepts(s) by {
                    assert(v@[a.len() + i].accepts(s));
                    assert(v@[a.len() + i] == b[i]);
                }
            }
        }
        r
    }
}

/// Whether every pattern of `ps` accepts `s`.
pub open spec fn all_accept(ps: Seq<Pattern>, s: Seq<char>) -> bool {
    forall|i: int| 0 <= i < ps.len() ==> (#[trigger] ps[i]).accepts(s)
}

/// A file list entry: its name and its path.
pub type Entry = (Seq<char>, Seq<char>);

/// The path of the file `name` in the directory `dir`.
pub open spec fn join(dir: Seq<char>, name: Seq<char>) -> Seq<char> {
    dir + seq!['/'] + name
}

/// Whether the names of `s` are in strictly increasing order (hence distinct).
pub open spec fn sorted(s: Seq<Entry>) -> bool {
    forall|i: int, j: int| 0 <= i < j < s.len() ==> text_lt(#[trigger] s[i].0, #[trigger] s[j].0)
}

/// `s` with the entry `e` put in its place by name; an entry of the same
/// name is replaced.
pub open spec fn insert_sorted(s: Seq<Entry>, e: Entry) -> Seq<Entry>
    decreases s.len(),
{
    if s.len() == 0 {
        seq![e]
    } else if text_lt(s[0].0, e.0) {
        seq![s[0]] + insert_sorted(s.drop_first(), e)
    } else if s[0].0 == e.0 {
        seq![e] + s.drop_first()
    } else {
        seq![e] + s
    }
}

/// The list `s` after adding, in order, each name of `listing` that `pick`
/// holds of, as a file of the directory `dir`.
pub open spec fn added(
    s: Seq<Entry>,
    dir: Seq<char>,
    listing: Seq<Seq<char>>,
    pick: spec_fn(Seq<char>) -> bool,
) -> Seq<Entry>
    decreases listing.len(),
{
    if listing.len() == 0 {
        s
    } else {
        let prev = added(s, dir, listing.drop_last(), pick);
        let n = listing.last();
        if pick(n) {
            insert_sorted(prev, (n, join(dir, n)))
        } else {
            prev
        }
    }
}

/// The entries of `s` whose names `drop` does not hold of, in their order.
pub open spec fn kept(s: Seq<Entry>, drop: spec_fn(Seq<char>) -> bool) -> Seq<Entry>
    decreases s.len(),
{
    if s.len() == 0 {
        s
    } else {
        let prev = kept(s.drop_last(), drop);
        if drop(s.last().0) {
            prev
        } else {
            prev.push(s.last())
        }
    }
}

/// The text views of a list of strings.
pub open spec fn texts(v: Seq<String>) -> Seq<Seq<char>> {
    v.map_values(|s: String| s@)
}

proof fn lemma_insert_sorted(s: Seq<Entry>, e: Entry)
    requires
        sorted(s),
    ensures
        sorted(insert_sorted(s, e)),
        forall|x: Entry| #[trigger] insert_sorted(s, e).contains(x) ==> x == e || s.contains(x),
    decreases s.len(),
{
    let r = insert_sorted(s, e);
    if s.len() == 0 {
        assert(r == seq![e]);
        assert forall|x: Entry| #[trigger] r.contains(x) implies x == e || s.contains(x) by {
            assert(r[0] == e);
        }
    } else if text_lt(s[0].0, e.0) {
        let t = s.drop_first();
        assert(sorted(t));
        lemma_insert_sorted(t, e);
        let it = insert_sorted(t, e);
        assert(r == seq![s[0]] + it);
        assert forall|x: Entry| #[trigger] r.contains(x) implies x == e || s.contains(x) by {
            let k = choose|k: int| 0 <= k < r.len() && r[k] == x;
            if k > 0 {
                assert(it.contains(r[k]));
                if x != e {
                    let m = choose|m: int| 0 <= m < t.len() && t[m] == x;
                    assert(s[m + 1] == x);
                }
            } else {
                assert(s[0] == x);
            }
        }
        assert forall|i: int, j: int| 0 <= i < j < r.len() implies text_lt(
            #[trigger] r[i].0,
            #[trigger] r[j].0,
        ) by {
            if i == 0 {
                assert(it.contains(r[j]));
                if r[j] != e {
                    let m = choose|m: int| 0 <= m < t.len() && t[m] == r[j];
                    assert(s[m + 1] == r[j]);
                }
            } else {
                assert(r[i] == it[i - 1] && r[j] == it[j - 1]);
            }
        }
    } else if s[0].0 == e.0 {
        assert(r == seq![e] + s.drop_first());
        assert forall|x: Entry| #[trigger] r.contains(x) implies x == e || s.contains(x) by {
            let k = choose|k: int| 0 <= k < r.len() && r[k] == x;
            if k > 0 {
                assert(s[k] == x);
            }
        }
        assert forall|i: int, j: int| 0 <= i < j < r.len() implies text_lt(
            #[trigger] r[i].0,
            #[trigger] r[j].0,
        ) by {
            assert(r[j] == s[j]);
            if i > 0 {
                assert(r[i] == s[i]);
            }
        }
    } else {
        lemma_text_lt_trichotomy(s[0].0, e.0);
        assert(r == seq![e] + s);
        assert forall|x: Entry| #[trigger] r.contains(x) implies x == e || s.contains(x) by {
            let k = choose|k: int| 0 <= k < r.len() && r[k] == x;
            if k > 0 {
                assert(s[k - 1] == x);
            }
        }
        assert forall|i: int, j: int| 0 <= i < j < r.len() implies text_lt(
            #[trigger] r[i].0,
            #[trigger] r[j].0,
        ) by {
            assert(r[j] == s[j - 1]);
            if i > 0 {
                assert(r[i] == s[i - 1]);
            } else if j > 1 {
                lemma_text_lt_transitive(e.0, s[0].0, s[j - 1].0);
            }
        }
    }
}

/// `insert_sorted` at the first position whose name does not come before `e`'s.
proof fn lemma_insert_at(s: Seq<Entry>, e: Entry, p: int)
    requires
        0 <= p <= s.len(),
        forall|k: int| 0 <= k < p ==> text_lt(#[trigger] s[k].0, e.0),
        p == s.len() || !text_lt(s[p].0, e.0),
    ensures
        insert_sorted(s, e) == (if p < s.len() && s[p].0 == e.0 {
            s.update(p, e)
        } else {
            s.insert(p, e)
        }),
    decreases p,
{
    if p > 0 {
        let t = s.drop_first();
        assert forall|k: int| 0 <= k < p - 1 implies text_lt(#[trigger] t[k].0, e.0) by {
            assert(t[k] == s[k + 1]);
        }
        lemma_insert_at(t, e, p - 1);
        assert(text_lt(s[0].0, e.0));
        if p < s.len() && s[p].0 == e.0 {
            assert(insert_sorted(s, e) =~= s.update(p, e));
        } else {
            assert(insert_sorted(s, e) =~= s.insert(p, e));
        }
    } else if s.len() == 0 {
        assert(insert_sorted(s, e) =~= s.insert(p, e));
    } else if s[0].0 == e.0 {
        assert(insert_sorted(s, e) =~= s.update(p, e));
    } else {
        assert(insert_sorted(s, e) =~= s.insert(p, e));
    }
}

proof fn lemma_added(s: Seq<Entry>, dir: Seq<char>, listing: Seq<Seq<char>>, pick: spec_fn(Seq<char>) -> bool)
    requires
        sorted(s),
    ensures
        sorted(added(s, dir, listing, pick)),
        forall|x: Entry| #[trigger]
            added(s, dir, listing, pick).contains(x) ==> s.contains(x) || (listing.contains(x.0)
                && pick(x.0)),
    decreases listing.len(),
{
    if listing.len() > 0 {
        let prev = added(s, dir, listing.drop_last(), pick);
        lemma_added(s, dir, listing.drop_last(), pick);
        let n = listing.last();
        if pick(n) {
            lemma_insert_sorted(prev, (n, join(dir, n)));
        }
        assert forall|x: Entry| #[trigger]
            added(s, dir, listing, pick).contains(x) implies s.contains(x) || (listing.contains(
            x.0,
        ) && pick(x.0)) by {
            if prev.contains(x) && !s.contains(x) {
                let m = choose|m: int| 0 <= m < listing.drop_last().len() && listing.drop_last()[m]
                    == x.0;
                assert(listing[m] == x.0);
            }
            if !prev.contains(x) {
                assert(listing[listing.len() - 1] == x.0);
            }
        }
    }
}

/// What removing by `drop` keeps of `s`: entries of `s` that `drop` does not
/// hold of, still in order; all of `s` when `drop` holds of none; nothing when
/// it holds of all.
pub proof fn lemma_kept(s: Seq<Entry>, drop: spec_fn(Seq<char>) -> bool)
    ensures
        forall|x: Entry| #[trigger] kept(s, drop).contains(x) ==> s.contains(x) && !drop(x.0),
        sorted(s) ==> sorted(kept(s, drop)),
        (forall|i: int| 0 <= i < s.len() ==> !drop(#[trigger] s[i].0)) ==> kept(s, drop)
            == s,
        (forall|i: int| 0 <= i < s.len() ==> drop(#[trigger] s[i].0)) ==> kept(s, drop).len()
            == 0,
    decreases s.len(),
{
    if s.len() > 0 {
        let t = s.drop_last();
        lemma_kept(t, drop);
        let prev = kept(t, drop);
        assert forall|x: Entry| #[trigger]
            kept(s, drop).contains(x) implies s.contains(x) && !drop(x.0) by {
            if prev.contains(x) {
                let m = choose|m: int| 0 <= m < t.len() && t[m] == x;
                assert(s[m] == x);
            } else {
                assert(x == s.last());
            }
        }
        if sorted(s) {
            assert(sorted(t));
            if !drop(s.last().0) {
                let r = prev.push(s.last());
                assert forall|i: int, j: int| 0 <= i < j < r.len() implies text_lt(
                    #[trigger] r[i].0,
                    #[trigger] r[j].0,
                ) by {
                    if j == r.len() - 1 {
                        assert(prev.contains(r[i]));
                        let m = choose|m: int| 0 <= m < t.len() && t[m] == r[i];
                        assert(s[m] == r[i]);
                    } else {
                        assert(r[i] == prev[i] && r[j] == prev[j]);
                    }
                }
            }
        }
        if forall|i: int| 0 <= i < s.len() ==> !drop(#[trigger] s[i].0) {
            assert(forall|i: int| 0 <= i < t.len() ==> t[i] == s[i]);
            assert(!drop(s[s.len() - 1].0));
            assert(kept(s, drop) =~= s);
        }
        if forall|i: int| 0 <= i < s.len() ==> drop(#[trigger] s[i].0) {
            assert(forall|i: int| 0 <= i < t.len() ==> t[i] == s[i]);
            assert(drop(s[s.len() - 1].0));
        }
    }
}

/// Removing, right after adding files to an empty list, with a pattern that
/// accepts none of the added names leaves the list as it was; with a pattern
/// that accepts all of them it leaves the list empty.
pub proof fn lemma_add_then_remove(
    dir: Seq<char>,
    listing: Seq<Seq<char>>,
    pat: Pattern,
    other: Pattern,
)
    ensures
        ({
            let s = added(Seq::empty(), dir, listing, |n: Seq<char>| pat.accepts(n));
            &&& (forall|n: Seq<char>| #[trigger] listing.contains(n) && pat.accepts(n)
                ==> !other.accepts(n)) ==> kept(s, |n: Seq<char>| other.accepts(n)) == s
            &&& (forall|n: Seq<char>| #[trigger] listing.contains(n) && pat.accepts(n)
                ==> other.accepts(n)) ==> kept(s, |n: Seq<char>| other.accepts(n)).len() == 0
        }),
{
    let pick = |n: Seq<char>| pat.accepts(n);
    let drop = |n: Seq<char>| other.accepts(n);
    let s = added(Seq::empty(), dir, listing, pick);
    lemma_added(Seq::empty(), dir, listing, pick);
    lemma_kept(s, drop);
    assert forall|i: int| 0 <= i < s.len() implies listing.contains(#[trigger] s[i].0)
        && pat.accepts(s[i].0) by {
        assert(s.contains(s[i]));
    }
}

/// Removing by `p` and then by `q` removes what either holds of.
pub proof fn lemma_kept_twice(
    s: Seq<Entry>,
    p: spec_fn(Seq<char>) -> bool,
    q: spec_fn(Seq<char>) -> bool,
)
    ensures
        kept(kept(s, p), q) == kept(s, |n: Seq<char>| p(n) || q(n)),
    decreases s.len(),
{
    if s.len() > 0 {
        lemma_kept_twice(s.drop_last(), p, q);
        let prev = kept(s.drop_last(), p);
        if !p(s.last().0) {
            assert(prev.push(s.last()).drop_last() == prev);
        }
    }
}

/// A file in a list: its name and its path.
#[derive(Debug)]
pub struct FileEntry {
    /// The file name
    pub name: String,
    /// The path of the file
    pub path: String,
}

/// A name-ordered list of files; each name occurs at most once.
#[derive(Debug)]
pub struct FileList {
    entries: Vec<FileEntry>,
}

impl View for FileList {
    type V = Seq<Entry>;

    closed spec fn view(&self) -> Seq<Entry> {
        self.entries@.map_values(|e: FileEntry| (e.name@, e.path@))
    }
}

impl FileList {
    /// The list's names are in order.
    pub open spec fn wf(&self) -> bool {
        sorted(self@)
    }

    /// Creates a new empty file list.
    pub fn new() -> (r: FileList)
        ensures
            r@ == Seq::<Entry>::empty(),
            r.wf(),
    {
        let r = FileList { entries: Vec::new() };
        assert(r@ =~= Seq::<Entry>::empty());
        r
    }

    /// The number of files in the list.
    pub fn len(&self) -> (r: usize)
        ensures
            r == self@.len(),
    {
        self.entries.len()
    }

    /// Puts `name` with `path` in its place, replacing an entry of the same name.
    fn insert_entry(&mut self, name: String, path: String)
        requires
            old(self).wf(),
        ensures
            final(self).wf(),
            final(self)@ == insert_sorted(old(self)@, (name@, path@)),
    {
        let ghost e: Entry = (name@, path@);
        let ghost s = self@;
        proof {
            lemma_insert_sorted(s, e);
        }
        let mut p: usize = 0;
        let mut found = false;
        while !found && p < self.entries.len()
            invariant
                self@ == s,
                e == (name@, path@),
                p <= s.len(),
                forall|k: int| 0 <= k < p ==> text_lt(#[trigger] s[k].0, e.0),
                found ==> p < s.len() && !text_lt(s[p as int].0, e.0),
            decreases s.len() - p + (if found { 0int } else { 1int }),
        {
            let cur: &str = self.entries[p].name.as_str();
            let ahead = precedes(cur, name.as_str());
            assert(cur@ == s[p as int].0);
            assert(ahead == text_lt(s[p as int].0, e.0));
            if ahead {
                p = p + 1;
            } else {
                found = true;
            }
        }
        proof {
            lemma_insert_at(s, e, p as int);
        }
        if p < self.entries.len() && same_text(self.entries[p].name.as_str(), name.as_str()) {
            self.entries.remove(p);
            self.entries.insert(p, FileEntry { name, path });
            assert(self@ =~= s.update(p as int, e));
        } else {
            self.entries.insert(p, FileEntry { name, path });
            assert(self@ =~= s.insert(p as int, e));
        }
    }

    /// Adds each name of `listing`, the contents of the directory `dir`, that
    /// `pat` matches.
    pub fn add(&mut self, dir: &str, listing: &Vec<String>, pat: &Pattern)
        requires
            old(self).wf(),
        ensures
            final(self).wf(),
            final(self)@ == added(old(self)@, dir@, texts(listing@), |n: Seq<char>| pat.accepts(n)),
    {
        let ghost s0 = self@;
        let mut k: usize = 0;
        while k < listing.len()
            invariant
                k <= listing@.len(),
                self.wf(),
                self@ == added(s0, dir@, texts(listing@).take(k as int), |n: Seq<char>| pat.accepts(n)),
            decreases listing@.len() - k,
        {
            let name = &listing[k];
            let ghost before = texts(listing@).take(k as int);
            proof {
                assert(texts(listing@).take(k + 1).drop_last() == before);
                assert(texts(listing@).take(k + 1).last() == name@);
            }
            if pat.matches(name.as_str()) {
                let mut path = String::from_str(dir);
                path.append("/");
                path.append(name.as_str());
                proof {
                    reveal_strlit("/");
                    assert(path@ == join(dir@, name@));
                }
                self.insert_entry(name.clone(), path);
            }
            k = k + 1;
        }
        assert(texts(listing@).take(k as int) == texts(listing@));
    }

    /// Removes all files whose names `pat` matches.
    pub fn remove(&mut self, pat: &Pattern)
        requires
            old(self).wf(),
        ensures
            final(self).wf(),
            final(self)@ == kept(old(self)@, |n: Seq<char>| pat.accepts(n)),
    {
        let ghost s = self@;
        proof {
            lemma_kept(s, |n: Seq<char>| pat.accepts(n));
        }
        let mut out: Vec<FileEntry> = Vec::new();
        let mut i: usize = 0;
        while i < self.entries.len()
            invariant
                self@ == s,
                i <= s.len(),
                out@.map_values(|e: FileEntry| (e.name@, e.path@)) == kept(
                    s.take(i as int),
                    |n: Seq<char>| pat.accepts(n),
                ),
            decreases s.len() - i,
        {
            proof {
                assert(s.take(i + 1).drop_last() == s.take(i as int));
                assert(s.take(i + 1).last() == s[i as int]);
            }
            let e = &self.entries[i];
            if !pat.matches(e.name.as_str()) {
                out.push(FileEntry { name: e.name.clone(), path: e.path.clone() });
                assert(out@.map_values(|e: FileEntry| (e.name@, e.path@)) =~= kept(
                    s.take(i + 1),
                    |n: Seq<char>| pat.accepts(n),
                ));
            }
            i = i + 1;
        }
        assert(s.take(i as int) == s);
        self.entries = out;
    }

    /// The names of the files, in order.
    pub fn names(&self) -> (r: Vec<String>)
        ensures
            texts(r@) == self@.map_values(|e: Entry| e.0),
    {
        let mut r: Vec<String> = Vec::new();
        let mut i: usize = 0;
        while i < self.entries.len()
            invariant
                i <= self@.len(),
                r@.len() == i,
                forall|k: int| 0 <= k < i ==> (#[trigger] r@[k])@ == self@[k].0,
            decreases self@.len() - i,
        {
            r.push(self.entries[i].name.clone());
            i = i + 1;
        }
        assert(texts(r@) =~= self@.map_values(|e: Entry| e.0));
        r
    }

    /// The paths of the files, in the order of their names.
    pub fn paths(&self) -> (r: Vec<String>)
        ensures
            texts(r@) == self@.map_values(|e: Entry| e.1),
    {
        let mut r: Vec<String> = Vec::new();
        let mut i: usize = 0;
        while i < self.entries.len()
            invariant
                i <= self@.len(),
                r@.len() == i,
                forall|k: int| 0 <= k < i ==> (#[trigger] r@[k])@ == self@[k].1,
            decreases self@.len() - i,
        {
            r.push(self.entries[i].path.clone());
            i = i + 1;
        }
        assert(texts(r@) =~= self@.map_values(|e: Entry| e.1));
        r
    }
}

} // verus!
