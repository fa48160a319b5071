//! An in-memory model of the underlying storage facility, and the two
//! loading operations built on it.
//!
//! A [`Store`] maps resource names to text contents and additionally records,
//! per name, whether the facility denies opening, reading or creating that
//! resource; the denial records let callers exercise every failure path. The
//! facility's three primitives — open-for-read, create-empty, read-all — are
//! methods here, and [`Store::load_or_create`] and [`Store::load_strict`]
//! compose them through the decision functions of [`crate::loader`].
//!
//! The abstract state of a store is a [`StoreView`]; the spec functions
//! [`spec_load_strict`], [`spec_load_or_create`] and
//! [`spec_load_or_create_next`] say, over that state, exactly what each
//! operation returns and how it changes the store.

use vstd::prelude::*;
use vstd::assert_sets_equal;

use crate::failure::{FailureKind, FailureReason};
use crate::loader::{CreateOutcome, LoadStep, OpenOutcome, ReadOutcome};
use crate::loader::{finish_create, finish_read, recovering_open_step, strict_open_step};

verus! {

/// The abstract state of a store: which resources exist and with what
/// content, and which names the facility denies opening, reading or creating.
#[verifier::ext_equal]
pub struct StoreView {
    /// The content of each existing resource, by name.
    pub contents: Map<Seq<char>, Seq<char>>,
    /// Names of existing resources whose content cannot be read.
    pub unreadable: Set<Seq<char>>,
    /// Names of existing resources that cannot be opened, for a reason other
    /// than absence.
    pub unopenable: Set<Seq<char>>,
    /// Names at which the facility refuses to create a resource.
    pub uncreatable: Set<Seq<char>>,
}

/// The abstract state of a store holding nothing and denying nothing.
pub open spec fn empty_view() -> StoreView {
    StoreView {
        contents: Map::empty(),
        unreadable: Set::empty(),
        unopenable: Set::empty(),
        uncreatable: Set::empty(),
    }
}

/// The abstract state after writing `content` under `name`: the resource now
/// exists with exactly that content, and nothing else changes.
pub open spec fn put_view(s: StoreView, name: Seq<char>, content: Seq<char>) -> StoreView {
    StoreView { contents: s.contents.insert(name, content), ..s }
}

/// What `load_strict` returns on a store in state `s`: the existing content,
/// or the kind of failure, with absence reported as `NotFound`.
pub open spec fn spec_load_strict(s: StoreView, name: Seq<char>) -> Result<Seq<char>, FailureKind> {
    if !s.contents.dom().contains(name) {
        Err(FailureKind::NotFound)
    } else if s.unopenable.contains(name) {
        Err(FailureKind::Other)
    } else if s.unreadable.contains(name) {
        Err(FailureKind::ReadFailed)
    } else {
        Ok(s.contents[name])
    }
}

/// What `load_or_create` returns on a store in state `s`: as `load_strict`,
/// except that an absent resource is created empty, yielding empty content,
/// or `CreateFailed` where creation is denied.
pub open spec fn spec_load_or_create(s: StoreView, name: Seq<char>) -> Result<
    Seq<char>,
    FailureKind,
> {
    if !s.contents.dom().contains(name) {
        if s.uncreatable.contains(name) {
            Err(FailureKind::CreateFailed)
        } else {
            Ok(Seq::<char>::empty())
        }
    } else if s.unopenable.contains(name) {
        Err(FailureKind::Other)
    } else if s.unreadable.contains(name) {
        Err(FailureKind::ReadFailed)
    } else {
        Ok(s.contents[name])
    }
}

/// The state of the store after `load_or_create`: unchanged, except that an
/// absent resource whose creation is not denied now exists, empty.
pub open spec fn spec_load_or_create_next(s: StoreView, name: Seq<char>) -> StoreView {
    if !s.contents.dom().contains(name) && !s.uncreatable.contains(name) {
        StoreView { contents: s.contents.insert(name, Seq::<char>::empty()), ..s }
    } else {
        s
    }
}

/// No two entries carry the same name.
spec fn names_unique(es: Seq<(String, String)>) -> bool {
    forall|i: int, j: int| 0 <= i < j < es.len() ==> es[i].0@ != es[j].0@
}

/// The map from names to contents that a sequence of entries denotes.
spec fn entry_map(es: Seq<(String, String)>) -> Map<Seq<char>, Seq<char>>
    decreases es.len(),
{
    if es.len() == 0 {
        Map::empty()
    } else {
        entry_map(es.drop_last()).insert(es.last().0@, es.last().1@)
    }
}

/// The set of names that a list of names denotes.
spec fn name_set(ns: Seq<String>) -> Set<Seq<char>> {
    Set::new(|n: Seq<char>| exists|i: int| 0 <= i < ns.len() && ns[i]@ == n)
}

/// A name is in the map of a sequence of entries exactly when some entry
/// carries it.
proof fn lemma_entry_map_dom(es: Seq<(String, String)>)
    ensures
        forall|n: Seq<char>|
            #[trigger] entry_map(es).dom().contains(n) <==> (exists|i: int|
                0 <= i < es.len() && es[i].0@ == n),
    decreases es.len(),
{
    if es.len() > 0 {
        lemma_entry_map_dom(es.drop_last());
        assert(entry_map(es) == entry_map(es.drop_last()).insert(es.last().0@, es.last().1@));
        assert forall|n: Seq<char>| #[trigger]
            entry_map(es).dom().contains(n) implies (exists|i: int|
            0 <= i < es.len() && es[i].0@ == n) by {
            if n == es.last().0@ {
                assert(es[es.len() - 1].0@ == n);
            } else {
                assert(entry_map(es.drop_last()).dom().contains(n));
                let i = choose|i: int|
                    0 <= i < es.drop_last().len() && es.drop_last()[i].0@ == n;
                assert(es[i].0@ == n);
            }
        }
        assert forall|n: Seq<char>|
            (exists|i: int| 0 <= i < es.len() && es[i].0@ == n) implies #[trigger] entry_map(
            es,
        ).dom().contains(n) by {
            let i = choose|i: int| 0 <= i < es.len() && es[i].0@ == n;
            if i < es.len() - 1 {
                assert(es.drop_last()[i].0@ == n);
                assert(entry_map(es.drop_last()).dom().contains(n));
            }
        }
    }
}

/// Under unique names, the map of a sequence of entries sends each entry's
/// name to that entry's content.
proof fn lemma_entry_map_at(es: Seq<(String, String)>, i: int)
    requires
        names_unique(es),
        0 <= i < es.len(),
    ensures
        entry_map(es).dom().contains(es[i].0@),
        entry_map(es)[es[i].0@] == es[i].1@,
    decreases es.len(),
{
    if i < es.len() - 1 {
        assert(names_unique(es.drop_last())) by {
            assert forall|p: int, q: int|
                0 <= p < q < es.drop_last().len() implies es.drop_last()[p].0@
                != es.drop_last()[q].0@ by {
                assert(es.drop_last()[p] == es[p]);
                assert(es.drop_last()[q] == es[q]);
            }
        }
        lemma_entry_map_at(es.drop_last(), i);
        assert(es.drop_last()[i] == es[i]);
        assert(es[i].0@ != es[es.len() - 1].0@);
    }
}

/// Appending an entry inserts its name and content into the map.
proof fn lemma_entry_map_push(es: Seq<(String, String)>, p: (String, String))
    ensures
        entry_map(es.push(p)) == entry_map(es).insert(p.0@, p.1@),
{
    assert(es.push(p).drop_last() =~= es);
    assert(es.push(p).last() == p);
}

/// Appending a name inserts it into the denoted set.
proof fn lemma_name_set_push(ns: Seq<String>, x: String)
    ensures
        name_set(ns.push(x)) == name_set(ns).insert(x@),
{
    assert_sets_equal!(name_set(ns.push(x)) == name_set(ns).insert(x@), n => {
        if n == x@ {
            assert(ns.push(x)[ns.len() as int]@ == n);
        } else {
            if name_set(ns).contains(n) {
                let i = choose|i: int| 0 <= i < ns.len() && ns[i]@ == n;
                assert(ns.push(x)[i]@ == n);
            }
            if name_set(ns.push(x)).contains(n) {
                let i = choose|i: int| 0 <= i < ns.push(x).len() && ns.push(x)[i]@ == n;
                assert(0 <= i < ns.len());
                assert(ns[i]@ == n);
            }
        }
    });
}

/// Whether `name` occurs in the list.
fn name_listed(ns: &Vec<String>, name: &String) -> (b: bool)
    ensures
        b == name_set(ns@).contains(name@),
{
    let mut i: usize = 0;
    while i < ns.len()
        invariant
            i <= ns@.len(),
            forall|j: int| 0 <= j < i ==> ns@[j]@ != name@,
        decreases ns@.len() - i,
    {
        if ns[i] == *name {
            return true;
        }
        i += 1;
    }
    proof {
        if name_set(ns@).contains(name@) {
            let j = choose|j: int| 0 <= j < ns@.len() && ns@[j]@ == name@;
        }
    }
    false
}

/// An in-memory storage facility holding named text resources, together with
/// the names it denies opening, reading or creating.
pub struct Store {
    entries: Vec<(String, String)>,
    read_denied: Vec<String>,
    open_denied: Vec<String>,
    create_denied: Vec<String>,
}

impl View for Store {
    type V = StoreView;

    closed spec fn view(&self) -> StoreView {
        StoreView {
            contents: entry_map(self.entries@),
            unreadable: name_set(self.read_denied@),
            unopenable: name_set(self.open_denied@),
            uncreatable: name_set(self.create_denied@),
        }
    }
}

impl Store {
    /// Each resource name is held by at most one entry.
    pub closed spec fn wf(&self) -> bool {
        names_unique(self.entries@)
    }

    /// A store holding no resources and denying nothing.
    pub fn new() -> (s: Store)
        ensures
            s.wf(),
            s@ == empty_view(),
    {
        let s = Store {
            entries: Vec::new(),
            read_denied: Vec::new(),
            open_denied: Vec::new(),
            create_denied: Vec::new(),
        };
        proof {
            assert(s@.unreadable =~= Set::<Seq<char>>::empty());
            assert(s@.unopenable =~= Set::<Seq<char>>::empty());
            assert(s@.uncreatable =~= Set::<Seq<char>>::empty());
            assert(s@ =~= empty_view());
        }
        s
    }

    /// The index of the entry holding `name`, if the resource exists.
    fn find_entry(&self, name: &String) -> (r: Option<usize>)
        requires
            self.wf(),
        ensures
            match r {
                Some(i) => i < self.entries@.len() && self.entries@[i as int].0@ == name@
                    && self@.contents.dom().contains(name@) && self@.contents[name@]
                    == self.entries@[i as int].1@,
                None => !self@.contents.dom().contains(name@),
            },
    {
        let mut i: usize = 0;
        while i < self.entries.len()
            invariant
                self.wf(),
                i <= self.entries@.len(),
                forall|j: int| 0 <= j < i ==> self.entries@[j].0@ != name@,
            decreases self.entries@.len() - i,
        {
            if self.entries[i].0 == *name {
                proof {
                    lemma_entry_map_at(self.entries@, i as int);
                }
                return Some(i);
            }
            i += 1;
        }
        proof {
            lemma_entry_map_dom(self.entries@);
            if self@.contents.dom().contains(name@) {
                let j = choose|j: int|
                    0 <= j < self.entries@.len() && self.entries@[j].0@ == name@;
            }
        }
        None
    }

    /// Writes `content` under a name that does not yet hold a resource, so
    /// that the resource exists with exactly that content afterward.
    pub fn put(&mut self, name: String, content: String)
        requires
            old(self).wf(),
            !old(self)@.contents.dom().contains(name@),
        ensures
            final(self).wf(),
            final(self)@ == put_view(old(self)@, name@, content@),
    {
        proof {
            lemma_entry_map_dom(self.entries@);
        }
        let ghost old_es = self.entries@;
        self.entries.push((name, content));
        proof {
            let p = self.entries@.last();
            assert(self.entries@ =~= old_es.push(p));
            assert forall|i: int, j: int|
                0 <= i < j < self.entries@.len() implies self.entries@[i].0@
                != self.entries@[j].0@ by {
                if j < self.entries@.len() - 1 {
                    assert(old_es[i].0@ != old_es[j].0@);
                }
            }
            lemma_entry_map_push(old_es, p);
            assert(final(self)@ =~= put_view(old(self)@, p.0@, p.1@));
        }
    }

    /// Marks an existing or future resource as one whose content the
    /// facility refuses to read.
    pub fn deny_read(&mut self, name: String)
        requires
            old(self).wf(),
        ensures
            final(self).wf(),
            final(self)@ == (StoreView {
                unreadable: old(self)@.unreadable.insert(name@),
                ..old(self)@
            }),
    {
        let ghost old_ns = self.read_denied@;
        self.read_denied.push(name);
        proof {
            let x = self.read_denied@.last();
            assert(self.read_denied@ =~= old_ns.push(x));
            lemma_name_set_push(old_ns, x);
            assert(final(self)@ =~= (StoreView {
                unreadable: old(self)@.unreadable.insert(x@),
                ..old(self)@
            }));
        }
    }

    /// Marks a name as one the facility refuses to open, for a reason other
    /// than absence.
    pub fn deny_open(&mut self, name: String)
        requires
            old(self).wf(),
        ensures
            final(self).wf(),
            final(self)@ == (StoreView {
                unopenable: old(self)@.unopenable.insert(name@),
                ..old(self)@
            }),
    {
        let ghost old_ns = self.open_denied@;
        self.open_denied.push(name);
        proof {
            let x = self.open_denied@.last();
            assert(self.open_denied@ =~= old_ns.push(x));
            lemma_name_set_push(old_ns, x);
            assert(final(self)@ =~= (StoreView {
                unopenable: old(self)@.unopenable.insert(x@),
                ..old(self)@
            }));
        }
    }

    /// Marks a name at which the facility refuses to create a resource.
    pub fn deny_create(&mut self, name: String)
        requires
            old(self).wf(),
        ensures
            final(self).wf(),
            final(self)@ == (StoreView {
                uncreatable: old(self)@.uncreatable.insert(name@),
                ..old(self)@
            }),
    {
        let ghost old_ns = self.create_denied@;
        self.create_denied.push(name);
        proof {
            let x = self.create_denied@.last();
            assert(self.create_denied@ =~= old_ns.push(x));
            lemma_name_set_push(old_ns, x);
            assert(final(self)@ =~= (StoreView {
                uncreatable: old(self)@.uncreatable.insert(x@),
                ..old(self)@
            }));
        }
    }

    /// The open-for-read primitive: reports whether the resource can be
    /// opened, distinguishing absence from every other refusal.
    pub fn open_for_read(&self, name: &String) -> (r: OpenOutcome)
        requires
            self.wf(),
        ensures
            (if !self@.contents.dom().contains(name@) {
                r matches OpenOutcome::Absent(d) && d@.len() > 0
            } else if self@.unopenable.contains(name@) {
                r matches OpenOutcome::Refused(d) && d@.len() > 0
            } else {
                r is Opened
            }),
    {
        match self.find_entry(name) {
            None => {
                let d = String::from_str("no such resource");
                proof {
                    reveal_strlit("no such resource");
                }
                OpenOutcome::Absent(d)
            },
            Some(_) => {
                if name_listed(&self.open_denied, name) {
                    let d = String::from_str("open was denied");
                    proof {
                        reveal_strlit("open was denied");
                    }
                    OpenOutcome::Refused(d)
                } else {
                    OpenOutcome::Opened
                }
            },
        }
    }

    /// The read-all-as-text primitive: the complete content of an existing,
    /// open resource, or a refusal where reading is denied.
    pub fn read_all(&self, name: &String) -> (r: ReadOutcome)
        requires
            self.wf(),
            self@.contents.dom().contains(name@),
        ensures
            (if self@.unreadable.contains(name@) {
                r matches ReadOutcome::Refused(d) && d@.len() > 0
            } else {
                r matches ReadOutcome::Content(c) && c@ == self@.contents[name@]
            }),
    {
        if name_listed(&self.read_denied, name) {
            let d = String::from_str("read was denied");
            proof {
                reveal_strlit("read was denied");
            }
            ReadOutcome::Refused(d)
        } else {
            match self.find_entry(name) {
                Some(i) => ReadOutcome::Content(self.entries[i].1.clone()),
                None => unreached(),
            }
        }
    }

    /// The create-empty primitive: creates an absent resource with no
    /// content, or reports a refusal and leaves the store unchanged.
    pub fn create_empty(&mut self, name: &String) -> (r: CreateOutcome)
        requires
            old(self).wf(),
            !old(self)@.contents.dom().contains(name@),
        ensures
            final(self).wf(),
            (if old(self)@.uncreatable.contains(name@) {
                r matches CreateOutcome::Refused(d) && d@.len() > 0 && final(self)@ == old(self)@
            } else {
                r matches CreateOutcome::Created && final(self)@ == put_view(
                    old(self)@,
                    name@,
                    Seq::<char>::empty(),
                )
            }),
    {
        if name_listed(&self.create_denied, name) {
            let d = String::from_str("creation was denied");
            proof {
                reveal_strlit("creation was denied");
            }
            CreateOutcome::Refused(d)
        } else {
            self.put(name.clone(), String::new());
            CreateOutcome::Created
        }
    }

    /// Returns the text content of the resource under `name`, creating the
    /// resource empty — and returning empty content — where it is absent.
    /// Every failure is classified: `CreateFailed` where creation was denied,
    /// `ReadFailed` where the content could not be read, and `Other` for an
    /// open refusal that is not absence; each carries a diagnostic.
    pub fn load_or_create(&mut self, name: &String) -> (r: Result<String, FailureReason>)
        requires
            old(self).wf(),
        ensures
            final(self).wf(),
            final(self)@ == spec_load_or_create_next(old(self)@, name@),
            (match spec_load_or_create(old(self)@, name@) {
                Ok(c) => r matches Ok(s) && s@ == c,
                Err(k) => r matches Err(f) && f.spec_kind() == k && f.spec_diagnostic().len() > 0,
            }),
    {
        let o = self.open_for_read(name);
        match recovering_open_step(o) {
            LoadStep::ReadAll => finish_read(self.read_all(name)),
            LoadStep::CreateEmpty => finish_create(self.create_empty(name)),
            LoadStep::Fail(f) => Err(f),
        }
    }

    /// Returns the text content of the resource under `name`, with no
    /// recovery: an absent resource is reported as `NotFound` and the store
    /// is never altered. `ReadFailed` and `Other` are as in
    /// [`Store::load_or_create`]; each failure carries a diagnostic.
    pub fn load_strict(&self, name: &String) -> (r: Result<String, FailureReason>)
        requires
            self.wf(),
        ensures
            (match spec_load_strict(self@, name@) {
                Ok(c) => r matches Ok(s) && s@ == c,
                Err(k) => r matches Err(f) && f.spec_kind() == k && f.spec_diagnostic().len() > 0,
            }),
    {
        let o = self.open_for_read(name);
        match strict_open_step(o) {
            Ok(_) => finish_read(self.read_all(name)),
            Err(f) => Err(f),
        }
    }
}

} // verus!
