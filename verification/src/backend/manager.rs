//! What loading a configured model amounts to, and the store of loaded
//! backends by model name.

use vstd::prelude::*;
use crate::backend::error::BackendError;
use crate::text::str_eq;

verus! {

/// The backend to build for a model.
#[derive(Debug, Clone, Copy, PartialEq, Eq, Structural)]
pub enum LoadPlan {
    /// Build a llama.cpp CPU backend.
    LlamaCpu,
}

/// The plan for a configured backend type, matched exactly: `llama-cpu` or
/// `cpu` build the CPU backend; `rknn3` is not available in this build;
/// anything else, or no type at all, is an unknown backend.
pub fn load_plan(backend_type: Option<&str>) -> (r: Result<LoadPlan, BackendError>)
    ensures
        match backend_type {
            None => r matches Err(BackendError::UnknownBackend(m)) && m@
                == "No backend type configured"@,
            Some(t) => if t@ == "llama-cpu"@ || t@ == "cpu"@ {
                r == Ok::<LoadPlan, BackendError>(LoadPlan::LlamaCpu)
            } else if t@ == "rknn3"@ {
                r matches Err(BackendError::BackendNotAvailable(m)) && m@
                    == "RKNN3 not available (compile with --features rknn3)"@
            } else {
                r matches Err(BackendError::UnknownBackend(m)) && m@ == t@
            },
        },
{
    match backend_type {
        None => Err(BackendError::UnknownBackend(String::from_str("No backend type configured"))),
        Some(t) => {
            if str_eq(t, "llama-cpu") || str_eq(t, "cpu") {
                Ok(LoadPlan::LlamaCpu)
            } else if str_eq(t, "rknn3") {
                Err(
                    BackendError::BackendNotAvailable(
                        String::from_str("RKNN3 not available (compile with --features rknn3)"),
                    ),
                )
            } else {
                Err(BackendError::UnknownBackend(String::from_str(t)))
            }
        },
    }
}

/// The map from model names to backends that a sequence of entries holds;
/// a later entry for a name would override an earlier one.
pub open spec fn entries_map<B>(s: Seq<(String, B)>) -> Map<Seq<char>, B>
    decreases s.len(),
{
    if s.len() == 0 {
        Map::empty()
    } else {
        entries_map(s.drop_last()).insert(s.last().0@, s.last().1)
    }
}

/// Whether no model name occurs twice among the entries.
pub open spec fn names_unique<B>(s: Seq<(String, B)>) -> bool {
    forall|i: int, j: int| 0 <= i < j < s.len() ==> s[i].0@ != s[j].0@
}

proof fn lemma_entries_lookup<B>(s: Seq<(String, B)>)
    requires
        names_unique(s),
    ensures
        forall|k: Seq<char>| #[trigger]
            entries_map(s).dom().contains(k) <==> exists|i: int| 0 <= i < s.len() && s[i].0@ == k,
        forall|i: int| 0 <= i < s.len() ==> #[trigger] entries_map(s)[s[i].0@] == s[i].1,
    decreases s.len(),
{
    if s.len() > 0 {
        let p = s.drop_last();
        assert(names_unique(p));
        lemma_entries_lookup(p);
        assert forall|k: Seq<char>| #[trigger]
            entries_map(s).dom().contains(k) <==> exists|i: int| 0 <= i < s.len() && s[i].0@ == k by {
            if entries_map(s).dom().contains(k) && k != s.last().0@ {
                assert(entries_map(p).dom().contains(k));
                let i = choose|i: int| 0 <= i < p.len() && p[i].0@ == k;
                assert(s[i].0@ == k);
            }
            if exists|i: int| 0 <= i < s.len() && s[i].0@ == k {
                let i = choose|i: int| 0 <= i < s.len() && s[i].0@ == k;
                if i < s.len() - 1 {
                    assert(p[i].0@ == k);
                    assert(entries_map(p).dom().contains(k));
                }
            }
        }
        assert forall|i: int| 0 <= i < s.len() implies #[trigger] entries_map(s)[s[i].0@] == s[i].1 by {
            if i < s.len() - 1 {
                assert(p[i] == s[i]);
                assert(s[i].0@ != s.last().0@);
                assert(entries_map(p)[p[i].0@] == p[i].1);
            }
        }
    }
}

proof fn lemma_entries_remove<B>(s: Seq<(String, B)>, i: int)
    requires
        names_unique(s),
        0 <= i < s.len(),
    ensures
        names_unique(s.remove(i)),
        entries_map(s.remove(i)) =~= entries_map(s).remove(s[i].0@),
    decreases s.len(),
{
    let p = s.drop_last();
    let e = s.last();
    assert(names_unique(p));
    lemma_entries_lookup(p);
    assert(!entries_map(p).dom().contains(e.0@)) by {
        if entries_map(p).dom().contains(e.0@) {
            let j = choose|j: int| 0 <= j < p.len() && p[j].0@ == e.0@;
            assert(s[j].0@ == s[s.len() - 1].0@);
        }
    }
    if i == s.len() - 1 {
        assert(s.remove(i) =~= p);
    } else {
        lemma_entries_remove(p, i);
        assert(s.remove(i) =~= p.remove(i).push(e));
        assert(s.remove(i).drop_last() =~= p.remove(i));
        assert(p[i].0@ != e.0@);
    }
}

/// The loaded backends by model name; no name occurs twice.
pub struct BackendRegistry<B> {
    entries: Vec<(String, B)>,
}

impl<B> BackendRegistry<B> {
    /// The backends by model name.
    pub closed spec fn view(&self) -> Map<Seq<char>, B> {
        entries_map(self.entries@)
    }

    /// The internal consistency of the store: no model name twice.
    pub closed spec fn wf(&self) -> bool {
        names_unique(self.entries@)
    }

    /// An empty store.
    pub fn new() -> (r: Self)
        ensures
            r.wf(),
            r.view() == Map::<Seq<char>, B>::empty(),
    {
        BackendRegistry { entries: Vec::new() }
    }

    fn position(&self, name: &str) -> (r: Option<usize>)
        requires
            self.wf(),
        ensures
            r matches Some(i) ==> i < self.entries@.len() && self.entries@[i as int].0@ == name@,
            r is None ==> forall|i: int| 0 <= i < self.entries@.len() ==> self.entries@[i].0@
                != name@,
    {
        let mut i: usize = 0;
        while i < self.entries.len()
            invariant
                i <= self.entries@.len(),
                forall|j: int| 0 <= j < i ==> self.entries@[j].0@ != name@,
            decreases self.entries@.len() - i,
        {
            if str_eq(self.entries[i].0.as_str(), name) {
                return Some(i);
            }
            i = i + 1;
        }
        None
    }

    /// Stores `backend` under `name`, replacing any backend stored there.
    pub fn insert(&mut self, name: String, backend: B)
        requires
            old(self).wf(),
        ensures
            final(self).wf(),
            final(self).view() == old(self).view().insert(name@, backend),
    {
        proof {
            lemma_entries_lookup(self.entries@);
        }
        match self.position(name.as_str()) {
            Some(i) => {
                proof {
                    lemma_entries_remove(self.entries@, i as int);
                }
                let _ = self.entries.remove(i);
            },
            None => {
                assert(!self.view().dom().contains(name@));
                assert(self.view().remove(name@) =~= self.view());
            },
        }
        let ghost before = self.entries@;
        self.entries.push((name, backend));
        proof {
            assert(self.entries@.drop_last() =~= before);
            assert forall|i: int, j: int| 0 <= i < j < self.entries@.len() implies self.entries@[i].0@
                != self.entries@[j].0@ by {
                if j == self.entries@.len() - 1 {
                    lemma_entries_lookup(before);
                    assert(entries_map(before)[before[i].0@] == before[i].1);
                }
            }
            assert(self.view() =~= old(self).view().insert(name@, backend));
        }
    }

    /// Loads the backend that the configured `backend_type` names and stores
    /// it under `name`.  The type is resolved as `load_plan` does; only when
    /// it names a backend this build has is `build` asked for the backend,
    /// and only a backend it gives is stored.  A refusal, or a failure of
    /// `build`, leaves the store as it was and is the result.
    pub fn load<F: FnOnce(LoadPlan) -> Result<B, BackendError>>(
        &mut self,
        name: String,
        backend_type: Option<&str>,
        build: F,
    ) -> (r: Result<(), BackendError>)
        requires
            old(self).wf(),
            call_requires(build, (LoadPlan::LlamaCpu,)),
        ensures
            final(self).wf(),
            r is Err ==> final(self).view() == old(self).view(),
            r is Ok ==> exists|b: B|
                call_ensures(build, (LoadPlan::LlamaCpu,), Ok::<B, BackendError>(b))
                    && final(self).view() == old(self).view().insert(name@, b),
            match backend_type {
                None => r matches Err(BackendError::UnknownBackend(m)) && m@
                    == "No backend type configured"@,
                Some(t) => if t@ == "llama-cpu"@ || t@ == "cpu"@ {
                    r is Ok || exists|e: BackendError|
                        call_ensures(build, (LoadPlan::LlamaCpu,), Err::<B, BackendError>(e))
                            && r == Err::<(), BackendError>(e)
                } else if t@ == "rknn3"@ {
                    r matches Err(BackendError::BackendNotAvailable(m)) && m@
                        == "RKNN3 not available (compile with --features rknn3)"@
                } else {
                    r matches Err(BackendError::UnknownBackend(m)) && m@ == t@
                },
            },
    {
        match load_plan(backend_type) {
            Err(e) => Err(e),
            Ok(plan) => match build(plan) {
                Ok(b) => {
                    self.insert(name, b);
                    Ok(())
                },
                Err(e) => Err(e),
            },
        }
    }

    /// The backend stored under `name`, if any.
    pub fn get(&self, name: &str) -> (r: Option<&B>)
        requires
            self.wf(),
        ensures
            self.view().dom().contains(name@) ==> r == Some(&self.view()[name@]),
            !self.view().dom().contains(name@) ==> r is None,
    {
        proof {
            lemma_entries_lookup(self.entries@);
        }
        match self.position(name) {
            Some(i) => Some(&self.entries[i].1),
            None => None,
        }
    }

    /// Removes the backend stored under `name`; refused when there is none.
    pub fn unload(&mut self, name: &str) -> (r: Result<(), BackendError>)
        requires
            old(self).wf(),
        ensures
            final(self).wf(),
            final(self).view() == old(self).view().remove(name@),
            r is Ok <==> old(self).view().dom().contains(name@),
            r is Err ==> r matches Err(BackendError::BackendNotInitialized),
    {
        proof {
            lemma_entries_lookup(self.entries@);
        }
        match self.position(name) {
            Some(i) => {
                proof {
                    lemma_entries_remove(self.entries@, i as int);
                }
                let _ = self.entries.remove(i);
                Ok(())
            },
            None => {
                assert(self.view().remove(name@) =~= self.view());
                Err(BackendError::BackendNotInitialized)
            },
        }
    }

    /// The names under which backends are stored, each once.
    pub fn names(&self) -> (r: Vec<String>)
        requires
            self.wf(),
        ensures
            forall|k: Seq<char>| #[trigger]
                self.view().dom().contains(k) <==> exists|i: int| 0 <= i < r@.len() && r@[i]@ == k,
            forall|i: int, j: int| 0 <= i < j < r@.len() ==> r@[i]@ != r@[j]@,
    {
        proof {
            lemma_entries_lookup(self.entries@);
        }
        let mut r: Vec<String> = Vec::new();
        let mut i: usize = 0;
        while i < self.entries.len()
            invariant
                i <= self.entries@.len(),
                r@.len() == i,
                names_unique(self.entries@),
                forall|j: int| 0 <= j < i ==> r@[j]@ == self.entries@[j].0@,
            decreases self.entries@.len() - i,
        {
            r.push(self.entries[i].0.clone());
            i = i + 1;
        }
        proof {
            assert forall|k: Seq<char>| #[trigger]
                self.view().dom().contains(k) implies exists|i: int| 0 <= i < r@.len() && r@[i]@
                == k by {
                let j = choose|j: int| 0 <= j < self.entries@.len() && self.entries@[j].0@ == k;
                assert(r@[j]@ == k);
            }
            assert forall|k: Seq<char>|
                (exists|i: int| 0 <= i < r@.len() && r@[i]@ == k) implies #[trigger]
                self.view().dom().contains(k) by {
                let j = choose|j: int| 0 <= j < r@.len() && r@[j]@ == k;
                assert(self.entries@[j].0@ == k);
            }
        }
        r
    }
}

/// What a lookup gives back after a store: the backend just stored under
/// that name; every other name keeps what it had.
pub proof fn lemma_get_after_insert<B>(r: BackendRegistry<B>, name: Seq<char>, b: B, other: Seq<char>)
    requires
        other != name,
    ensures
        r.view().insert(name, b).dom().contains(name),
        r.view().insert(name, b)[name] == b,
        r.view().insert(name, b).dom().contains(other) == r.view().dom().contains(other),
        r.view().dom().contains(other) ==> r.view().insert(name, b)[other] == r.view()[other],
{
}

/// What a lookup gives back after an unload: nothing under that name; every
/// other name keeps what it had.
pub proof fn lemma_get_after_unload<B>(r: BackendRegistry<B>, name: Seq<char>, other: Seq<char>)
    requires
        other != name,
    ensures
        !r.view().remove(name).dom().contains(name),
        r.view().remove(name).dom().contains(other) == r.view().dom().contains(other),
        r.view().dom().contains(other) ==> r.view().remove(name)[other] == r.view()[other],
{
}

} // verus!
