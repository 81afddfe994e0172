//! The registry of all lapps: enumeration, lookup by name, and
//! coordinated load/unload.
//!
//! Locking is per lapp and never global; the host serializes
//! exclusive operations (load, unload, settings mutation) against
//! shared dispatch on the same lapp outside this crate.  Here the
//! registry itself is exact: names are unique, lookups name the
//! entry they return, and every mutation says which entry it
//! touched and that it touched no other.

use vstd::prelude::*;
use vstd::string::StringExecFns;
use crate::api::UpdateQuery;
use crate::error::ServerError;
use crate::lapp::{main_name_text, refresh_applied, update_applied, Lapp, ServiceSender};
use crate::permission::Permission;

verus! {

/// A lapp exactly as registration constructs it: default settings
/// under the given name and root, unloaded, without a service.
pub open spec fn is_fresh_lapp(l: Lapp, name: Seq<char>, root_dir: Seq<char>) -> bool {
    &&& l.name@ == name
    &&& l.root_dir@ == root_dir
    &&& l.wf()
    &&& !l.enabled_spec()
    &&& l.settings.permissions.required@ == Seq::<Permission>::empty()
    &&& l.settings.permissions.allowed@ == Seq::<Permission>::empty()
    &&& l.instance is None
    &&& l.service_sender is None
}

pub struct LappsManager {
    pub lapps: Vec<Lapp>,
    pub lapps_path: String,
}

impl LappsManager {
    /// Registered names are unique and every entry is well formed;
    /// holds at all times.
    pub open spec fn wf(&self) -> bool {
        &&& forall|i: int, j: int|
            0 <= i < j < self.lapps@.len() ==> self.lapps@[i].name@ != self.lapps@[j].name@
        &&& forall|i: int| 0 <= i < self.lapps@.len() ==> self.lapps@[i].wf()
    }

    /// Some entry carries this name.
    pub open spec fn has_lapp(&self, name: Seq<char>) -> bool {
        exists|i: int| 0 <= i < self.lapps@.len() && self.lapps@[i].name@ == name
    }

    /// An empty registry over this directory; the host registers
    /// what it discovers there.
    pub fn new(lapps_path: String) -> (m: LappsManager)
        ensures
            m.lapps@.len() == 0,
            m.lapps_path == lapps_path,
            m.wf(),
    {
        LappsManager { lapps: Vec::new(), lapps_path }
    }

    /// Where the named lapp's files live.
    pub fn lapp_dir(&self, lapp_name: &String) -> (r: String)
        ensures
            r@ == self.lapps_path@ + "/"@ + lapp_name@,
    {
        let mut s = self.lapps_path.clone();
        s.append("/");
        s.append(lapp_name.as_str());
        s
    }

    /// The position of the named entry.
    pub fn find_index(&self, lapp_name: &String) -> (r: Option<usize>)
        ensures
            match r {
                Some(i) => i < self.lapps@.len() && self.lapps@[i as int].name@ == lapp_name@,
                None => !self.has_lapp(lapp_name@),
            },
    {
        let mut i: usize = 0;
        while i < self.lapps.len()
            invariant
                i <= self.lapps@.len(),
                forall|j: int| 0 <= j < i ==> self.lapps@[j].name@ != lapp_name@,
            decreases self.lapps@.len() - i,
        {
            if self.lapps[i].name == *lapp_name {
                return Some(i);
            }
            i += 1;
        }
        None
    }

    /// Register the named lapp with fresh default state, replacing
    /// any existing entry of that name and touching no other entry.
    pub fn insert_lapp(&mut self, lapp_name: &String)
        requires
            old(self).wf(),
        ensures
            final(self).wf(),
            final(self).lapps_path == old(self).lapps_path,
            final(self).has_lapp(lapp_name@),
            !old(self).has_lapp(lapp_name@) ==> {
                &&& final(self).lapps@.len() == old(self).lapps@.len() + 1
                &&& final(self).lapps@ == old(self).lapps@.push(final(self).lapps@.last())
                &&& is_fresh_lapp(
                    final(self).lapps@.last(),
                    lapp_name@,
                    old(self).lapps_path@ + "/"@ + lapp_name@,
                )
            },
            old(self).has_lapp(lapp_name@) ==> (exists|i: int|
                0 <= i < old(self).lapps@.len() && old(self).lapps@[i].name@ == lapp_name@
                    && final(self).lapps@ == old(self).lapps@.update(i, final(self).lapps@[i])
                    && is_fresh_lapp(
                    final(self).lapps@[i],
                    lapp_name@,
                    old(self).lapps_path@ + "/"@ + lapp_name@,
                )),
    {
        let root_dir = self.lapp_dir(lapp_name);
        let fresh = Lapp::new(lapp_name.clone(), root_dir);
        match self.find_index(lapp_name) {
            Some(i) => {
                self.lapps[i] = fresh;
                proof {
                    assert forall|a: int, b: int|
                        0 <= a < b < self.lapps@.len() implies self.lapps@[a].name@
                        != self.lapps@[b].name@ by {
                        assert(old(self).lapps@[a].name@ != old(self).lapps@[b].name@);
                    }
                }
            },
            None => {
                self.lapps.push(fresh);
                proof {
                    assert forall|a: int, b: int|
                        0 <= a < b < self.lapps@.len() implies self.lapps@[a].name@
                        != self.lapps@[b].name@ by {
                        if b < old(self).lapps@.len() {
                            assert(old(self).lapps@[a].name@ != old(self).lapps@[b].name@);
                        } else {
                            assert(self.lapps@[b].name@ == lapp_name@);
                            assert(!old(self).has_lapp(lapp_name@));
                        }
                    }
                    assert(self.lapps@ == old(self).lapps@.push(self.lapps@.last()));
                }
            },
        }
    }

    /// Shared lookup: the entry of that name, or NotFound.
    pub fn lapp(&self, lapp_name: &String) -> (r: Result<&Lapp, ServerError>)
        ensures
            match r {
                Ok(l) => {
                    &&& exists|i: int|
                        0 <= i < self.lapps@.len() && self.lapps@[i] == *l
                    &&& l.name@ == lapp_name@
                },
                Err(e) => {
                    &&& !self.has_lapp(lapp_name@)
                    &&& (e matches ServerError::LappNotFound(n) && n@ == lapp_name@)
                },
            },
    {
        match self.find_index(lapp_name) {
            Some(i) => {
                let l = &self.lapps[i];
                proof {
                    assert(self.lapps@[i as int] == *l);
                }
                Ok(l)
            },
            None => Err(ServerError::LappNotFound(lapp_name.clone())),
        }
    }

    /// Whether the named lapp is present and Loaded; an unknown name
    /// answers `false`.
    pub fn is_loaded(&self, lapp_name: &String) -> (r: bool)
        requires
            self.wf(),
        ensures
            r == (exists|i: int|
                0 <= i < self.lapps@.len() && self.lapps@[i].name@ == lapp_name@
                    && self.lapps@[i].instance is Some),
    {
        match self.find_index(lapp_name) {
            Some(i) => {
                let loaded = self.lapps[i].is_loaded();
                proof {
                    if !loaded {
                        assert forall|j: int|
                            0 <= j < self.lapps@.len() && self.lapps@[j].name@ == lapp_name@
                            implies !(self.lapps@[j].instance is Some) by {
                            if j < i as int {
                                assert(self.lapps@[j].name@ != self.lapps@[i as int].name@);
                            }
                            if j > i as int {
                                assert(self.lapps@[i as int].name@ != self.lapps@[j].name@);
                            }
                        }
                    }
                }
                loaded
            },
            None => false,
        }
    }

    /// Shared lookup of a Loaded lapp: NotFound for an unknown name,
    /// NotLoaded for one without a live instance.
    pub fn loaded_lapp(&self, lapp_name: &String) -> (r: Result<&Lapp, ServerError>)
        ensures
            match r {
                Ok(l) => {
                    &&& exists|i: int|
                        0 <= i < self.lapps@.len() && self.lapps@[i] == *l
                    &&& l.name@ == lapp_name@
                    &&& l.instance is Some
                },
                Err(e) => {
                    ||| (!self.has_lapp(lapp_name@) && (e matches ServerError::LappNotFound(n)
                        && n@ == lapp_name@))
                    ||| ((exists|i: int|
                        0 <= i < self.lapps@.len() && self.lapps@[i].name@ == lapp_name@
                            && self.lapps@[i].instance is None) && (e
                        matches ServerError::LappNotLoaded(n) && n@ == lapp_name@))
                },
            },
    {
        match self.find_index(lapp_name) {
            Some(i) => {
                let l = &self.lapps[i];
                if l.is_loaded() {
                    proof {
                        assert(self.lapps@[i as int] == *l);
                    }
                    Ok(l)
                } else {
                    Err(ServerError::LappNotLoaded(lapp_name.clone()))
                }
            },
            None => Err(ServerError::LappNotFound(lapp_name.clone())),
        }
    }

    /// Exclusive access to one entry, for the load and dispatch
    /// steps the host drives directly.
    pub fn lapp_mut(&mut self, i: usize) -> (r: &mut Lapp)
        requires
            i < old(self).lapps@.len(),
        ensures
            *r == old(self).lapps@[i as int],
            final(self).lapps@ == old(self).lapps@.update(i as int, *final(r)),
            final(self).lapps_path == old(self).lapps_path,
    {
        &mut self.lapps[i]
    }

    /// Whether start-up loading considers this entry: enabled, not
    /// the main lapp, and not yet Loaded.
    pub fn should_autoload(&self, i: usize) -> (r: bool)
        requires
            i < self.lapps@.len(),
        ensures
            r == (self.lapps@[i as int].name@ != main_name_text()
                && self.lapps@[i as int].enabled_spec()
                && self.lapps@[i as int].instance is None),
    {
        let l = &self.lapps[i];
        !l.is_main() && l.enabled() && !l.is_loaded()
    }

    /// Unload the named lapp: its instance is dropped and its
    /// service endpoint cleared and returned, so the caller can stop
    /// the actor and await the acknowledgment.  No other entry is
    /// touched.
    pub fn unload(&mut self, lapp_name: &String) -> (r: Result<Option<ServiceSender>, ServerError>)
        requires
            old(self).wf(),
        ensures
            final(self).wf(),
            final(self).lapps_path == old(self).lapps_path,
            match r {
                Ok(sender) => exists|i: int|
                    {
                        &&& 0 <= i < old(self).lapps@.len()
                        &&& old(self).lapps@[i].name@ == lapp_name@
                        &&& final(self).lapps@ == old(self).lapps@.update(
                            i,
                            final(self).lapps@[i],
                        )
                        &&& final(self).lapps@[i].instance is None
                        &&& final(self).lapps@[i].service_sender is None
                        &&& final(self).lapps@[i].name == old(self).lapps@[i].name
                        &&& final(self).lapps@[i].root_dir == old(self).lapps@[i].root_dir
                        &&& final(self).lapps@[i].settings == old(self).lapps@[i].settings
                        &&& sender == old(self).lapps@[i].service_sender
                    },
                Err(e) => {
                    &&& *final(self) == *old(self)
                    &&& !old(self).has_lapp(lapp_name@)
                    &&& (e matches ServerError::LappNotFound(n) && n@ == lapp_name@)
                },
            },
    {
        match self.find_index(lapp_name) {
            Some(i) => {
                let ghost before = self.lapps@;
                let mut l = self.lapps.remove(i);
                let sender = l.unload();
                self.lapps.insert(i, l);
                proof {
                    assert(self.lapps@ =~= before.update(i as int, self.lapps@[i as int]));
                    assert forall|a: int, b: int|
                        0 <= a < b < self.lapps@.len() implies self.lapps@[a].name@
                        != self.lapps@[b].name@ by {
                        assert(before[a].name@ != before[b].name@);
                    }
                }
                Ok(sender)
            },
            None => Err(ServerError::LappNotFound(lapp_name.clone())),
        }
    }

    /// Apply one administrative update to the named lapp and report
    /// back which fields actually changed; the caller persists the
    /// settings when any did.  No other entry is touched.
    pub fn update_lapp(&mut self, query: UpdateQuery) -> (r: Result<UpdateQuery, ServerError>)
        requires
            old(self).wf(),
        ensures
            final(self).wf(),
            final(self).lapps_path == old(self).lapps_path,
            match r {
                Ok(rq) => exists|i: int|
                    {
                        &&& 0 <= i < old(self).lapps@.len()
                        &&& old(self).lapps@[i].name@ == query.lapp_name@
                        &&& final(self).lapps@ == old(self).lapps@.update(
                            i,
                            final(self).lapps@[i],
                        )
                        &&& update_applied(
                            old(self).lapps@[i],
                            final(self).lapps@[i],
                            query,
                            rq,
                        )
                    },
                Err(e) => {
                    &&& *final(self) == *old(self)
                    &&& !old(self).has_lapp(query.lapp_name@)
                    &&& (e matches ServerError::LappNotFound(n) && n@ == query.lapp_name@)
                },
            },
    {
        match self.find_index(&query.lapp_name) {
            Some(i) => {
                let ghost before = self.lapps@;
                let mut l = self.lapps.remove(i);
                let rq = l.update(query);
                self.lapps.insert(i, l);
                proof {
                    assert(self.lapps@ =~= before.update(i as int, self.lapps@[i as int]));
                    assert forall|a: int, b: int|
                        0 <= a < b < self.lapps@.len() implies self.lapps@[a].name@
                        != self.lapps@[b].name@ by {
                        assert(before[a].name@ != before[b].name@);
                    }
                }
                Ok(rq)
            },
            None => {
                let name = query.lapp_name.clone();
                Err(ServerError::LappNotFound(name))
            },
        }
    }

    /// Absorb an update notice into this registry, as a mirror of it
    /// does with the reply to an administrative request: the named
    /// entry changes as the update says and the answer reports
    /// whether a display must refresh.  An unknown name changes
    /// nothing and needs no refresh.
    pub fn apply_updated(&mut self, updated: &UpdateQuery) -> (rendered: bool)
        requires
            old(self).wf(),
        ensures
            final(self).wf(),
            final(self).lapps_path == old(self).lapps_path,
            !old(self).has_lapp(updated.lapp_name@) ==> {
                &&& *final(self) == *old(self)
                &&& !rendered
            },
            old(self).has_lapp(updated.lapp_name@) ==> exists|i: int|
                {
                    &&& 0 <= i < old(self).lapps@.len()
                    &&& old(self).lapps@[i].name@ == updated.lapp_name@
                    &&& final(self).lapps@ == old(self).lapps@.update(i, final(self).lapps@[i])
                    &&& refresh_applied(
                        old(self).lapps@[i],
                        final(self).lapps@[i],
                        *updated,
                        rendered,
                    )
                },
    {
        match self.find_index(&updated.lapp_name) {
            Some(i) => {
                let ghost before = self.lapps@;
                let mut l = self.lapps.remove(i);
                let rendered = l.apply_updated(updated);
                self.lapps.insert(i, l);
                proof {
                    assert(self.lapps@ =~= before.update(i as int, self.lapps@[i as int]));
                    assert forall|a: int, b: int|
                        0 <= a < b < self.lapps@.len() implies self.lapps@[a].name@
                        != self.lapps@[b].name@ by {
                        assert(before[a].name@ != before[b].name@);
                    }
                }
                rendered
            },
            None => false,
        }
    }
}

} // verus!
