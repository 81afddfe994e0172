//! Per-lapp durable settings: application metadata, the capability
//! declaration, the database location and the network configuration.
//! These are the single source of truth for what a freshly loaded
//! instance receives; persistence of them is the caller's business.

use vstd::prelude::*;
use crate::permission::{contains_permission, Permission};

verus! {

#[derive(Debug, Clone)]
pub struct ApplicationSettings {
    pub title: String,
    pub enabled: bool,
}

impl Default for ApplicationSettings {
    fn default() -> (r: Self)
        ensures
            r.title@ == Seq::<char>::empty(),
            !r.enabled,
    {
        ApplicationSettings { title: String::new(), enabled: false }
    }
}

/// The capability declaration of one lapp: the permissions its author
/// requires, and the subset an administrator has allowed.
#[derive(Debug, Clone)]
pub struct PermissionsSettings {
    pub required: Vec<Permission>,
    pub allowed: Vec<Permission>,
}

impl PermissionsSettings {
    /// Both lists are duplicate-free and every allowed permission is
    /// required; this holds at all times.
    pub open spec fn wf(self) -> bool {
        &&& self.required@.no_duplicates()
        &&& self.allowed@.no_duplicates()
        &&& forall|p: Permission| self.allowed@.contains(p) ==> self.required@.contains(p)
    }

    pub fn is_allowed(&self, permission: Permission) -> (r: bool)
        ensures
            r == self.allowed@.contains(permission),
    {
        contains_permission(&self.allowed, permission)
    }

    pub fn is_required(&self, permission: Permission) -> (r: bool)
        ensures
            r == self.required@.contains(permission),
    {
        contains_permission(&self.required, permission)
    }

    /// Grant a permission.  Returns whether the allowed-set changed:
    /// granting an unrequested permission is rejected, and granting
    /// one already allowed is a no-op, both reported as `false`.
    pub fn allow(&mut self, permission: Permission) -> (changed: bool)
        requires
            old(self).wf(),
        ensures
            final(self).wf(),
            changed == (old(self).required@.contains(permission)
                && !old(self).allowed@.contains(permission)),
            changed ==> final(self).allowed@ == old(self).allowed@.push(permission),
            !changed ==> *final(self) == *old(self),
            final(self).required@ == old(self).required@,
    {
        if self.is_required(permission) && !self.is_allowed(permission) {
            self.allowed.push(permission);
            true
        } else {
            false
        }
    }

    /// Revoke a permission.  Returns whether the allowed-set changed;
    /// denying a permission that was not allowed is a no-op.
    pub fn deny(&mut self, permission: Permission) -> (changed: bool)
        requires
            old(self).wf(),
        ensures
            final(self).wf(),
            changed == old(self).allowed@.contains(permission),
            final(self).allowed@ == old(self).allowed@.remove_value(permission),
            final(self).required@ == old(self).required@,
            !changed ==> *final(self) == *old(self),
    {
        let ghost orig = self.allowed@;
        let mut i: usize = 0;
        while i < self.allowed.len()
            invariant
                old(self).wf(),
                *self == *old(self),
                orig == self.allowed@,
                i <= self.allowed.len(),
                forall|j: int| 0 <= j < i ==> self.allowed@[j] != permission,
            decreases self.allowed.len() - i,
        {
            if self.allowed[i] == permission {
                proof {
                    orig.index_of_first_ensures(permission);
                    assert(orig[i as int] == permission);
                    assert(orig.contains(permission));
                    assert(orig.index_of_first(permission) == Some(i as int)) by {
                        match orig.index_of_first(permission) {
                            Some(k) => {
                                if k < i as int {
                                    assert(orig[k] == permission);
                                    assert(false);
                                }
                                if k > i as int {
                                    assert(orig[i as int] != permission);
                                    assert(false);
                                }
                            },
                            None => {
                                assert(!orig.contains(permission));
                                assert(false);
                            },
                        }
                    }
                }
                self.allowed.remove(i);
                proof {
                    let r = orig.remove(i as int);
                    orig.remove_ensures(i as int);
                    assert(self.allowed@ == r);
                    assert(self.allowed@ == orig.remove_value(permission));
                    assert(orig.no_duplicates());
                    assert(r.len() == orig.len() - 1);
                    assert forall|a: int, b: int|
                        0 <= a < r.len() && 0 <= b < r.len() && a != b implies r[a] != r[b]
                    by {
                        orig.remove_ensures(i as int);
                        let a0: int = if a < i as int { a } else { a + 1 };
                        let b0: int = if b < i as int { b } else { b + 1 };
                        assert(0 <= a0 < orig.len());
                        assert(0 <= b0 < orig.len());
                        assert(a0 != b0);
                        assert(r[a] == orig[a0]);
                        assert(r[b] == orig[b0]);
                        assert(orig[a0] != orig[b0]);
                    }
                    assert(r.no_duplicates());
                    assert forall|p: Permission| self.allowed@.contains(p)
                        implies self.required@.contains(p)
                    by {
                        orig.remove_ensures(i as int);
                        let w = choose|w: int| 0 <= w < r.len() && r[w] == p;
                        assert(0 <= w < r.len() && r[w] == p);
                        let w0: int = if w < i as int { w } else { w + 1 };
                        assert(0 <= w0 < orig.len());
                        assert(r[w] == orig[w0]);
                        assert(orig[w0] == p);
                        assert(orig.contains(p));
                        assert(old(self).required@.contains(p));
                    }
                }
                return true;
            }
            i += 1;
        }
        proof {
            assert(!orig.contains(permission));
            orig.index_of_first_ensures(permission);
            assert(orig.index_of_first(permission) is None) by {
                match orig.index_of_first(permission) {
                    Some(k) => {
                        assert(orig.contains(permission));
                        assert(false);
                    },
                    None => {},
                }
            }
            assert(orig.remove_value(permission) == orig);
        }
        false
    }
}

/// At all times the allowed permissions are a subset of the
/// required ones: well-formedness is established by construction and
/// preserved by `allow` and `deny`, and `allow` on a permission the
/// author never required reports no change and changes nothing.
pub proof fn lemma_allowed_subset_of_required(ps: PermissionsSettings)
    requires
        ps.wf(),
    ensures
        forall|p: Permission| ps.allowed@.contains(p) ==> ps.required@.contains(p),
{
}

impl Default for PermissionsSettings {
    fn default() -> (r: Self)
        ensures
            r.required@ == Seq::<Permission>::empty(),
            r.allowed@ == Seq::<Permission>::empty(),
            r.wf(),
    {
        PermissionsSettings { required: Vec::new(), allowed: Vec::new() }
    }
}

/// Where the lapp's database lives; a relative path is resolved
/// against the lapp's root directory.
#[derive(Debug, Clone)]
pub struct DatabaseSettings {
    pub path: String,
}

impl Default for DatabaseSettings {
    fn default() -> (r: Self)
        ensures
            r.path@ == Seq::<char>::empty(),
    {
        DatabaseSettings { path: String::new() }
    }
}

#[derive(Debug, Clone)]
pub struct GossipsubSettings {
    pub addr: String,
    pub dial_ports: Vec<u16>,
}

impl Default for GossipsubSettings {
    fn default() -> (r: Self)
        ensures
            r.addr@ == Seq::<char>::empty(),
            r.dial_ports@ == Seq::<u16>::empty(),
    {
        GossipsubSettings { addr: String::new(), dial_ports: Vec::new() }
    }
}

#[derive(Debug, Clone)]
pub struct NetworkSettings {
    pub gossipsub: GossipsubSettings,
}

impl Default for NetworkSettings {
    fn default() -> (r: Self)
        ensures
            r.gossipsub.addr@ == Seq::<char>::empty(),
            r.gossipsub.dial_ports@ == Seq::<u16>::empty(),
    {
        NetworkSettings { gossipsub: GossipsubSettings::default() }
    }
}

/// The whole durable settings record of one lapp.
#[derive(Debug, Clone)]
pub struct DapSettings {
    pub application: ApplicationSettings,
    pub permissions: PermissionsSettings,
    pub database: DatabaseSettings,
    pub network: NetworkSettings,
}

impl DapSettings {
    pub open spec fn wf(self) -> bool {
        self.permissions.wf()
    }
}

impl Default for DapSettings {
    fn default() -> (r: Self)
        ensures
            r.wf(),
            !r.application.enabled,
            r.permissions.required@ == Seq::<Permission>::empty(),
            r.permissions.allowed@ == Seq::<Permission>::empty(),
            r.database.path@ == Seq::<char>::empty(),
    {
        DapSettings {
            application: ApplicationSettings::default(),
            permissions: PermissionsSettings::default(),
            database: DatabaseSettings::default(),
            network: NetworkSettings::default(),
        }
    }
}

} // verus!
