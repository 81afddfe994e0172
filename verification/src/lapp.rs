//! One lapp: its identity, durable settings, lifecycle state, and
//! the decision logic of its background service.
//!
//! Lifecycle: a lapp starts Unloaded, becomes Loaded when the engine
//! installs a module instance, and Unloaded again when the instance
//! is dropped.  The enabled flag is orthogonal: it gates dispatch and
//! automatic loading but never drops a live instance.  Permission
//! changes take effect on the next load, not live: an instance keeps
//! the host functions it was wired with until an explicit unload.

use vstd::prelude::*;
use vstd::string::StrSliceExecFns;
use vstd::string::StringExecFns;
use crate::api::UpdateQuery;
use crate::error::ServerError;
use crate::loader::ImportPlan;
use crate::loader::build_import_plan;
use crate::memory::{spec_read, word_length, word_offset, ModuleMemory};
use crate::permission::Permission;
use crate::settings::DapSettings;

verus! {

/// The message-channel endpoint of a lapp's service actor, as the
/// host tracks it.  At most one exists per lapp at a time.
#[derive(Clone, Copy, Debug, PartialEq, Eq, Structural)]
pub struct ServiceSender {
    pub channel: u64,
}

/// A loaded, runnable module: the imports it was wired with and the
/// memory bridge of its linear memory.  Created by the loader,
/// dropped on unload, never shared between two lapps.
#[derive(Debug)]
pub struct LappInstance {
    pub plan: ImportPlan,
    pub memory: ModuleMemory,
}

impl LappInstance {
    /// Marshal a request payload into the module's memory; the
    /// returned word is what the instance's export is called with.
    /// This fails only when the payload cannot be placed below the
    /// boundary word's limit at all.
    pub fn prepare_call(&mut self, payload: &Vec<u8>) -> (r: Result<u64, crate::error::BoundaryError>)
        ensures
            final(self).plan == old(self).plan,
            match r {
                Ok(w) => {
                    &&& spec_read(final(self).memory@, word_offset(w), word_length(w))
                        == Some(payload@)
                    &&& word_length(w) == payload@.len()
                },
                Err(_) => {
                    &&& *final(self) == *old(self)
                    &&& old(self).memory@.len() + payload@.len() > u32::MAX
                },
            },
    {
        self.memory.encode_buffer(payload)
    }

    /// Copy the region a returned word names out of the module's
    /// memory.
    pub fn read_result(&self, w: u64) -> (r: Result<Vec<u8>, crate::error::BoundaryError>)
        ensures
            match r {
                Ok(bytes) => spec_read(self.memory@, word_offset(w), word_length(w))
                    == Some(bytes@),
                Err(_) => spec_read(self.memory@, word_offset(w), word_length(w)) is None,
            },
    {
        self.memory.read_slice(w)
    }
}

/// The durable entity: identity, settings, and at most one live
/// module instance plus at most one live service endpoint.
#[derive(Debug)]
pub struct Lapp {
    pub name: String,
    pub root_dir: String,
    pub settings: DapSettings,
    pub instance: Option<LappInstance>,
    pub service_sender: Option<ServiceSender>,
}

/// The name of the distinguished main (administrative) lapp.
pub open spec fn main_name_text() -> Seq<char> {
    "dapla"@
}

/// `l` with its enabled flag set to `enabled` and nothing else
/// changed.
pub open spec fn with_enabled(l: Lapp, enabled: bool) -> Lapp {
    Lapp {
        settings: DapSettings {
            application: crate::settings::ApplicationSettings {
                enabled,
                ..l.settings.application
            },
            ..l.settings
        },
        ..l
    }
}

/// The first permission in `required` that `allowed` does not hold.
pub open spec fn first_denied(allowed: Seq<Permission>, required: Seq<Permission>) -> Option<
    Permission,
>
    decreases required.len(),
{
    if required.len() == 0 {
        None
    } else if !allowed.contains(required[0]) {
        Some(required[0])
    } else {
        first_denied(allowed, required.drop_first())
    }
}

/// The service decision under exclusive access: an existing endpoint
/// is returned as is; otherwise the fresh endpoint is stored and
/// returned, and an actor is spawned for it.
pub open spec fn spec_run_service(l: Lapp, fresh: ServiceSender) -> (Lapp, ServiceSender, bool) {
    match l.service_sender {
        Some(s) => (l, s, false),
        None => (Lapp { service_sender: Some(fresh), ..l }, fresh, true),
    }
}

impl Lapp {
    /// Settings are well formed; holds at all times.
    pub open spec fn wf(&self) -> bool {
        self.settings.wf()
    }

    pub open spec fn enabled_spec(&self) -> bool {
        self.settings.application.enabled
    }

    /// A freshly registered lapp: default settings, disabled, not
    /// loaded, no service.
    pub fn new(name: String, root_dir: String) -> (lapp: Lapp)
        ensures
            lapp.name == name,
            lapp.root_dir == root_dir,
            lapp.wf(),
            !lapp.enabled_spec(),
            lapp.settings.permissions.required@ == Seq::<Permission>::empty(),
            lapp.settings.permissions.allowed@ == Seq::<Permission>::empty(),
            lapp.instance is None,
            lapp.service_sender is None,
    {
        Lapp {
            name,
            root_dir,
            settings: DapSettings::default(),
            instance: None,
            service_sender: None,
        }
    }

    pub fn settings_file_name() -> (r: &'static str)
        ensures
            r@ == "settings.toml"@,
    {
        "settings.toml"
    }

    pub fn static_dir_name() -> (r: &'static str)
        ensures
            r@ == "static"@,
    {
        "static"
    }

    pub fn index_file_name() -> (r: &'static str)
        ensures
            r@ == "index.html"@,
    {
        "index.html"
    }

    pub fn main_name() -> (r: &'static str)
        ensures
            r@ == main_name_text(),
    {
        "dapla"
    }

    pub fn main_static_uri() -> (r: String)
        ensures
            r@ == "/"@ + main_name_text() + "/"@ + "static"@,
    {
        let mut s = String::from_str("/");
        s.append(Lapp::main_name());
        s.append("/");
        s.append(Lapp::static_dir_name());
        s
    }

    pub fn main_uri(tail: &str) -> (r: String)
        ensures
            r@ == "/"@ + main_name_text() + "/"@ + tail@,
    {
        let mut s = String::from_str("/");
        s.append(Lapp::main_name());
        s.append("/");
        s.append(tail);
        s
    }

    pub fn is_main(&self) -> (r: bool)
        ensures
            r == (self.name@ == main_name_text()),
    {
        let main = String::from_str(Lapp::main_name());
        self.name == main
    }

    pub fn enabled(&self) -> (r: bool)
        ensures
            r == self.enabled_spec(),
    {
        self.settings.application.enabled
    }

    /// A pure settings mutation: it does not touch a running
    /// instance, which keeps the host functions it was wired with.
    pub fn set_enabled(&mut self, enabled: bool)
        ensures
            *final(self) == with_enabled(*old(self), enabled),
    {
        self.settings.application.enabled = enabled;
    }

    pub fn switch_enabled(&mut self)
        ensures
            *final(self) == with_enabled(*old(self), !old(self).enabled_spec()),
    {
        let enabled = !self.enabled();
        self.set_enabled(enabled);
    }

    /// Replace the whole settings record, as reloading it from
    /// storage does.
    pub fn set_settings(&mut self, settings: DapSettings)
        requires
            settings.wf(),
        ensures
            final(self).settings == settings,
            final(self).wf(),
            final(self).name == old(self).name,
            final(self).root_dir == old(self).root_dir,
            final(self).instance == old(self).instance,
            final(self).service_sender == old(self).service_sender,
    {
        self.settings = settings;
    }

    pub fn required_permissions(&self) -> (r: &Vec<Permission>)
        ensures
            r@ == self.settings.permissions.required@,
    {
        &self.settings.permissions.required
    }

    pub fn is_allowed_permission(&self, permission: Permission) -> (r: bool)
        ensures
            r == self.settings.permissions.allowed@.contains(permission),
    {
        self.settings.permissions.is_allowed(permission)
    }

    /// Grant a permission; `false` reports that nothing changed,
    /// which is the answer both for a permission the author never
    /// required and for one already allowed.
    pub fn allow_permission(&mut self, permission: Permission) -> (changed: bool)
        requires
            old(self).wf(),
        ensures
            final(self).wf(),
            Lapp::same_identity_except_permissions(*old(self), *final(self)),
            changed == (old(self).settings.permissions.required@.contains(permission)
                && !old(self).settings.permissions.allowed@.contains(permission)),
            changed ==> final(self).settings.permissions.allowed@
                == old(self).settings.permissions.allowed@.push(permission),
            !changed ==> *final(self) == *old(self),
    {
        self.settings.permissions.allow(permission)
    }

    /// Revoke a permission; `false` reports that it was not allowed.
    pub fn deny_permission(&mut self, permission: Permission) -> (changed: bool)
        requires
            old(self).wf(),
        ensures
            final(self).wf(),
            Lapp::same_identity_except_permissions(*old(self), *final(self)),
            changed == old(self).settings.permissions.allowed@.contains(permission),
            final(self).settings.permissions.allowed@
                == old(self).settings.permissions.allowed@.remove_value(permission),
            !changed ==> *final(self) == *old(self),
    {
        self.settings.permissions.deny(permission)
    }

    /// `b` agrees with `a` everywhere but in the allowed permission
    /// list.
    pub open spec fn same_identity_except_permissions(a: Lapp, b: Lapp) -> bool {
        &&& b.name == a.name
        &&& b.root_dir == a.root_dir
        &&& b.instance == a.instance
        &&& b.service_sender == a.service_sender
        &&& b.settings.application == a.settings.application
        &&& b.settings.database == a.settings.database
        &&& b.settings.network == a.settings.network
        &&& b.settings.permissions.required@ == a.settings.permissions.required@
    }

    pub fn static_dir(&self) -> (r: String)
        ensures
            r@ == self.root_dir@ + "/"@ + "static"@,
    {
        let mut s = self.root_dir.clone();
        s.append("/");
        s.append(Lapp::static_dir_name());
        s
    }

    pub fn index_file(&self) -> (r: String)
        ensures
            r@ == self.root_dir@ + "/"@ + "static"@ + "/"@ + "index.html"@,
    {
        let mut s = self.static_dir();
        s.append("/");
        s.append(Lapp::index_file_name());
        s
    }

    pub fn server_module_file(&self) -> (r: String)
        ensures
            r@ == self.root_dir@ + "/"@ + self.name@ + "_server.wasm"@,
    {
        let mut s = self.root_dir.clone();
        s.append("/");
        s.append(self.name.as_str());
        s.append("_server.wasm");
        s
    }

    /// Where the sandboxed filesystem view of a loaded module is
    /// rooted: the `data` directory under the lapp's root, which the
    /// module sees under the alias `/`.
    pub fn data_dir(&self) -> (r: String)
        ensures
            r@ == self.root_dir@ + "/"@ + "data"@,
    {
        let mut s = self.root_dir.clone();
        s.append("/");
        s.append("data");
        s
    }

    /// Whether the loader must create the data directory before
    /// wiring the filesystem view: a file permission is granted and
    /// the directory is absent (`exists` reports the disk).
    pub fn needs_data_dir(&self, exists: bool) -> (r: bool)
        ensures
            r == (!exists && (self.settings.permissions.allowed@.contains(Permission::FileRead)
                || self.settings.permissions.allowed@.contains(Permission::FileWrite))),
    {
        !exists && (self.is_allowed_permission(Permission::FileRead)
            || self.is_allowed_permission(Permission::FileWrite))
    }

    /// Where the lapp's database lives: the configured path itself
    /// when absolute, otherwise resolved against the root directory.
    pub fn get_database_path(&self) -> (r: String)
        ensures
            crate::lapp::is_absolute_path(self.settings.database.path@)
                ==> r@ == self.settings.database.path@,
            !crate::lapp::is_absolute_path(self.settings.database.path@)
                ==> r@ == self.root_dir@ + "/"@ + self.settings.database.path@,
    {
        let path = &self.settings.database.path;
        let absolute = path.as_str().unicode_len() > 0 && path.as_str().get_char(0) == '/';
        if absolute {
            path.clone()
        } else {
            let mut s = self.root_dir.clone();
            s.append("/");
            s.append(path.as_str());
            s
        }
    }

    pub fn is_loaded(&self) -> (r: bool)
        ensures
            r == (self.instance is Some),
    {
        self.instance.is_some()
    }

    /// Store the instance the loader produced; the lapp is Loaded
    /// from here until the instance is taken.
    pub fn install_instance(&mut self, instance: LappInstance)
        ensures
            final(self).instance == Some(instance),
            final(self).name == old(self).name,
            final(self).root_dir == old(self).root_dir,
            final(self).settings == old(self).settings,
            final(self).service_sender == old(self).service_sender,
    {
        self.instance = Some(instance);
    }

    /// Drop the instance (if any) out of the lapp; the lapp is
    /// Unloaded afterwards.
    pub fn take_instance(&mut self) -> (r: Option<LappInstance>)
        ensures
            r == old(self).instance,
            final(self).instance is None,
            final(self).name == old(self).name,
            final(self).root_dir == old(self).root_dir,
            final(self).settings == old(self).settings,
            final(self).service_sender == old(self).service_sender,
    {
        self.instance.take()
    }

    /// The import plan a load performed now would wire, decided by
    /// the current settings alone.
    pub fn import_plan(&self) -> (plan: ImportPlan)
        ensures
            (plan.wasi_fs is Some) == (self.settings.permissions.required@.contains(
                Permission::FileRead,
            ) || self.settings.permissions.required@.contains(Permission::FileWrite)),
            plan.wasi_fs matches Some(f) ==> {
                &&& f.read == self.settings.permissions.allowed@.contains(Permission::FileRead)
                &&& f.write == self.settings.permissions.allowed@.contains(Permission::FileWrite)
                &&& f.create == self.settings.permissions.allowed@.contains(Permission::FileWrite)
            },
            plan.database == self.settings.permissions.allowed@.contains(Permission::Database),
            plan.http == self.settings.permissions.allowed@.contains(Permission::Http),
            plan.sleep == self.settings.permissions.allowed@.contains(Permission::Sleep),
    {
        build_import_plan(&self.settings)
    }

    /// Fail fast unless the lapp is enabled and holds every listed
    /// permission; the first missing permission is the one named.
    pub fn check_enabled_and_allow_permissions(&self, permissions: &Vec<Permission>) -> (r: Result<
        (),
        ServerError,
    >)
        ensures
            !self.enabled_spec() ==> (r matches Err(ServerError::LappNotEnabled(n))
                && n@ == self.name@),
            self.enabled_spec() ==> match first_denied(
                self.settings.permissions.allowed@,
                permissions@,
            ) {
                Some(p) => (r matches Err(ServerError::LappPermissionDenied(n, q)) && n@
                    == self.name@ && q == p),
                None => r is Ok,
            },
    {
        if !self.enabled() {
            return Err(ServerError::LappNotEnabled(self.name.clone()));
        }
        let ghost allowed = self.settings.permissions.allowed@;
        proof {
            assert(permissions@.skip(0) =~= permissions@);
        }
        let mut i: usize = 0;
        while i < permissions.len()
            invariant
                self.enabled_spec(),
                i <= permissions@.len(),
                allowed == self.settings.permissions.allowed@,
                first_denied(allowed, permissions@) == first_denied(
                    allowed,
                    permissions@.skip(i as int),
                ),
            decreases permissions@.len() - i,
        {
            proof {
                assert(permissions@.skip(i as int)[0] == permissions@[i as int]);
            }
            if !self.is_allowed_permission(permissions[i]) {
                proof {
                    assert(first_denied(allowed, permissions@.skip(i as int))
                        == Some(permissions@[i as int]));
                }
                return Err(ServerError::LappPermissionDenied(
                    self.name.clone(),
                    permissions[i],
                ));
            }
            proof {
                assert(permissions@.skip(i as int).drop_first() =~= permissions@.skip(
                    i as int + 1,
                ));
            }
            i += 1;
        }
        proof {
            assert(permissions@.skip(permissions@.len() as int).len() == 0);
        }
        Ok(())
    }

    /// Dispatch a request into the lapp: marshal the payload into
    /// the instance's memory and hand back the boundary word its
    /// export is to be called with.
    ///
    /// An Unloaded lapp always answers NotLoaded, whatever its
    /// enabled flag or permissions say.  A Loaded one is then checked
    /// for being enabled and for every permission the entry point
    /// requires, in that order, before the boundary is touched.  Once
    /// the gates pass, dispatch is owed: it fails only when the
    /// payload cannot be placed below the boundary word's limit.
    pub fn process_http(&mut self, request: &Vec<u8>, required: &Vec<Permission>) -> (r: Result<
        u64,
        ServerError,
    >)
        ensures
            old(self).instance is None ==> {
                &&& (r matches Err(ServerError::LappNotLoaded(n)) && n@ == old(self).name@)
                &&& *final(self) == *old(self)
            },
            old(self).instance is Some && !old(self).enabled_spec() ==> {
                &&& (r matches Err(ServerError::LappNotEnabled(n)) && n@ == old(self).name@)
                &&& *final(self) == *old(self)
            },
            old(self).instance is Some && old(self).enabled_spec() ==> match first_denied(
                old(self).settings.permissions.allowed@,
                required@,
            ) {
                Some(p) => {
                    &&& (r matches Err(ServerError::LappPermissionDenied(n, q)) && n@ == old(
                        self,
                    ).name@ && q == p)
                    &&& *final(self) == *old(self)
                },
                None => {
                    &&& final(self).name == old(self).name
                    &&& final(self).root_dir == old(self).root_dir
                    &&& final(self).settings == old(self).settings
                    &&& final(self).service_sender == old(self).service_sender
                    &&& (old(self).instance matches Some(oi) && final(self).instance matches Some(
                        ni,
                    ) && ni.plan == oi.plan)
                    &&& match r {
                        Ok(w) => final(self).instance matches Some(inst) && spec_read(
                            inst.memory@,
                            word_offset(w),
                            word_length(w),
                        ) == Some(request@),
                        Err(e) => {
                            &&& e matches ServerError::Boundary(_)
                            &&& *final(self) == *old(self)
                            &&& (old(self).instance matches Some(oi) && oi.memory@.len()
                                + request@.len() > u32::MAX)
                        },
                    }
                },
            },
    {
        if self.instance.is_none() {
            return Err(ServerError::LappNotLoaded(self.name.clone()));
        }
        match self.check_enabled_and_allow_permissions(required) {
            Ok(()) => {},
            Err(e) => {
                return Err(e);
            },
        }
        match &mut self.instance {
            Some(inst) => match inst.prepare_call(request) {
                Ok(w) => Ok(w),
                Err(e) => Err(ServerError::Boundary(e)),
            },
            None => {
                // Unreachable: the instance was tested above.
                proof {
                    assert(false);
                }
                Err(ServerError::LappNotLock)
            },
        }
    }

    /// Read the module's answer back out of its memory; valid only
    /// while the lapp is Loaded.
    pub fn read_http_response(&self, w: u64) -> (r: Result<Vec<u8>, ServerError>)
        ensures
            self.instance is None ==> (r matches Err(ServerError::LappNotLoaded(n)) && n@
                == self.name@),
            self.instance matches Some(inst) ==> match r {
                Ok(bytes) => spec_read(inst.memory@, word_offset(w), word_length(w))
                    == Some(bytes@),
                Err(e) => {
                    &&& e matches ServerError::Boundary(_)
                    &&& spec_read(inst.memory@, word_offset(w), word_length(w)) is None
                },
            },
    {
        match &self.instance {
            Some(inst) => match inst.read_result(w) {
                Ok(bytes) => Ok(bytes),
                Err(e) => Err(ServerError::Boundary(e)),
            },
            None => Err(ServerError::LappNotLoaded(self.name.clone())),
        }
    }

    pub fn service_sender(&self) -> (r: Option<ServiceSender>)
        ensures
            r == self.service_sender,
    {
        self.service_sender
    }

    /// Obtain the service endpoint, creating it if none is live.
    /// Runs under exclusive access to the lapp, so two concurrent
    /// callers are serialized: the second observes the first's
    /// endpoint and spawns nothing.  The `bool` says whether the
    /// caller must spawn an actor task for the returned endpoint.
    pub fn run_service_if_needed(&mut self, fresh: ServiceSender) -> (r: (ServiceSender, bool))
        ensures
            (*final(self), r.0, r.1) == spec_run_service(*old(self), fresh),
            final(self).service_sender == Some(r.0),
            r.1 == (old(self).service_sender is None),
    {
        match self.service_sender {
            Some(s) => (s, false),
            None => {
                self.service_sender = Some(fresh);
                (fresh, true)
            },
        }
    }

    /// Begin stopping the service: the endpoint (if any) is cleared
    /// and returned for the caller to send the stop message to and
    /// await the acknowledgment.  Stopping a service that was never
    /// started is a no-op the caller answers `false`.
    pub fn service_stop(&mut self) -> (r: Option<ServiceSender>)
        ensures
            r == old(self).service_sender,
            final(self).service_sender is None,
            final(self).name == old(self).name,
            final(self).root_dir == old(self).root_dir,
            final(self).settings == old(self).settings,
            final(self).instance == old(self).instance,
    {
        self.service_sender.take()
    }

    /// Unload: drop the module instance and clear the service
    /// endpoint, which is returned so the caller can stop the actor
    /// and wait for its acknowledgment before the unload completes.
    pub fn unload(&mut self) -> (r: Option<ServiceSender>)
        ensures
            r == old(self).service_sender,
            final(self).instance is None,
            final(self).service_sender is None,
            final(self).name == old(self).name,
            final(self).root_dir == old(self).root_dir,
            final(self).settings == old(self).settings,
    {
        self.instance = None;
        self.service_sender.take()
    }
}

/// How one administrative update maps a lapp `a` to `b` and the
/// query `q` to the reply `r`: the enabled flag is set when it
/// differs, then the allow toggle is applied, then the deny toggle,
/// and every field of the reply that caused no change is cleared.
pub open spec fn update_applied(a: Lapp, b: Lapp, q: UpdateQuery, r: UpdateQuery) -> bool {
    let required = a.settings.permissions.required@;
    let allowed0 = a.settings.permissions.allowed@;
    let allow_changed = match q.allow_permission {
        Some(p) => required.contains(p) && !allowed0.contains(p),
        None => false,
    };
    let allowed1 = match q.allow_permission {
        Some(p) => if required.contains(p) && !allowed0.contains(p) {
            allowed0.push(p)
        } else {
            allowed0
        },
        None => allowed0,
    };
    let allowed2 = match q.deny_permission {
        Some(p) => allowed1.remove_value(p),
        None => allowed1,
    };
    &&& b.name == a.name
    &&& b.root_dir == a.root_dir
    &&& b.instance == a.instance
    &&& b.service_sender == a.service_sender
    &&& b.settings.application.title == a.settings.application.title
    &&& b.settings.database == a.settings.database
    &&& b.settings.network == a.settings.network
    &&& b.settings.application.enabled == (match q.enabled {
        Some(e) => e,
        None => a.enabled_spec(),
    })
    &&& b.settings.permissions.required@ == required
    &&& b.settings.permissions.allowed@ == allowed2
    &&& r.lapp_name == q.lapp_name
    &&& r.enabled == (match q.enabled {
        Some(e) => if a.enabled_spec() != e {
            Some(e)
        } else {
            None
        },
        None => None,
    })
    &&& r.allow_permission == (if allow_changed {
        q.allow_permission
    } else {
        None
    })
    &&& r.deny_permission == (match q.deny_permission {
        Some(p) => if allowed1.contains(p) {
            Some(p)
        } else {
            None
        },
        None => None,
    })
}

impl Lapp {
    /// Apply one administrative update: set the enabled flag when it
    /// differs, then allow, then deny.  The returned query keeps
    /// exactly the fields that changed something, so the caller
    /// knows whether a persistence write and a reload are due.  The
    /// settings mutation itself never reloads or unloads a running
    /// instance.
    pub fn update(&mut self, query: UpdateQuery) -> (r: UpdateQuery)
        requires
            old(self).wf(),
        ensures
            final(self).wf(),
            update_applied(*old(self), *final(self), query, r),
    {
        let mut reply = query;
        match reply.enabled {
            Some(enabled) => {
                if self.enabled() != enabled {
                    self.set_enabled(enabled);
                } else {
                    reply.enabled = None;
                }
            },
            None => {},
        }
        match reply.allow_permission {
            Some(permission) => {
                if !self.allow_permission(permission) {
                    reply.allow_permission = None;
                }
            },
            None => {},
        }
        match reply.deny_permission {
            Some(permission) => {
                if !self.deny_permission(permission) {
                    reply.deny_permission = None;
                }
            },
            None => {},
        }
        reply
    }
}

/// How a mirror of the registry absorbs an update notice `q`, as
/// the browser does with the reply to an administrative request:
/// the state changes exactly as applying the update does, and
/// `rendered` reports whether the last field examined changed
/// anything, which is what the display refreshes on.
pub open spec fn refresh_applied(a: Lapp, b: Lapp, q: UpdateQuery, rendered: bool) -> bool {
    let required = a.settings.permissions.required@;
    let allowed0 = a.settings.permissions.allowed@;
    let allow_changed = match q.allow_permission {
        Some(p) => required.contains(p) && !allowed0.contains(p),
        None => false,
    };
    let allowed1 = match q.allow_permission {
        Some(p) => if required.contains(p) && !allowed0.contains(p) {
            allowed0.push(p)
        } else {
            allowed0
        },
        None => allowed0,
    };
    let allowed2 = match q.deny_permission {
        Some(p) => allowed1.remove_value(p),
        None => allowed1,
    };
    let rendered0 = match q.enabled {
        Some(e) => a.enabled_spec() != e,
        None => false,
    };
    let rendered1 = match q.allow_permission {
        Some(_) => allow_changed,
        None => rendered0,
    };
    let rendered2 = match q.deny_permission {
        Some(p) => allowed1.contains(p),
        None => rendered1,
    };
    &&& b.name == a.name
    &&& b.root_dir == a.root_dir
    &&& b.instance == a.instance
    &&& b.service_sender == a.service_sender
    &&& b.settings.application.title == a.settings.application.title
    &&& b.settings.database == a.settings.database
    &&& b.settings.network == a.settings.network
    &&& b.settings.application.enabled == (match q.enabled {
        Some(e) => e,
        None => a.enabled_spec(),
    })
    &&& b.settings.permissions.required@ == required
    &&& b.settings.permissions.allowed@ == allowed2
    &&& rendered == rendered2
}

impl Lapp {
    /// Absorb one update notice: apply each field in order and
    /// report whether the display must refresh.
    pub fn apply_updated(&mut self, updated: &UpdateQuery) -> (rendered: bool)
        requires
            old(self).wf(),
        ensures
            final(self).wf(),
            refresh_applied(*old(self), *final(self), *updated, rendered),
    {
        let mut rendered = false;
        match updated.enabled {
            Some(enabled) => {
                if self.enabled() != enabled {
                    self.set_enabled(enabled);
                    rendered = true;
                }
            },
            None => {},
        }
        match updated.allow_permission {
            Some(permission) => {
                rendered = self.allow_permission(permission);
            },
            None => {},
        }
        match updated.deny_permission {
            Some(permission) => {
                rendered = self.deny_permission(permission);
            },
            None => {},
        }
        rendered
    }
}

/// Whether a configured path stands on its own rather than being
/// resolved against the lapp's root.
pub open spec fn is_absolute_path(p: Seq<char>) -> bool {
    p.len() > 0 && p[0] == '/'
}

/// Allowing a permission the author never required through an
/// administrative update is a rejected no-op, never a silent grant:
/// when the same query carries no deny toggle, the allowed set is
/// unchanged and the reply reports no change.  (A deny in the same
/// query may itself shrink the allowed set; `allow` alone rejects
/// the grant in every case.)
pub proof fn lemma_update_rejects_unrequested_allow(
    a: Lapp,
    b: Lapp,
    q: UpdateQuery,
    r: UpdateQuery,
)
    requires
        update_applied(a, b, q, r),
        q.allow_permission matches Some(p) && !a.settings.permissions.required@.contains(p),
        q.deny_permission is None,
    ensures
        b.settings.permissions.allowed@ == a.settings.permissions.allowed@,
        r.allow_permission is None,
{
}

/// Disabling a Loaded lapp does not drop its module instance: the
/// disabled lapp is still Loaded, merely not enabled, so a
/// subsequent dispatch is rejected as NotEnabled, not as NotLoaded.
pub proof fn lemma_disable_keeps_instance(l: Lapp)
    requires
        l.instance is Some,
    ensures
        with_enabled(l, false).instance == l.instance,
        with_enabled(l, false).instance is Some,
        !with_enabled(l, false).enabled_spec(),
{
}

/// Two requests for the service endpoint in either order of two
/// concurrent callers (which exclusive access serializes): both
/// yield the same endpoint, and only the first can spawn an actor.
pub proof fn lemma_run_service_idempotent(l: Lapp, f1: ServiceSender, f2: ServiceSender)
    ensures
        ({
            let (l1, s1, spawned1) = spec_run_service(l, f1);
            let (l2, s2, spawned2) = spec_run_service(l1, f2);
            &&& l2 == l1
            &&& s2 == s1
            &&& !spawned2
            &&& spawned1 == (l.service_sender is None)
        }),
{
}

} // verus!
