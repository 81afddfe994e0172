//! The loader's decisions: which imports a freshly instantiated
//! module receives, and how its `init` outcome is judged.
//!
//! The engine that compiles and instantiates bytecode lives outside
//! this crate.  It asks `build_import_plan` what to wire, performs
//! the steps of the plan, and hands the bytes the module's optional
//! `init` export returned to `check_init_outcome`.

use vstd::prelude::*;
use crate::error::{BoundaryError, ServerError};
use crate::permission::Permission;
use crate::settings::DapSettings;

verus! {

/// Access flags of the sandboxed filesystem view rooted at the
/// lapp's data directory.
#[derive(Clone, Copy, Debug, PartialEq, Eq, Structural)]
pub struct WasiFsFlags {
    pub read: bool,
    pub write: bool,
    pub create: bool,
}

/// Which host imports a module instance is wired with.  Every field
/// is decided by the capability declaration alone: a host function
/// that is not granted is absent from the import set, so a module
/// calling it fails when the import set is linked, not at call time.
#[derive(Clone, Copy, Debug, PartialEq, Eq, Structural)]
pub struct ImportPlan {
    /// Present iff the author requires FileRead or FileWrite; the
    /// flags follow the granted (not merely required) permissions.
    /// The view is rooted at the lapp's data directory
    /// (`Lapp::data_dir`), which the module sees as `/`; the loader
    /// creates that directory first when `Lapp::needs_data_dir` says
    /// so.
    pub wasi_fs: Option<WasiFsFlags>,
    /// `db_execute`/`db_query`/`db_query_row` are registered.
    pub database: bool,
    /// `invoke_http` is registered.
    pub http: bool,
    /// `invoke_sleep` is registered.
    pub sleep: bool,
}

/// Decide the whole import set of a module from its settings: the
/// filesystem view exists iff a file permission is required, with
/// access following the granted permissions, and each host function
/// group is registered iff its gating permission is granted.
pub fn build_import_plan(settings: &DapSettings) -> (plan: ImportPlan)
    ensures
        (plan.wasi_fs is Some) == (settings.permissions.required@.contains(Permission::FileRead)
            || settings.permissions.required@.contains(Permission::FileWrite)),
        plan.wasi_fs matches Some(f) ==> {
            &&& f.read == settings.permissions.allowed@.contains(Permission::FileRead)
            &&& f.write == settings.permissions.allowed@.contains(Permission::FileWrite)
            &&& f.create == settings.permissions.allowed@.contains(Permission::FileWrite)
        },
        plan.database == settings.permissions.allowed@.contains(Permission::Database),
        plan.http == settings.permissions.allowed@.contains(Permission::Http),
        plan.sleep == settings.permissions.allowed@.contains(Permission::Sleep),
{
    let wasi_fs = if settings.permissions.is_required(Permission::FileRead)
        || settings.permissions.is_required(Permission::FileWrite) {
        Some(WasiFsFlags {
            read: settings.permissions.is_allowed(Permission::FileRead),
            write: settings.permissions.is_allowed(Permission::FileWrite),
            create: settings.permissions.is_allowed(Permission::FileWrite),
        })
    } else {
        None
    };
    ImportPlan {
        wasi_fs,
        database: settings.permissions.is_allowed(Permission::Database),
        http: settings.permissions.is_allowed(Permission::Http),
        sleep: settings.permissions.is_allowed(Permission::Sleep),
    }
}

/// The optional startup exports of a freshly instantiated module.
#[derive(Clone, Copy, Debug, PartialEq, Eq, Structural)]
pub enum StartupExport {
    /// The low-level initializer, `_initialize`.
    Initialize,
    /// The start export, `_start`.
    Start,
    /// `init`, whose encoded return value goes to
    /// `check_init_outcome`.
    Init,
}

impl StartupExport {
    /// The export's name among the module's exports.
    pub fn export_name(&self) -> (r: &'static str)
        ensures
            self is Initialize ==> r@ == "_initialize"@,
            self is Start ==> r@ == "_start"@,
            self is Init ==> r@ == "init"@,
    {
        match self {
            StartupExport::Initialize => "_initialize",
            StartupExport::Start => "_start",
            StartupExport::Init => "init",
        }
    }
}

/// The order in which the loader runs the startup exports that the
/// module provides: the low-level initializer, then the start
/// export, then `init`.
pub fn startup_order() -> (r: Vec<StartupExport>)
    ensures
        r@ == seq![StartupExport::Initialize, StartupExport::Start, StartupExport::Init],
{
    let mut order: Vec<StartupExport> = Vec::new();
    order.push(StartupExport::Initialize);
    order.push(StartupExport::Start);
    order.push(StartupExport::Init);
    proof {
        assert(order@ =~= seq![
            StartupExport::Initialize,
            StartupExport::Start,
            StartupExport::Init,
        ]);
    }
    order
}

/// What borsh deserialization of `Result<(), String>` yields on
/// these bytes: `None` when they do not decode, `Some(None)` for the
/// module's success value, `Some(Some(text))` for its failure text.
pub uninterp spec fn borsh_init_result(bytes: Seq<u8>) -> Option<Option<Seq<char>>>;

/// Relies on borsh's `BorshDeserialize` for `Result<(), String>`
/// through `try_from_slice`: a one-byte tag, `1` for success and `0`
/// followed by a length-prefixed UTF-8 string for failure, with the
/// whole slice consumed.  The outcome is a function of the bytes
/// alone.
#[verifier::external_body]
fn decode_init_result(bytes: &Vec<u8>) -> (r: Option<Option<String>>)
    ensures
        (r is None) == (borsh_init_result(bytes@) is None),
        (r matches Some(None)) <==> (borsh_init_result(bytes@) matches Some(None)),
        r matches Some(Some(s))
            ==> borsh_init_result(bytes@) matches Some(Some(t)) && s@ == t,
        (r == Some(None::<String>)) <==> bytes@ == seq![1u8],
        r matches Some(Some(_)) ==> bytes@.len() >= 5 && bytes@[0] == 0u8,
{
    match <Result<(), String> as borsh::BorshDeserialize>::try_from_slice(bytes.as_slice()) {
        Ok(Ok(())) => Some(None),
        Ok(Err(text)) => Some(Some(text)),
        Err(_) => None,
    }
}

/// Judge the encoded value the module's `init` export returned, once
/// it has been copied out of the module's memory: bytes that do not
/// decode are a boundary failure of the host, a decoded failure text
/// is the module's own initialization error, and the decoded success
/// value is success.
pub fn check_init_outcome(bytes: &Vec<u8>) -> (r: Result<(), ServerError>)
    ensures
        borsh_init_result(bytes@) is None
            ==> r == Err::<(), ServerError>(ServerError::Boundary(BoundaryError::DecodeFailed)),
        borsh_init_result(bytes@) matches Some(Some(t))
            ==> (r matches Err(ServerError::LappInitError(m)) && m@ == t),
        borsh_init_result(bytes@) matches Some(None) ==> r == Ok::<(), ServerError>(()),
        bytes@ == seq![1u8] ==> r == Ok::<(), ServerError>(()),
{
    interpret_init_result(decode_init_result(bytes))
}

/// How a decoded `init` outcome maps to the loader's result; total
/// over every value the decoder can hand back.
pub fn interpret_init_result(decoded: Option<Option<String>>) -> (r: Result<(), ServerError>)
    ensures
        decoded is None ==> r == Err::<(), ServerError>(ServerError::Boundary(BoundaryError::DecodeFailed)),
        decoded matches Some(Some(text)) ==> r == Err::<(), ServerError>(ServerError::LappInitError(text)),
        decoded matches Some(None) ==> r == Ok::<(), ServerError>(()),
{
    match decoded {
        None => Err(ServerError::Boundary(BoundaryError::DecodeFailed)),
        Some(Some(text)) => Err(ServerError::LappInitError(text)),
        Some(None) => Ok(()),
    }
}

} // verus!
