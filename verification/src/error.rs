//! Error kinds of the host core.  Every error is scoped to one lapp;
//! none is fatal to the whole process.

use vstd::prelude::*;
use crate::permission::Permission;

verus! {

/// A failure at the host/guest memory boundary.
#[derive(Clone, Copy, Debug, PartialEq, Eq, Structural)]
pub enum BoundaryError {
    /// An offset/length pair reaches beyond the module's current
    /// memory size.
    OutOfBounds { offset: u32, length: u32, size: usize },
    /// The module's allocator cannot supply a region of this length.
    AllocFailed { length: u32 },
    /// The module returned bytes that do not decode as a result value.
    DecodeFailed,
}

/// The loader step at which instantiation failed.
#[derive(Clone, Copy, Debug, PartialEq, Eq, Structural)]
pub enum InstantiationStep {
    Compile,
    BuildImports,
    RegisterHostFunctions,
    Instantiate,
    StartupExport,
}

/// An error surfaced by lifecycle, dispatch or boundary operations.
#[derive(Clone, Debug, PartialEq, Eq)]
pub enum ServerError {
    /// No lapp of this name is registered.
    LappNotFound(String),
    /// Dispatch was attempted against a lapp with no live instance.
    LappNotLoaded(String),
    /// The lapp is disabled.
    LappNotEnabled(String),
    /// The lapp does not hold a permission the operation requires.
    LappPermissionDenied(String, Permission),
    /// The lapp's lock is poisoned or unobtainable.
    LappNotLock,
    /// A failure at the host/guest memory boundary.
    Boundary(BoundaryError),
    /// Compilation, import resolution or a startup export failed.
    Instantiation(InstantiationStep),
    /// The module's own `init` entry point reported failure.
    LappInitError(String),
}

impl ServerError {
    /// A short machine-readable tag for the error kind.
    pub fn kind_str(&self) -> (r: &'static str)
        ensures
            (self matches ServerError::LappNotFound(_)) ==> r@ == "not_found"@,
            (self matches ServerError::LappNotLoaded(_)) ==> r@ == "not_loaded"@,
            (self matches ServerError::LappNotEnabled(_)) ==> r@ == "not_enabled"@,
            (self matches ServerError::LappPermissionDenied(_, _)) ==> r@ == "permission_denied"@,
            (self matches ServerError::LappNotLock) ==> r@ == "lock_unavailable"@,
            (self matches ServerError::Boundary(_)) ==> r@ == "boundary"@,
            (self matches ServerError::Instantiation(_)) ==> r@ == "instantiation"@,
            (self matches ServerError::LappInitError(_)) ==> r@ == "application_init"@,
    {
        match self {
            ServerError::LappNotFound(_) => "not_found",
            ServerError::LappNotLoaded(_) => "not_loaded",
            ServerError::LappNotEnabled(_) => "not_enabled",
            ServerError::LappPermissionDenied(_, _) => "permission_denied",
            ServerError::LappNotLock => "lock_unavailable",
            ServerError::Boundary(_) => "boundary",
            ServerError::Instantiation(_) => "instantiation",
            ServerError::LappInitError(_) => "application_init",
        }
    }
}

} // verus!
