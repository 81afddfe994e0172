//! The closed set of capability tokens a lapp can request.

use vstd::prelude::*;

verus! {

/// An enumerated capability token gating access to one host resource.
/// Compared by identity; the set is closed.
#[derive(Clone, Copy, Debug, PartialEq, Eq, Hash, Structural)]
pub enum Permission {
    FileRead,
    FileWrite,
    Database,
    Http,
    Sleep,
}

impl Permission {
    /// The canonical text of this token, as it appears in settings
    /// files and administrative requests.
    pub open spec fn text(self) -> Seq<char> {
        match self {
            Permission::FileRead => "file_read"@,
            Permission::FileWrite => "file_write"@,
            Permission::Database => "database"@,
            Permission::Http => "http"@,
            Permission::Sleep => "sleep"@,
        }
    }

    pub fn as_str(&self) -> (r: &'static str)
        ensures
            r@ == self.text(),
    {
        match self {
            Permission::FileRead => "file_read",
            Permission::FileWrite => "file_write",
            Permission::Database => "database",
            Permission::Http => "http",
            Permission::Sleep => "sleep",
        }
    }

    /// The token whose canonical text is `t`, if any.
    pub open spec fn from_text(t: Seq<char>) -> Option<Permission> {
        if t == Permission::FileRead.text() {
            Some(Permission::FileRead)
        } else if t == Permission::FileWrite.text() {
            Some(Permission::FileWrite)
        } else if t == Permission::Database.text() {
            Some(Permission::Database)
        } else if t == Permission::Http.text() {
            Some(Permission::Http)
        } else if t == Permission::Sleep.text() {
            Some(Permission::Sleep)
        } else {
            None
        }
    }

    pub fn try_from_str(s: &String) -> (r: Option<Permission>)
        ensures
            r == Permission::from_text(s@),
    {
        if *s == String::from_str("file_read") {
            Some(Permission::FileRead)
        } else if *s == String::from_str("file_write") {
            Some(Permission::FileWrite)
        } else if *s == String::from_str("database") {
            Some(Permission::Database)
        } else if *s == String::from_str("http") {
            Some(Permission::Http)
        } else if *s == String::from_str("sleep") {
            Some(Permission::Sleep)
        } else {
            None
        }
    }
}

/// Whether `v` holds the token `p`.
pub fn contains_permission(v: &Vec<Permission>, p: Permission) -> (r: bool)
    ensures
        r == v@.contains(p),
{
    let mut i: usize = 0;
    while i < v.len()
        invariant
            i <= v.len(),
            forall|j: int| 0 <= j < i ==> v@[j] != p,
        decreases v.len() - i,
    {
        if v[i] == p {
            assert(v@.contains(p));
            return true;
        }
        i += 1;
    }
    false
}

} // verus!
