//! The administrative interface's data: one settings update for a
//! named lapp, and the permission toggle the browser UI sends.

use vstd::prelude::*;
use vstd::string::StrSliceExecFns;
use crate::permission::Permission;

verus! {

/// One administrative settings update: enable/disable, allow one
/// permission, deny one permission.  Applying it hands the query
/// back with every field that caused no change cleared, so the
/// sender learns which fields actually took effect.
#[derive(Debug, Clone)]
pub struct UpdateQuery {
    pub lapp_name: String,
    pub enabled: Option<bool>,
    pub allow_permission: Option<Permission>,
    pub deny_permission: Option<Permission>,
}

impl UpdateQuery {
    pub fn new(lapp_name: String) -> (q: UpdateQuery)
        ensures
            q.lapp_name == lapp_name,
            q.enabled is None,
            q.allow_permission is None,
            q.deny_permission is None,
    {
        UpdateQuery { lapp_name, enabled: None, allow_permission: None, deny_permission: None }
    }

    pub fn enabled(self, enabled: bool) -> (q: UpdateQuery)
        ensures
            q == (UpdateQuery { enabled: Some(enabled), ..self }),
    {
        UpdateQuery { enabled: Some(enabled), ..self }
    }

    pub fn update_permission(self, permission: Permission, allow: bool) -> (q: UpdateQuery)
        ensures
            allow ==> q == (UpdateQuery { allow_permission: Some(permission), ..self }),
            !allow ==> q == (UpdateQuery { deny_permission: Some(permission), ..self }),
    {
        if allow {
            UpdateQuery { allow_permission: Some(permission), ..self }
        } else {
            UpdateQuery { deny_permission: Some(permission), ..self }
        }
    }
}

/// A separator `--` stands at position `i` of `s`.
pub open spec fn sep_at(s: Seq<char>, i: int) -> bool {
    &&& 0 <= i
    &&& i + 2 <= s.len()
    &&& s[i] == '-'
    &&& s[i + 1] == '-'
}

/// The first separator position at or after `from`, if any.
pub open spec fn first_sep_from(s: Seq<char>, from: int) -> Option<int>
    decreases s.len() - from,
{
    if from < 0 || from + 2 > s.len() {
        None
    } else if sep_at(s, from) {
        Some(from)
    } else {
        first_sep_from(s, from + 1)
    }
}

/// How a chip identifier `<name>--<permission>` splits: the name
/// before the first separator and the segment between the first
/// separator and the next one (or the end).
pub open spec fn chip_parts(s: Seq<char>) -> Option<(Seq<char>, Seq<char>)> {
    match first_sep_from(s, 0) {
        None => None,
        Some(i) => {
            let end = match first_sep_from(s, i + 2) {
                Some(j) => j,
                None => s.len() as int,
            };
            Some((s.subrange(0, i), s.subrange(i + 2, end)))
        },
    }
}

/// The permission toggle the administrative UI sends when a chip is
/// selected or deselected.
#[derive(Debug, Clone)]
pub struct PermissionUpdate {
    pub lapp_name: String,
    pub permission: Permission,
    pub allow: bool,
}

impl PermissionUpdate {
    /// Parse a chip identifier `<name>--<permission>` together with
    /// the selection flag.  Yields nothing when the identifier has
    /// no separator or its permission segment names no permission.
    pub fn try_from_chip_selection(chip_id: &String, selected: bool) -> (r: Option<
        PermissionUpdate,
    >)
        ensures
            match chip_parts(chip_id@) {
                None => r is None,
                Some(parts) => match Permission::from_text(parts.1) {
                    None => r is None,
                    Some(p) => (r matches Some(u) && u.lapp_name@ == parts.0 && u.permission == p
                        && u.allow == selected),
                },
            },
    {
        let s = chip_id.as_str();
        let n = s.unicode_len();
        let first = match find_separator(s, 0) {
            Some(i) => i,
            None => {
                return None;
            },
        };
        let end = match find_separator(s, first + 2) {
            Some(j) => j,
            None => n,
        };
        let name = s.substring_char(0, first).to_owned();
        let segment = s.substring_char(first + 2, end).to_owned();
        match Permission::try_from_str(&segment) {
            Some(permission) => Some(PermissionUpdate { lapp_name: name, permission, allow: selected }),
            None => None,
        }
    }
}

/// Scan for the first `--` at or after `from`.
fn find_separator(s: &str, from: usize) -> (r: Option<usize>)
    requires
        from <= s@.len(),
    ensures
        match r {
            Some(i) => {
                &&& from <= i
                &&& i + 2 <= s@.len()
                &&& first_sep_from(s@, from as int) == Some(i as int)
            },
            None => first_sep_from(s@, from as int) is None,
        },
{
    let n = s.unicode_len();
    let mut i: usize = from;
    while n >= 2 && i <= n - 2
        invariant
            from <= i,
            i <= n,
            n == s@.len(),
            first_sep_from(s@, from as int) == first_sep_from(s@, i as int),
        decreases n - i,
    {
        if s.get_char(i) == '-' && s.get_char(i + 1) == '-' {
            proof {
                assert(sep_at(s@, i as int));
            }
            return Some(i);
        }
        proof {
            assert(!sep_at(s@, i as int));
        }
        i += 1;
    }
    None
}

} // verus!
