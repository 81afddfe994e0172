use dapla::permission::Permission;
use dapla::settings::{DapSettings, PermissionsSettings};

fn declaration(required: Vec<Permission>) -> PermissionsSettings {
    PermissionsSettings {
        required,
        allowed: Vec::new(),
    }
}

#[test]
fn allow_requested_permission_changes_the_set() {
    let mut ps = declaration(vec![Permission::Database, Permission::Http]);
    assert!(ps.allow(Permission::Database));
    assert!(ps.is_allowed(Permission::Database));
    assert!(!ps.is_allowed(Permission::Http));
}

#[test]
fn allow_unrequested_permission_is_no_change() {
    let mut ps = declaration(vec![Permission::Database]);
    assert!(!ps.allow(Permission::Http));
    assert!(!ps.is_allowed(Permission::Http));
    assert!(ps.allowed.is_empty());
}

#[test]
fn allow_twice_reports_no_change_the_second_time() {
    let mut ps = declaration(vec![Permission::Sleep]);
    assert!(ps.allow(Permission::Sleep));
    assert!(!ps.allow(Permission::Sleep));
    assert_eq!(ps.allowed.len(), 1);
}

#[test]
fn deny_removes_only_the_denied_permission() {
    let mut ps = declaration(vec![Permission::FileRead, Permission::Database]);
    assert!(ps.allow(Permission::FileRead));
    assert!(ps.allow(Permission::Database));
    assert!(ps.deny(Permission::FileRead));
    assert!(!ps.is_allowed(Permission::FileRead));
    assert!(ps.is_allowed(Permission::Database));
}

#[test]
fn deny_unallowed_permission_is_no_change() {
    let mut ps = declaration(vec![Permission::FileRead]);
    assert!(!ps.deny(Permission::FileRead));
    assert!(!ps.deny(Permission::Http));
}

#[test]
fn allowed_stays_inside_required() {
    let mut ps = declaration(vec![Permission::FileRead, Permission::FileWrite]);
    assert!(ps.allow(Permission::FileRead));
    assert!(!ps.allow(Permission::Database));
    assert!(!ps.allow(Permission::Sleep));
    for p in &ps.allowed {
        assert!(ps.required.contains(p));
    }
    assert_eq!(ps.allowed, vec![Permission::FileRead]);
}

#[test]
fn permission_text_round_trip() {
    let all = [
        Permission::FileRead,
        Permission::FileWrite,
        Permission::Database,
        Permission::Http,
        Permission::Sleep,
    ];
    for p in all {
        let text = p.as_str().to_string();
        assert_eq!(Permission::try_from_str(&text), Some(p));
    }
    assert_eq!(Permission::as_str(&Permission::FileRead), "file_read");
    assert_eq!(Permission::try_from_str(&String::from("gossip")), None);
}

#[test]
fn default_settings_are_disabled_and_empty() {
    let settings = DapSettings::default();
    assert!(!settings.application.enabled);
    assert!(settings.permissions.required.is_empty());
    assert!(settings.permissions.allowed.is_empty());
    assert_eq!(settings.database.path, String::new());
}
