use dapla::error::{BoundaryError, ServerError};
use dapla::lapp::Lapp;
use dapla::loader::{build_import_plan, check_init_outcome, startup_order, StartupExport};
use dapla::permission::Permission;
use dapla::settings::DapSettings;

fn settings_with(required: Vec<Permission>, allowed: Vec<Permission>) -> DapSettings {
    let mut settings = DapSettings::default();
    settings.permissions.required = required;
    settings.permissions.allowed = allowed;
    settings
}

#[test]
fn database_only_lapp_gets_db_functions_and_nothing_else() {
    let settings = settings_with(vec![Permission::Database], vec![Permission::Database]);
    let plan = build_import_plan(&settings);
    assert!(plan.database);
    assert!(plan.wasi_fs.is_none());
    assert!(!plan.http);
    assert!(!plan.sleep);
}

#[test]
fn denied_database_is_absent_on_the_next_load() {
    // A lapp that requires file reading and database access, whose
    // administrator then denies the database.
    let mut lapp = Lapp::new("calc".to_string(), "/lapps/calc".to_string());
    lapp.settings.permissions.required = vec![Permission::FileRead, Permission::Database];
    assert!(lapp.allow_permission(Permission::FileRead));
    assert!(lapp.allow_permission(Permission::Database));
    assert!(lapp.deny_permission(Permission::Database));

    let plan = lapp.import_plan();
    assert!(!plan.database);
    let fs = plan.wasi_fs.unwrap();
    assert!(fs.read);
    assert!(!fs.write);
    assert!(!fs.create);
}

#[test]
fn file_view_exists_iff_a_file_permission_is_required() {
    let none = build_import_plan(&settings_with(vec![Permission::Http], vec![]));
    assert!(none.wasi_fs.is_none());

    let read_only = build_import_plan(&settings_with(
        vec![Permission::FileRead, Permission::FileWrite],
        vec![Permission::FileRead],
    ));
    let fs = read_only.wasi_fs.unwrap();
    assert!(fs.read && !fs.write && !fs.create);

    // Required but not granted: the view exists with no access.
    let no_grant = build_import_plan(&settings_with(vec![Permission::FileWrite], vec![]));
    let fs = no_grant.wasi_fs.unwrap();
    assert!(!fs.read && !fs.write && !fs.create);
}

#[test]
fn host_functions_follow_granted_not_required() {
    let settings = settings_with(
        vec![Permission::Http, Permission::Sleep],
        vec![Permission::Sleep],
    );
    let plan = build_import_plan(&settings);
    assert!(!plan.http);
    assert!(plan.sleep);
}

#[test]
fn data_dir_is_created_only_when_a_file_permission_is_granted() {
    let mut lapp = Lapp::new("calc".to_string(), "/lapps/calc".to_string());
    lapp.settings.permissions.required = vec![Permission::FileRead, Permission::FileWrite];
    // Nothing granted yet: the directory is never created.
    assert!(!lapp.needs_data_dir(false));
    assert!(!lapp.needs_data_dir(true));

    assert!(lapp.allow_permission(Permission::FileRead));
    assert!(lapp.needs_data_dir(false));
    // An existing directory is left alone.
    assert!(!lapp.needs_data_dir(true));
}

#[test]
fn startup_exports_run_in_the_documented_order() {
    let order = startup_order();
    assert_eq!(
        order,
        vec![
            StartupExport::Initialize,
            StartupExport::Start,
            StartupExport::Init
        ]
    );
    assert_eq!(StartupExport::Initialize.export_name(), "_initialize");
    assert_eq!(StartupExport::Start.export_name(), "_start");
    assert_eq!(StartupExport::Init.export_name(), "init");
}

#[test]
fn init_success_value_is_accepted() {
    let bytes = borsh::to_vec(&Ok::<(), String>(())).unwrap();
    assert_eq!(bytes, vec![1]);
    assert!(check_init_outcome(&bytes).is_ok());
}

#[test]
fn init_failure_text_is_the_module_error() {
    let bytes = borsh::to_vec(&Err::<(), String>("boom".to_string())).unwrap();
    let err = check_init_outcome(&bytes).unwrap_err();
    assert_eq!(err, ServerError::LappInitError("boom".to_string()));
}

#[test]
fn init_garbage_is_a_decode_failure() {
    let err = check_init_outcome(&vec![7, 7, 7]).unwrap_err();
    assert_eq!(err, ServerError::Boundary(BoundaryError::DecodeFailed));
    let err = check_init_outcome(&Vec::new()).unwrap_err();
    assert_eq!(err, ServerError::Boundary(BoundaryError::DecodeFailed));
    // A success tag followed by trailing bytes is not consumed fully.
    let err = check_init_outcome(&vec![1, 0]).unwrap_err();
    assert_eq!(err, ServerError::Boundary(BoundaryError::DecodeFailed));
}
