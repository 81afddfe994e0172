use dapla::api::UpdateQuery;
use dapla::error::ServerError;
use dapla::lapp::{Lapp, LappInstance, ServiceSender};
use dapla::memory::ModuleMemory;
use dapla::permission::Permission;

fn loaded_lapp(name: &str) -> Lapp {
    let mut lapp = Lapp::new(name.to_string(), format!("/lapps/{name}"));
    let plan = lapp.import_plan();
    lapp.install_instance(LappInstance {
        plan,
        memory: ModuleMemory::new(64),
    });
    lapp
}

#[test]
fn dispatch_on_unloaded_lapp_is_not_loaded_even_when_disabled() {
    let mut lapp = Lapp::new("calc".to_string(), "/lapps/calc".to_string());
    assert!(!lapp.enabled());
    let err = lapp.process_http(&vec![1, 2, 3], &Vec::new()).unwrap_err();
    assert_eq!(err, ServerError::LappNotLoaded("calc".to_string()));
}

#[test]
fn dispatch_on_unloaded_lapp_is_not_loaded_even_when_enabled_and_denied() {
    let mut lapp = Lapp::new("calc".to_string(), "/lapps/calc".to_string());
    lapp.set_enabled(true);
    let err = lapp
        .process_http(&vec![0], &vec![Permission::Database])
        .unwrap_err();
    assert_eq!(err, ServerError::LappNotLoaded("calc".to_string()));
}

#[test]
fn disabling_a_loaded_lapp_keeps_the_instance() {
    let mut lapp = loaded_lapp("chat");
    lapp.set_enabled(true);
    lapp.set_enabled(false);
    assert!(lapp.is_loaded());
    let err = lapp.process_http(&vec![1], &Vec::new()).unwrap_err();
    assert_eq!(err, ServerError::LappNotEnabled("chat".to_string()));
}

#[test]
fn dispatch_names_the_first_missing_permission() {
    let mut lapp = loaded_lapp("calc");
    lapp.set_enabled(true);
    let err = lapp
        .process_http(&vec![1], &vec![Permission::Database, Permission::Http])
        .unwrap_err();
    assert_eq!(
        err,
        ServerError::LappPermissionDenied("calc".to_string(), Permission::Database)
    );
}

#[test]
fn dispatch_round_trip_through_the_instance_memory() {
    let mut lapp = loaded_lapp("echo");
    lapp.set_enabled(true);
    let payload = vec![4, 5, 6];
    let w = lapp.process_http(&payload, &Vec::new()).unwrap();
    assert_eq!(lapp.read_http_response(w).unwrap(), payload);
}

#[test]
fn read_response_on_unloaded_lapp_is_not_loaded() {
    let lapp = Lapp::new("calc".to_string(), "/lapps/calc".to_string());
    let err = lapp.read_http_response(0).unwrap_err();
    assert_eq!(err, ServerError::LappNotLoaded("calc".to_string()));
}

#[test]
fn two_service_requests_share_one_endpoint() {
    let mut lapp = loaded_lapp("chat");
    let (first, spawned_first) = lapp.run_service_if_needed(ServiceSender { channel: 1 });
    let (second, spawned_second) = lapp.run_service_if_needed(ServiceSender { channel: 2 });
    assert!(spawned_first);
    assert!(!spawned_second);
    assert_eq!(first, second);
    assert_eq!(first.channel, 1);
}

#[test]
fn stopping_a_service_that_never_ran_is_a_no_op() {
    let mut lapp = Lapp::new("idle".to_string(), "/lapps/idle".to_string());
    assert_eq!(lapp.service_stop(), None);
}

#[test]
fn unload_drops_the_instance_and_hands_back_the_endpoint() {
    let mut lapp = loaded_lapp("chat");
    let (sender, _) = lapp.run_service_if_needed(ServiceSender { channel: 7 });
    let to_stop = lapp.unload();
    assert_eq!(to_stop, Some(sender));
    assert!(!lapp.is_loaded());
    assert_eq!(lapp.service_sender(), None);
}

#[test]
fn update_reports_exactly_what_changed() {
    let mut lapp = Lapp::new("calc".to_string(), "/lapps/calc".to_string());
    lapp.settings.permissions.required = vec![Permission::FileRead, Permission::Database];

    let query = UpdateQuery::new("calc".to_string())
        .enabled(true)
        .update_permission(Permission::Database, true);
    let reply = lapp.update(query);
    assert_eq!(reply.enabled, Some(true));
    assert_eq!(reply.allow_permission, Some(Permission::Database));
    assert_eq!(reply.deny_permission, None);
    assert!(lapp.enabled());
    assert!(lapp.is_allowed_permission(Permission::Database));

    let again = UpdateQuery::new("calc".to_string()).enabled(true);
    let reply = lapp.update(again);
    assert_eq!(reply.enabled, None);

    let unrequested = UpdateQuery::new("calc".to_string()).update_permission(Permission::Http, true);
    let reply = lapp.update(unrequested);
    assert_eq!(reply.allow_permission, None);
    assert!(!lapp.is_allowed_permission(Permission::Http));
}

#[test]
fn lapp_paths_follow_the_root_directory() {
    let mut lapp = Lapp::new("calc".to_string(), "/lapps/calc".to_string());
    assert_eq!(lapp.static_dir(), "/lapps/calc/static");
    assert_eq!(lapp.index_file(), "/lapps/calc/static/index.html");
    assert_eq!(lapp.server_module_file(), "/lapps/calc/calc_server.wasm");
    assert_eq!(lapp.data_dir(), "/lapps/calc/data");

    lapp.settings.database.path = "data/calc.db".to_string();
    assert_eq!(lapp.get_database_path(), "/lapps/calc/data/calc.db");
    lapp.settings.database.path = "/var/db/calc.db".to_string();
    assert_eq!(lapp.get_database_path(), "/var/db/calc.db");
}

#[test]
fn main_lapp_names_and_uris() {
    assert_eq!(Lapp::main_name(), "dapla");
    assert_eq!(Lapp::settings_file_name(), "settings.toml");
    assert_eq!(Lapp::main_static_uri(), "/dapla/static");
    assert_eq!(Lapp::main_uri("daps"), "/dapla/daps");
    let main = Lapp::new("dapla".to_string(), "/lapps/dapla".to_string());
    assert!(main.is_main());
    let other = Lapp::new("calc".to_string(), "/lapps/calc".to_string());
    assert!(!other.is_main());
}
