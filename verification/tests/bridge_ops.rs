use smart_stock_insider::commands::{
    check_for_updates, get_app_info, get_system_info, minimize_to_tray, open_url_outcome,
    show_in_folder_outcome, show_notification,
};

#[test]
fn get_app_info_never_fails() {
    let info = get_app_info().unwrap();
    assert_eq!(info.name, "智股通");
    assert_eq!(info.version, "0.1.0");
    assert_eq!(info.description, "基于AI的桌面投资研究平台");
}

#[test]
fn get_system_info_never_fails() {
    let si = get_system_info("linux".to_string(), "x86_64".to_string()).unwrap();
    assert_eq!(si.os, "linux");
    assert_eq!(si.arch, "x86_64");
    assert_eq!(si.memory, "Unknown");
}

#[test]
fn check_for_updates_reports_none() {
    assert_eq!(check_for_updates(), Ok(false));
}

#[test]
fn show_notification_always_succeeds() {
    assert_eq!(show_notification("title".to_string(), "body".to_string()), Ok(()));
}

#[test]
fn open_url_outcome_reduces_spawn_result() {
    assert_eq!(open_url_outcome(None), Ok(()));
    assert_eq!(
        open_url_outcome(Some("permission denied".to_string())),
        Err("Failed to open URL: permission denied".to_string())
    );
}

#[test]
fn show_in_folder_outcome_reduces_spawn_result() {
    assert_eq!(show_in_folder_outcome(None), Ok(()));
    assert_eq!(
        show_in_folder_outcome(Some("no such file".to_string())),
        Err("Failed to show in folder: no such file".to_string())
    );
}

#[test]
fn minimize_to_tray_reduces_host_answer() {
    assert_eq!(minimize_to_tray(None), Ok(()));
    assert_eq!(
        minimize_to_tray(Some("window gone".to_string())),
        Err("Failed to minimize window: window gone".to_string())
    );
}
