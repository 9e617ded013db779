use dss_applet::control::{Controller, ToggleAction};
use dss_applet::status::status_reports_healthy;
use dss_applet::view::{
    icon_name, notebook_menu_label, toggle_label_text, tracker_menu_label, view_for, IconId,
    ToggleLabel,
};

#[test]
fn view_state_coherence_concrete() {
    let up = view_for(true);
    assert_eq!(up.icon, IconId::Running);
    assert_eq!(up.toggle_label, ToggleLabel::Stop);
    assert!(up.services_visible);

    let down = view_for(false);
    assert_eq!(down.icon, IconId::Stopped);
    assert_eq!(down.toggle_label, ToggleLabel::Start);
    assert!(!down.services_visible);
}

#[test]
fn toggle_changes_state_only_on_success() {
    let mut c = Controller::new(false);
    c.apply_toggle_result(false);
    assert!(!c.is_running());
    c.apply_toggle_result(true);
    assert!(c.is_running());
    c.apply_toggle_result(false);
    assert!(c.is_running());
    c.apply_toggle_result(true);
    assert!(!c.is_running());
}

#[test]
fn icon_and_label_names() {
    assert_eq!(icon_name(IconId::Status), "dss-status");
    assert_eq!(icon_name(IconId::Running), "dss-running");
    assert_eq!(icon_name(IconId::Stopped), "dss-stopped");
    assert_eq!(toggle_label_text(ToggleLabel::Start), "Start");
    assert_eq!(toggle_label_text(ToggleLabel::Stop), "Stop");
    assert_eq!(tracker_menu_label(), "MLFlow");
    assert_eq!(notebook_menu_label(), "Notebook");
}

#[test]
fn cold_start_cluster_already_up() {
    let healthy = status_reports_healthy(b"microk8s is running\n");
    assert!(healthy);
    let c = Controller::new(healthy);
    assert!(c.is_running());
    let v = c.current_view();
    assert_eq!(v.icon, IconId::Running);
    assert_eq!(v.toggle_label, ToggleLabel::Stop);
    assert!(v.services_visible);
}

#[test]
fn cold_start_cluster_down() {
    let healthy = status_reports_healthy(b"microk8s is not running\n");
    assert!(!healthy);
    let c = Controller::new(healthy);
    assert!(!c.is_running());
    let v = c.current_view();
    assert_eq!(v.icon, IconId::Stopped);
    assert_eq!(v.toggle_label, ToggleLabel::Start);
    assert!(!v.services_visible);
}

#[test]
fn start_succeeds() {
    let mut c = Controller::new(false);
    assert_eq!(c.toggle_action(), ToggleAction::Start);
    let t = c.transitional_view();
    assert_eq!(t.icon, IconId::Status);
    let v = c.apply_toggle_result(true);
    assert!(c.is_running());
    assert_eq!(v.icon, IconId::Running);
    assert_eq!(v.toggle_label, ToggleLabel::Stop);
    assert!(v.services_visible);
}

#[test]
fn stop_fails() {
    let mut c = Controller::new(true);
    assert_eq!(c.toggle_action(), ToggleAction::Stop);
    let t = c.transitional_view();
    assert_eq!(t.icon, IconId::Status);
    assert_eq!(t.toggle_label, ToggleLabel::Stop);
    assert!(t.services_visible);
    let v = c.apply_toggle_result(false);
    assert!(c.is_running());
    assert_eq!(v.icon, IconId::Running);
    assert_eq!(v.toggle_label, ToggleLabel::Stop);
    assert!(v.services_visible);
}

#[test]
fn transitional_view_keeps_label_and_visibility() {
    let c = Controller::new(false);
    let t = c.transitional_view();
    assert_eq!(t.icon, IconId::Status);
    assert_eq!(t.toggle_label, ToggleLabel::Start);
    assert!(!t.services_visible);
}
