use dss_applet::ip::extract_ip;
use dss_applet::status::status_reports_healthy;
use dss_applet::url::{
    make_url, notebook_handle, query_args, resolve_service_url, tracker_handle, ShellError,
};

#[test]
fn quote_stripping_verbatim() {
    assert_eq!(extract_ip(b"\"10.0.0.5\""), b"10.0.0.5".to_vec());
    assert_eq!(extract_ip(b"  \"10.0.0.6\"\n"), b"10.0.0.6".to_vec());
    assert_eq!(extract_ip(b"\t\r\n \"1.2.3.4\" \t\r\n"), b"1.2.3.4".to_vec());
}

#[test]
fn extract_without_quotes() {
    assert_eq!(extract_ip(b"10.1.2.3\n"), b"10.1.2.3".to_vec());
    assert_eq!(extract_ip(b"10.1.2.3"), b"10.1.2.3".to_vec());
}

#[test]
fn extract_degenerate_inputs() {
    assert_eq!(extract_ip(b""), b"".to_vec());
    assert_eq!(extract_ip(b"   \n"), b"".to_vec());
    assert_eq!(extract_ip(b"\"\""), b"".to_vec());
    assert_eq!(extract_ip(b" \"\" "), b"".to_vec());
    assert_eq!(extract_ip(b"\"\"\"x\"\"\""), b"x".to_vec());
}

#[test]
fn inner_whitespace_is_kept() {
    assert_eq!(extract_ip(b"\" 10.0.0.5\""), b" 10.0.0.5".to_vec());
    assert_eq!(extract_ip(b"a b"), b"a b".to_vec());
}

#[test]
fn url_composition() {
    assert_eq!(make_url(b"10.0.0.5"), b"http://10.0.0.5".to_vec());
    let u = make_url(b"10.152.183.20");
    assert!(u.starts_with(b"http://"));
    assert_eq!(&u[7..], b"10.152.183.20");
    assert_eq!(make_url(b""), b"http://".to_vec());
}

#[test]
fn open_tracker_from_query_output() {
    let url = resolve_service_url(b"\"10.0.0.5\"").unwrap();
    assert_eq!(url, b"http://10.0.0.5".to_vec());
}

#[test]
fn open_notebook_with_whitespace_wrapped_ip() {
    let url = resolve_service_url(b"  \"10.0.0.6\"\n").unwrap();
    assert_eq!(url, b"http://10.0.0.6".to_vec());
}

#[test]
fn empty_query_output_is_an_error() {
    assert_eq!(resolve_service_url(b""), Err(ShellError::EmptyOutput));
}

#[test]
fn empty_address_gives_bare_prefix() {
    assert_eq!(resolve_service_url(b"\"\"\n").unwrap(), b"http://".to_vec());
}

#[test]
fn service_handles_and_query() {
    let tracker = tracker_handle();
    assert_eq!(tracker.namespace, "dss");
    assert_eq!(tracker.name, "mlflow");
    let notebook = notebook_handle();
    assert_eq!(notebook.namespace, "dss");
    assert_eq!(notebook.name, "user-notebook-tensorflow");

    let args = query_args(&tracker);
    assert_eq!(
        args,
        vec!["get", "svc", "-n", "dss", "-o", "jsonpath={.spec.clusterIP}", "mlflow"]
    );
}

#[test]
fn status_healthy_outputs() {
    assert!(status_reports_healthy(b"microk8s is running\n"));
    assert!(status_reports_healthy(b"microk8s is running"));
    assert!(status_reports_healthy(b"addons:\n  dns: not enabled\n"));
}

#[test]
fn status_unhealthy_outputs() {
    assert!(!status_reports_healthy(b""));
    assert!(!status_reports_healthy(b"microk8s is not running\n"));
    assert!(!status_reports_healthy(b"not\n"));
    assert!(!status_reports_healthy(
        b"microk8s is not running\ntry again: not ready\n"
    ));
}

#[test]
fn status_counts_whole_lines_not_fragments() {
    assert!(!status_reports_healthy(b"nothing yet\n"));
    assert!(status_reports_healthy(b"microk8s is not running\n\n"));
    assert!(!status_reports_healthy(b"not a\nnote\nknots\n"));
    assert!(status_reports_healthy(b"n\not quite\n"));
}
