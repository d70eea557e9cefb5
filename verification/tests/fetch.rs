use kube_tui::app::AppState;
use kube_tui::fetch::{FetchPayload, FetchRequest, LOG_TAIL_LINES};
use kube_tui::kubectl::types::{Namespace, Pod, PodStatus, ResourceMetrics, Service};
use kube_tui::mode::{AppMode, ResourceKind};
use kube_tui::refresh::RefreshClass;

fn fetched_pod(name: &str) -> Pod {
    Pod {
        name: name.to_string(),
        namespace: "default".to_string(),
        status: PodStatus { phase: "Running".to_string(), conditions: None, container_statuses: None },
        ready: "1/1".to_string(),
        restarts: 0,
        age: "1d".to_string(),
        node: None,
        ip: None,
    }
}

fn in_pod_list(names: &[&str]) -> AppState {
    let mut app = AppState::new(0);
    app.current_namespace = "default".to_string();
    app.resources.pods.replace(names.iter().map(|n| fetched_pod(n)).collect());
    app.modes.jump(AppMode::PodList);
    app
}

fn list_request(kind: ResourceKind, namespace: &str) -> FetchRequest {
    FetchRequest::List { kind, namespace: namespace.to_string() }
}

#[test]
fn empty_list_is_due_after_input_but_not_on_a_tick() {
    let app = in_pod_list(&[]);
    assert!(app.next_fetch(100, false).is_none());
    match app.next_fetch(100, true) {
        Some(FetchRequest::List { kind, namespace }) => {
            assert_eq!(kind, ResourceKind::Pod);
            assert_eq!(namespace, "default");
        }
        other => panic!("unexpected request: {:?}", other),
    }
}

#[test]
fn filled_list_is_due_when_the_interval_has_passed() {
    let app = in_pod_list(&["a"]);
    assert!(app.next_fetch(4_999, true).is_none());
    assert!(app.next_fetch(4_999, false).is_none());
    assert!(matches!(app.next_fetch(5_000, false), Some(FetchRequest::List { kind: ResourceKind::Pod, .. })));
}

#[test]
fn disabled_refresh_fetches_only_missing_data() {
    let mut app = in_pod_list(&["a"]);
    app.refresh.toggle(RefreshClass::General);
    assert!(app.next_fetch(1_000_000, false).is_none());
    assert!(app.next_fetch(1_000_000, true).is_none());
    app.resources.pods.clear();
    assert!(app.next_fetch(1_000_000, true).is_some());
}

#[test]
fn detail_views_ask_for_the_selected_item() {
    let mut app = in_pod_list(&["a", "b"]);
    app.resources.pods.select(1);
    app.enter_overlay_or_detail(AppMode::Describe);
    match app.next_fetch(0, true) {
        Some(FetchRequest::Describe { kind, namespace, name }) => {
            assert_eq!((kind, namespace.as_str(), name.as_str()), (ResourceKind::Pod, "default", "b"));
        }
        other => panic!("unexpected request: {:?}", other),
    }
    // The description does not refresh itself unless switched on.
    assert!(app.next_fetch(60_000, false).is_none());
    app.toggle_refresh(RefreshClass::Describe);
    assert!(app.next_fetch(60_000, false).is_some());

    app.return_to_previous();
    app.enter_overlay_or_detail(AppMode::YamlView);
    assert!(matches!(app.next_fetch(0, true), Some(FetchRequest::Manifest { kind: ResourceKind::Pod, .. })));
    app.set_yaml_content("kind: Pod".to_string());
    assert!(app.next_fetch(0, true).is_none());

    app.return_to_previous();
    app.enter_overlay_or_detail(AppMode::Logs);
    match app.next_fetch(0, true) {
        Some(FetchRequest::Logs { namespace, pod, tail_lines }) => {
            assert_eq!((namespace.as_str(), pod.as_str(), tail_lines), ("default", "b", 100));
            assert_eq!(LOG_TAIL_LINES, 100);
        }
        other => panic!("unexpected request: {:?}", other),
    }
    app.set_logs(vec!["line".to_string()]);
    assert!(app.next_fetch(1_999, true).is_none());
    assert!(app.next_fetch(2_000, false).is_some());

    app.return_to_previous();
    app.enter_overlay_or_detail(AppMode::TopView);
    assert!(matches!(app.next_fetch(0, true), Some(FetchRequest::Metrics { .. })));
}

#[test]
fn overlays_and_menus_fetch_nothing() {
    for mode in [AppMode::Search, AppMode::Confirm, AppMode::Help, AppMode::MoreResources] {
        let mut app = in_pod_list(&[]);
        app.modes.enter_overlay_or_detail(mode);
        assert!(app.next_fetch(1_000_000, true).is_none());
    }
}

#[test]
fn detail_view_without_a_subject_fetches_nothing() {
    let mut app = in_pod_list(&[]);
    app.enter_overlay_or_detail(AppMode::Describe);
    assert!(app.next_fetch(0, true).is_none());
    app.modes.jump(AppMode::Logs);
    assert!(app.next_fetch(0, true).is_none());
}

#[test]
fn fetched_items_replace_the_collection_and_restart_the_timer() {
    let mut app = in_pod_list(&["a", "b", "c"]);
    app.resources.pods.select(2);
    let request = list_request(ResourceKind::Pod, "default");
    assert!(app.apply_fetch(&request, Some(FetchPayload::Pods(vec![fetched_pod("x"), fetched_pod("y"), fetched_pod("z")])), 7_000));
    assert_eq!(app.get_selected_pod().unwrap().name, "z");
    assert_eq!(app.refresh.general.last_fetch, 7_000);
    assert_eq!(app.refresh.logs.last_fetch, 0);
    // A change of length resets the selection.
    assert!(app.apply_fetch(&request, Some(FetchPayload::Pods(vec![fetched_pod("x")])), 8_000));
    assert_eq!(app.resources.pods.selected_index(), 0);
}

#[test]
fn failed_fetch_keeps_what_was_shown() {
    let mut app = in_pod_list(&["a", "b"]);
    app.resources.pods.select(1);
    let request = list_request(ResourceKind::Pod, "default");
    assert!(app.apply_fetch(&request, None, 9_000));
    assert_eq!(app.resources.pods.len(), 2);
    assert_eq!(app.resources.pods.selected_index(), 1);
    assert_eq!(app.refresh.general.last_fetch, 9_000);
    assert!(app.next_fetch(9_001, false).is_none());
    assert!(app.next_fetch(14_000, false).is_some());
}

#[test]
fn answer_for_another_namespace_is_dropped() {
    let mut app = in_pod_list(&["a"]);
    let stale = list_request(ResourceKind::Pod, "other");
    assert!(!app.is_relevant(&stale));
    assert!(!app.apply_fetch(&stale, Some(FetchPayload::Pods(Vec::new())), 9_000));
    assert_eq!(app.resources.pods.len(), 1);
    assert_eq!(app.refresh.general.last_fetch, 0);
    // Kinds outside namespaces are relevant whatever the namespace.
    let nodes = list_request(ResourceKind::Node, "other");
    assert!(app.is_relevant(&nodes));
}

#[test]
fn answer_for_a_view_that_was_left_is_dropped() {
    let mut app = in_pod_list(&["a", "b"]);
    app.enter_overlay_or_detail(AppMode::Describe);
    let request = app.next_fetch(0, true).unwrap();
    assert!(app.is_relevant(&request));
    app.return_to_previous();
    assert!(!app.apply_fetch(&request, Some(FetchPayload::Text("stale".to_string())), 1));
    assert_eq!(app.describe_content, "");
    // Back in the view, but for another pod: still not relevant.
    app.resources.pods.select(1);
    app.enter_overlay_or_detail(AppMode::Describe);
    assert!(!app.is_relevant(&request));
    let fresh = app.next_fetch(0, true).unwrap();
    assert!(app.apply_fetch(&fresh, Some(FetchPayload::Text("Name: b\nStatus: ok".to_string())), 2));
    assert_eq!(app.describe_content, "Name: b\nStatus: ok");
    assert_eq!(app.scroll.describe.content_length(), 2);
    assert_eq!(app.refresh.describe.last_fetch, 2);
}

#[test]
fn payload_of_the_wrong_sort_changes_no_data() {
    let mut app = in_pod_list(&["a"]);
    let request = list_request(ResourceKind::Pod, "default");
    let services = vec![Service {
        name: "s".to_string(),
        namespace: "default".to_string(),
        type_: "ClusterIP".to_string(),
        cluster_ip: "None".to_string(),
        external_ip: None,
        ports: Vec::new(),
        age: "1d".to_string(),
    }];
    assert!(app.apply_fetch(&request, Some(FetchPayload::Services(services)), 3));
    assert_eq!(app.resources.pods.len(), 1);
    assert_eq!(app.resources.services.len(), 0);
    assert!(app.apply_fetch(&request, Some(FetchPayload::Text("x".to_string())), 4));
    assert_eq!(app.resources.pods.len(), 1);
}

#[test]
fn logs_follow_their_content_while_auto_follow_is_on() {
    let mut app = in_pod_list(&["a"]);
    app.handle_resize(19);
    app.enter_overlay_or_detail(AppMode::Logs);
    let request = app.next_fetch(0, true).unwrap();
    let lines: Vec<String> = (0..25).map(|i| format!("line {}", i)).collect();
    assert!(app.apply_fetch(&request, Some(FetchPayload::Lines(lines)), 100));
    assert_eq!(app.logs.len(), 25);
    assert_eq!(app.scroll.logs.offset(), 15);
    assert_eq!(app.refresh.logs.last_fetch, 100);
}

#[test]
fn metrics_are_applied_in_the_metrics_view() {
    let mut app = in_pod_list(&["a"]);
    app.enter_overlay_or_detail(AppMode::TopView);
    let request = app.next_fetch(0, true).unwrap();
    let metrics = vec![ResourceMetrics {
        name: "a".to_string(),
        namespace: "default".to_string(),
        cpu: "12m".to_string(),
        memory: "34Mi".to_string(),
        containers: Vec::new(),
    }];
    assert!(app.apply_fetch(&request, Some(FetchPayload::Metrics(metrics)), 5));
    assert_eq!(app.pod_metrics.len(), 1);
    assert_eq!(app.scroll.metrics.content_length(), 1);
}

#[test]
fn requests_know_their_class_and_arguments() {
    let list = list_request(ResourceKind::Secret, "ns");
    assert_eq!(list.class(), RefreshClass::General);
    assert_eq!(list.arguments(), vec!["get", "secrets", "-n", "ns", "-o", "json"]);
    let describe = FetchRequest::Describe { kind: ResourceKind::Node, namespace: "ns".to_string(), name: "n1".to_string() };
    assert_eq!(describe.class(), RefreshClass::Describe);
    assert_eq!(describe.arguments(), vec!["describe", "node", "n1"]);
    let manifest = FetchRequest::Manifest { kind: ResourceKind::Job, namespace: "ns".to_string(), name: "j".to_string() };
    assert_eq!(manifest.class(), RefreshClass::Yaml);
    assert_eq!(manifest.arguments(), vec!["get", "job", "-n", "ns", "j", "-o", "yaml"]);
    let logs = FetchRequest::Logs { namespace: "ns".to_string(), pod: "p".to_string(), tail_lines: 100 };
    assert_eq!(logs.class(), RefreshClass::Logs);
    assert_eq!(logs.arguments(), vec!["logs", "-n", "ns", "p", "--tail", "100"]);
    let metrics = FetchRequest::Metrics { namespace: "ns".to_string() };
    assert_eq!(metrics.class(), RefreshClass::General);
    assert_eq!(metrics.arguments(), vec!["top", "pods", "-n", "ns", "--no-headers"]);
}

#[test]
fn initial_namespaces_make_the_first_one_current() {
    let mut app = AppState::new(0);
    app.load_initial_data(Vec::new());
    assert_eq!(app.current_namespace, "");
    let names = ["default", "kube-system"];
    app.load_initial_data(
        names
            .iter()
            .map(|n| Namespace { name: n.to_string(), status: "Active".to_string(), age: "Unknown".to_string() })
            .collect(),
    );
    assert_eq!(app.current_namespace, "default");
    assert_eq!(app.resources.namespaces.len(), 2);
}

#[test]
fn leaving_a_shell_shows_the_pod_list_again() {
    let mut app = in_pod_list(&["a"]);
    app.enter_overlay_or_detail(AppMode::Logs);
    app.set_logs(vec!["x".to_string()]);
    app.describe_content = "old".to_string();
    app.finish_exec();
    assert_eq!((app.modes.current, app.modes.previous), (AppMode::PodList, AppMode::PodList));
    assert!(app.logs.is_empty());
    assert_eq!(app.describe_content, "");
}
