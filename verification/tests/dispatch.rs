use kube_tui::app::{AppState, Effect};
use kube_tui::events::{poll_events, Event, KeyCode, KeyEvent, MouseEvent, MouseEventKind, RawEvent};
use kube_tui::kubectl::types::{Namespace, Node, PersistentVolume, Pod, PodStatus, Secret};
use kube_tui::mode::{AppMode, ResourceKind};
use kube_tui::refresh::RefreshClass;
use kube_tui::search::SearchPhase;

fn a_pod(name: &str) -> Pod {
    Pod {
        name: name.to_string(),
        namespace: "default".to_string(),
        status: PodStatus { phase: "Running".to_string(), conditions: None, container_statuses: None },
        ready: "1/1".to_string(),
        restarts: 0,
        age: "1d".to_string(),
        node: None,
        ip: None,
    }
}

fn a_node(name: &str) -> Node {
    Node {
        name: name.to_string(),
        status: "Ready".to_string(),
        roles: vec!["worker".to_string()],
        age: "1d".to_string(),
        version: "v1".to_string(),
        internal_ip: None,
        external_ip: None,
        os_image: None,
        kernel_version: None,
        container_runtime: None,
    }
}

fn with_pods(names: &[&str]) -> AppState {
    let mut app = AppState::new(0);
    app.current_namespace = "default".to_string();
    app.resources.pods.replace(names.iter().map(|n| a_pod(n)).collect());
    app.modes.jump(AppMode::PodList);
    app
}

fn key(app: &mut AppState, code: KeyCode) -> Effect {
    app.handle_key_event(KeyEvent { code }, 20_000)
}

fn ch(app: &mut AppState, c: char) -> Effect {
    key(app, KeyCode::Char(c))
}

#[test]
fn start_state_is_the_namespace_list() {
    let app = AppState::new(5);
    assert_eq!(app.modes.current, AppMode::NamespaceList);
    assert_eq!(app.get_previous_mode(), AppMode::NamespaceList);
    assert!(app.language_chinese);
    assert!(!app.text_selection_mode);
    assert!(!app.should_quit);
    assert!(app.scroll.auto_follow);
    assert!(app.refresh.general.enabled);
    assert!(app.refresh.logs.enabled);
    assert!(!app.refresh.describe.enabled);
    assert!(!app.refresh.yaml.enabled);
    assert_eq!(app.refresh.general.last_fetch, 5);
    assert!(app.confirm.pending.is_none());
    assert_eq!(app.search.phase(), SearchPhase::Idle);
    assert!(app.get_selected_pod().is_none());
    assert_eq!(app.current_namespace, "");
}

#[test]
fn list_keys_move_the_selection_with_saturation() {
    let mut app = with_pods(&["a", "b", "c"]);
    ch(&mut app, 'j');
    key(&mut app, KeyCode::Down);
    key(&mut app, KeyCode::Down);
    assert_eq!(app.resources.pods.selected_index(), 2);
    assert_eq!(app.get_selected_pod().unwrap().name, "c");
    ch(&mut app, 'k');
    key(&mut app, KeyCode::Up);
    key(&mut app, KeyCode::Up);
    assert_eq!(app.resources.pods.selected_index(), 0);
}

#[test]
fn list_keys_on_an_empty_list_do_nothing() {
    let mut app = with_pods(&[]);
    for c in ['j', 'k', ' ', 'y', 'd', 'l', 'e'] {
        assert!(matches!(ch(&mut app, c), Effect::Nothing));
        assert_eq!(app.modes.current, AppMode::PodList);
        assert_eq!(app.resources.pods.selected_index(), 0);
    }
    assert!(app.confirm.pending.is_none());
}

#[test]
fn tab_and_backtab_cycle_through_the_lists() {
    let mut app = with_pods(&["a"]);
    key(&mut app, KeyCode::Tab);
    assert_eq!(app.modes.current, AppMode::ServiceList);
    key(&mut app, KeyCode::Tab);
    key(&mut app, KeyCode::Tab);
    assert_eq!(app.modes.current, AppMode::JobList);
    key(&mut app, KeyCode::BackTab);
    assert_eq!(app.modes.current, AppMode::DeploymentList);
}

#[test]
fn escape_in_a_list_always_leads_to_the_namespace_list() {
    let mut app = with_pods(&["a"]);
    app.modes.previous = AppMode::Help;
    key(&mut app, KeyCode::Tab);
    key(&mut app, KeyCode::Esc);
    assert_eq!(app.modes.current, AppMode::NamespaceList);
    key(&mut app, KeyCode::Esc);
    assert_eq!(app.modes.current, AppMode::NamespaceList);
}

#[test]
fn namespace_list_shortcuts_jump_directly() {
    let targets = [
        ('1', AppMode::PodList),
        ('2', AppMode::ServiceList),
        ('3', AppMode::DeploymentList),
        ('4', AppMode::JobList),
        ('5', AppMode::DaemonSetList),
        ('6', AppMode::ConfigMapList),
        ('7', AppMode::SecretList),
    ];
    for (i, (c, mode)) in targets.iter().enumerate() {
        let mut app = AppState::new(0);
        ch(&mut app, *c);
        assert_eq!(app.modes.current, *mode);
        let mut app = AppState::new(0);
        key(&mut app, KeyCode::F(i as u8 + 1));
        assert_eq!(app.modes.current, *mode);
    }
    let mut app = AppState::new(0);
    key(&mut app, KeyCode::F(8));
    ch(&mut app, '9');
    ch(&mut app, '0');
    assert_eq!(app.modes.current, AppMode::NamespaceList);
    ch(&mut app, '8');
    assert_eq!((app.modes.current, app.modes.previous), (AppMode::MoreResources, AppMode::NamespaceList));
    key(&mut app, KeyCode::Esc);
    assert_eq!(app.modes.current, AppMode::NamespaceList);
    ch(&mut app, '?');
    assert_eq!(app.modes.current, AppMode::Help);
    ch(&mut app, 'x');
    assert_eq!(app.modes.current, AppMode::Help);
    key(&mut app, KeyCode::Esc);
    assert_eq!(app.modes.current, AppMode::NamespaceList);
}

#[test]
fn enter_without_namespaces_changes_nothing() {
    let mut app = AppState::new(0);
    key(&mut app, KeyCode::Enter);
    assert_eq!(app.modes.current, AppMode::NamespaceList);
    assert_eq!(app.current_namespace, "");
    assert!(!app.select_namespace());
}

#[test]
fn enter_resets_all_scroll_offsets() {
    let mut app = AppState::new(0);
    app.resources.namespaces.replace(vec![Namespace {
        name: "default".to_string(),
        status: "Active".to_string(),
        age: "Unknown".to_string(),
    }]);
    app.handle_resize(19);
    app.scroll.toggle_auto_follow();
    app.set_logs((0..50).map(|i| i.to_string()).collect());
    app.set_describe_content("a\nb\nc\nd\ne\nf\ng\nh\ni\nj\nk\nl\nm\nn".to_string());
    app.scroll.page_down(AppMode::Logs);
    app.scroll.scroll_down(AppMode::Describe);
    assert_eq!(app.scroll.logs.offset(), 10);
    assert_eq!(app.scroll.describe.offset(), 1);
    key(&mut app, KeyCode::Enter);
    assert_eq!(app.current_namespace, "default");
    assert_eq!(app.scroll.logs.offset(), 0);
    assert_eq!(app.scroll.describe.offset(), 0);
}

#[test]
fn detail_views_are_entered_from_a_list_and_left_with_escape() {
    for (c, mode) in [(' ', AppMode::Describe), ('y', AppMode::YamlView), ('Y', AppMode::YamlView), ('l', AppMode::Logs), ('L', AppMode::Logs), ('t', AppMode::TopView)] {
        let mut app = with_pods(&["a", "b"]);
        app.logs = vec!["old".to_string()];
        app.describe_content = "old".to_string();
        app.yaml_content = "old".to_string();
        ch(&mut app, c);
        assert_eq!((app.modes.current, app.modes.previous), (mode, AppMode::PodList));
        match mode {
            AppMode::Describe => assert_eq!(app.describe_content, ""),
            AppMode::YamlView => assert_eq!(app.yaml_content, ""),
            AppMode::Logs => assert!(app.logs.is_empty()),
            _ => assert!(app.pod_metrics.is_empty()),
        }
        key(&mut app, KeyCode::Esc);
        assert_eq!(app.modes.current, AppMode::PodList);
    }
}

#[test]
fn only_the_pod_list_has_logs_metrics_and_shell() {
    let mut app = AppState::new(0);
    app.resources.secrets.replace(vec![Secret {
        name: "s".to_string(),
        namespace: "default".to_string(),
        type_: "Opaque".to_string(),
        data_count: 1,
        age: "1d".to_string(),
    }]);
    app.modes.jump(AppMode::SecretList);
    for c in ['l', 't', 'e'] {
        assert!(matches!(ch(&mut app, c), Effect::Nothing));
        assert_eq!(app.modes.current, AppMode::SecretList);
    }
}

#[test]
fn exec_key_asks_for_a_shell_in_the_selected_pod() {
    let mut app = with_pods(&["a", "b"]);
    ch(&mut app, 'j');
    match ch(&mut app, 'e') {
        Effect::Exec { namespace, pod } => {
            assert_eq!(namespace, "default");
            assert_eq!(pod, "b");
        }
        other => panic!("unexpected effect: {:?}", other),
    }
    assert_eq!(app.modes.current, AppMode::PodList);
}

#[test]
fn nodes_offer_no_delete() {
    let mut app = AppState::new(0);
    app.resources.nodes.replace(vec![a_node("n1")]);
    app.modes.jump(AppMode::NodeList);
    ch(&mut app, 'd');
    assert_eq!(app.modes.current, AppMode::NodeList);
    assert!(app.confirm.pending.is_none());
    assert!(!app.request_delete());
}

#[test]
fn deleting_a_volume_requests_without_namespace() {
    let mut app = AppState::new(0);
    app.current_namespace = "default".to_string();
    app.resources.pvs.replace(vec![PersistentVolume {
        name: "disk-1".to_string(),
        capacity: "1Gi".to_string(),
        access_modes: Vec::new(),
        reclaim_policy: "Retain".to_string(),
        status: "Bound".to_string(),
        claim: None,
        storage_class: None,
        age: "1d".to_string(),
    }]);
    app.modes.jump(AppMode::PVList);
    ch(&mut app, 'd');
    let pending = app.confirm.pending.as_ref().unwrap();
    assert_eq!(pending.kind(), ResourceKind::PV);
    assert_eq!(pending.namespace(), None);
    assert_eq!(pending.name(), "disk-1");
    key(&mut app, KeyCode::Esc);
    assert_eq!(app.modes.current, AppMode::PVList);
    assert!(app.confirm.pending.is_none());
}

#[test]
fn search_captures_every_key() {
    let mut app = with_pods(&["alpha", "beta", "delta"]);
    ch(&mut app, '/');
    // These would navigate, delete or quit in the list; here they are typed.
    for c in ['d', 'q', 'j', 'y', 'e', 'i'] {
        assert!(matches!(ch(&mut app, c), Effect::Nothing));
    }
    assert_eq!(app.modes.current, AppMode::Search);
    assert!(!app.should_quit);
    assert!(app.language_chinese);
    assert!(app.confirm.pending.is_none());
    assert_eq!(app.search.query(), &vec!['d', 'q', 'j', 'y', 'e', 'i']);
    key(&mut app, KeyCode::F(1));
    key(&mut app, KeyCode::PageDown);
    assert_eq!(app.modes.current, AppMode::Search);
}

#[test]
fn backspace_recomputes_matches_and_moves_the_selection() {
    let mut app = with_pods(&["alpha", "beta", "delta"]);
    ch(&mut app, '/');
    ch(&mut app, 'e');
    assert_eq!(app.search.matches(), &vec![1, 2]);
    assert_eq!(app.resources.pods.selected_index(), 1);
    ch(&mut app, 'l');
    assert_eq!(app.search.matches(), &vec![2]);
    assert_eq!(app.resources.pods.selected_index(), 2);
    ch(&mut app, 'x');
    assert!(app.search.matches().is_empty());
    assert_eq!(app.resources.pods.selected_index(), 2);
    key(&mut app, KeyCode::Backspace);
    key(&mut app, KeyCode::Backspace);
    assert_eq!(app.search.query(), &vec!['e']);
    assert_eq!(app.resources.pods.selected_index(), 1);
    key(&mut app, KeyCode::Backspace);
    key(&mut app, KeyCode::Backspace);
    assert!(app.search.query().is_empty());
    assert_eq!(app.search.matches(), &vec![0, 1, 2]);
    assert_eq!(app.resources.pods.selected_index(), 0);
}

#[test]
fn arrows_step_through_matches_inside_the_overlay() {
    let mut app = with_pods(&["web-1", "db", "web-2", "web-3"]);
    ch(&mut app, '/');
    ch(&mut app, 'w');
    key(&mut app, KeyCode::Down);
    assert_eq!(app.resources.pods.selected_index(), 2);
    key(&mut app, KeyCode::Tab);
    assert_eq!(app.resources.pods.selected_index(), 3);
    key(&mut app, KeyCode::Down);
    assert_eq!(app.resources.pods.selected_index(), 0);
    key(&mut app, KeyCode::Up);
    assert_eq!(app.resources.pods.selected_index(), 3);
    key(&mut app, KeyCode::BackTab);
    assert_eq!(app.resources.pods.selected_index(), 2);
}

#[test]
fn confirmed_search_leaves_stale_matches_for_repeat_keys() {
    let mut app = with_pods(&["web-1", "db", "web-2"]);
    ch(&mut app, '/');
    ch(&mut app, 'w');
    key(&mut app, KeyCode::Enter);
    assert_eq!(app.modes.current, AppMode::PodList);
    assert_eq!(app.search.phase(), SearchPhase::Confirmed);
    assert_eq!(app.resources.pods.selected_index(), 0);
    ch(&mut app, 'n');
    assert_eq!(app.resources.pods.selected_index(), 2);
    ch(&mut app, 'n');
    assert_eq!(app.resources.pods.selected_index(), 0);
    ch(&mut app, 'N');
    assert_eq!(app.resources.pods.selected_index(), 2);
    // The collection shrinks; the stale match 2 now points at nothing and
    // leaves the selection where it is.
    app.resources.pods.replace(vec![a_pod("only")]);
    ch(&mut app, 'n');
    assert_eq!(app.resources.pods.selected_index(), 0);
    ch(&mut app, 'n');
    assert_eq!(app.resources.pods.selected_index(), 0);
    assert_eq!(app.search.matches(), &vec![0, 2]);
}

#[test]
fn cancelled_search_keeps_the_selection_and_forgets_the_query() {
    let mut app = with_pods(&["web-1", "db", "web-2"]);
    ch(&mut app, '/');
    ch(&mut app, 'd');
    assert_eq!(app.resources.pods.selected_index(), 1);
    key(&mut app, KeyCode::Esc);
    assert_eq!(app.modes.current, AppMode::PodList);
    assert_eq!(app.resources.pods.selected_index(), 1);
    assert!(app.search.query().is_empty());
    assert!(app.search.matches().is_empty());
    ch(&mut app, 'n');
    assert_eq!(app.resources.pods.selected_index(), 1);
}

#[test]
fn search_cannot_start_outside_lists() {
    let mut app = with_pods(&["a"]);
    ch(&mut app, ' ');
    assert_eq!(app.modes.current, AppMode::Describe);
    ch(&mut app, '/');
    assert_eq!(app.modes.current, AppMode::Describe);
    assert!(!app.search.is_active());
    assert!(!app.start_search());
}

#[test]
fn quit_and_language_keys_work_outside_overlays() {
    let mut app = with_pods(&["a"]);
    ch(&mut app, 'i');
    assert!(!app.language_chinese);
    ch(&mut app, 'I');
    assert!(app.language_chinese);
    ch(&mut app, 'q');
    assert!(app.should_quit);
    let mut app = with_pods(&["a"]);
    ch(&mut app, 'd');
    ch(&mut app, 'q');
    assert!(!app.should_quit);
    assert_eq!(app.modes.current, AppMode::Confirm);
}

#[test]
fn detail_view_keys_scroll_and_toggle() {
    let mut app = with_pods(&["a"]);
    app.handle_resize(19);
    ch(&mut app, 'l');
    app.set_logs((0..40).map(|i| i.to_string()).collect());
    assert_eq!(app.scroll.logs.offset(), 30);
    ch(&mut app, 'k');
    key(&mut app, KeyCode::Up);
    assert_eq!(app.scroll.logs.offset(), 28);
    key(&mut app, KeyCode::PageUp);
    assert_eq!(app.scroll.logs.offset(), 18);
    key(&mut app, KeyCode::PageDown);
    ch(&mut app, 'j');
    key(&mut app, KeyCode::Down);
    assert_eq!(app.scroll.logs.offset(), 30);
    ch(&mut app, 'a');
    assert!(!app.scroll.auto_follow);
    ch(&mut app, 'A');
    assert!(app.scroll.auto_follow);
    ch(&mut app, 'm');
    assert!(app.text_selection_mode);
    assert!(!app.should_enable_mouse_capture());
    assert_eq!(app.get_mouse_mode_text(), "文本选择模式");
    ch(&mut app, 'i');
    assert_eq!(app.get_mouse_mode_text(), "Text Selection Mode");
    ch(&mut app, 'M');
    assert!(app.should_enable_mouse_capture());
    assert_eq!(app.get_mouse_mode_text(), "");
    ch(&mut app, 'r');
    assert!(!app.refresh.logs.enabled);
    assert_eq!(app.refresh_status_text, "[自动刷新: 列表]");
    ch(&mut app, 'R');
    assert_eq!(app.refresh_status_text, "[自动刷新: 列表, 日志]");
    key(&mut app, KeyCode::Esc);
    assert_eq!(app.modes.current, AppMode::PodList);
    assert_eq!(app.scroll.logs.offset(), 0);
}

#[test]
fn refresh_status_lists_the_enabled_classes() {
    let mut app = AppState::new(0);
    app.update_refresh_status();
    assert_eq!(app.refresh_status_text, "[自动刷新: 列表, 日志]");
    app.toggle_refresh(RefreshClass::Describe);
    app.toggle_refresh(RefreshClass::Yaml);
    assert_eq!(app.refresh_status_text, "[自动刷新: 列表, 日志, 描述, YAML]");
    app.toggle_refresh(RefreshClass::General);
    app.toggle_refresh(RefreshClass::Logs);
    assert_eq!(app.refresh_status_text, "[自动刷新: 描述, YAML]");
    app.toggle_refresh(RefreshClass::Describe);
    app.toggle_refresh(RefreshClass::Yaml);
    assert_eq!(app.refresh_status_text, "");
}

#[test]
fn metrics_view_has_no_toggles() {
    let mut app = with_pods(&["a"]);
    ch(&mut app, 't');
    for c in ['m', 'r', 'a'] {
        ch(&mut app, c);
    }
    assert!(!app.text_selection_mode);
    assert!(app.refresh.general.enabled);
    assert!(app.scroll.auto_follow);
    assert!(app.should_enable_mouse_capture());
}

#[test]
fn force_refresh_key_makes_lists_due() {
    let mut app = with_pods(&["a"]);
    app.refresh_data(19_000);
    assert!(!app.should_refresh(20_000));
    ch(&mut app, 'r');
    assert_eq!(app.refresh.general.last_fetch, 10_000);
    assert!(app.should_refresh(20_000));
}

#[test]
fn more_resources_menu_moves_and_jumps() {
    let mut app = AppState::new(0);
    ch(&mut app, '8');
    for _ in 0..12 {
        ch(&mut app, 'j');
    }
    assert_eq!(app.selected_more_resource_index, 8);
    key(&mut app, KeyCode::Enter);
    assert_eq!(app.modes.current, AppMode::IngressList);
    let targets = [
        AppMode::PVCList,
        AppMode::PVList,
        AppMode::NodeList,
        AppMode::ConfigMapList,
        AppMode::SecretList,
        AppMode::JobList,
        AppMode::DaemonSetList,
        AppMode::StatefulSetList,
        AppMode::IngressList,
    ];
    for (i, mode) in targets.iter().enumerate() {
        let mut app = AppState::new(0);
        ch(&mut app, '8');
        ch(&mut app, char::from_digit(i as u32 + 1, 10).unwrap());
        assert_eq!(app.modes.current, *mode);
        let mut app = AppState::new(0);
        ch(&mut app, '8');
        for _ in 0..i {
            key(&mut app, KeyCode::Down);
        }
        key(&mut app, KeyCode::Up);
        key(&mut app, KeyCode::Down);
        key(&mut app, KeyCode::Enter);
        assert_eq!(app.modes.current, if i == 0 { AppMode::PVList } else { *mode });
    }
}

#[test]
fn mouse_wheel_scrolls_detail_views_only() {
    let mut app = with_pods(&["a"]);
    app.handle_resize(19);
    app.handle_mouse_event(MouseEvent { kind: MouseEventKind::ScrollDown });
    ch(&mut app, ' ');
    app.set_describe_content("1\n2\n3\n4\n5\n6\n7\n8\n9\n10\n11\n12\n13".to_string());
    assert_eq!(app.scroll.describe.max_offset(), 3);
    for _ in 0..5 {
        app.handle_mouse_event(MouseEvent { kind: MouseEventKind::ScrollDown });
    }
    assert_eq!(app.scroll.describe.offset(), 3);
    app.handle_mouse_event(MouseEvent { kind: MouseEventKind::ScrollUp });
    app.handle_mouse_event(MouseEvent { kind: MouseEventKind::Other });
    assert_eq!(app.scroll.describe.offset(), 2);
}

#[test]
fn events_are_dispatched_by_sort() {
    let mut app = with_pods(&["a", "b"]);
    let effect = app.handle_event(Event::Key(KeyEvent { code: KeyCode::Down }), 0);
    assert!(matches!(effect, Effect::Nothing));
    assert_eq!(app.resources.pods.selected_index(), 1);
    app.handle_event(Event::Resize(80, 30), 0);
    assert_eq!(app.scroll.logs.viewport_height(), 21);
    assert_eq!(app.scroll.metrics.viewport_height(), 21);
    app.handle_event(Event::Mouse(MouseEvent { kind: MouseEventKind::ScrollDown }), 0);
    assert_eq!(app.modes.current, AppMode::PodList);
}

#[test]
fn only_key_presses_mouse_and_resize_pass_the_filter() {
    assert_eq!(poll_events(None), None);
    assert_eq!(poll_events(Some(RawEvent::Other)), None);
    assert_eq!(poll_events(Some(RawEvent::Key { code: KeyCode::Enter, is_press: false })), None);
    assert_eq!(
        poll_events(Some(RawEvent::Key { code: KeyCode::Enter, is_press: true })),
        Some(Event::Key(KeyEvent { code: KeyCode::Enter }))
    );
    assert_eq!(
        poll_events(Some(RawEvent::Mouse(MouseEventKind::ScrollUp))),
        Some(Event::Mouse(MouseEvent { kind: MouseEventKind::ScrollUp }))
    );
    assert_eq!(poll_events(Some(RawEvent::Resize(3, 4))), Some(Event::Resize(3, 4)));
}

#[test]
fn command_line_and_scroll_reset_helpers() {
    let mut app = AppState::new(0);
    app.set_current_command("kubectl get pods");
    assert_eq!(app.current_command, "kubectl get pods");
    app.clear_current_command();
    assert_eq!(app.current_command, "");
    app.handle_resize(12);
    app.scroll.toggle_auto_follow();
    app.set_logs(vec!["a".to_string(); 10]);
    app.scroll.page_down(AppMode::Logs);
    assert_eq!(app.scroll.logs.offset(), 7);
    app.reset_scroll();
    assert_eq!(app.scroll.logs.offset(), 0);
    app.toggle_mouse_mode();
    assert!(app.text_selection_mode);
    assert!(app.should_enable_mouse_capture());
}
