use kube_tui::app::AppState;
use kube_tui::confirm::ConfirmAction;
use kube_tui::highlight::{highlight_yaml_line, LineShape, ValueKind};
use kube_tui::kubectl::types::{Job, Node, Pod, PodStatus};
use kube_tui::mode::{AppMode, ResourceKind};
use kube_tui::view::{
    footer_help_text, header_title, kind_display_name, needs_scrollbar, status_tone, tab_index,
    visible_range, Tone,
};

fn shown_pod(name: &str) -> Pod {
    Pod {
        name: name.to_string(),
        namespace: "default".to_string(),
        status: PodStatus { phase: "Running".to_string(), conditions: None, container_statuses: None },
        ready: "1/1".to_string(),
        restarts: 0,
        age: "1d".to_string(),
        node: None,
        ip: None,
    }
}

fn shown_node(name: &str) -> Node {
    Node {
        name: name.to_string(),
        status: "Ready".to_string(),
        roles: Vec::new(),
        age: "1d".to_string(),
        version: "v1".to_string(),
        internal_ip: None,
        external_ip: None,
        os_image: None,
        kernel_version: None,
        container_runtime: None,
    }
}

fn showing_pods() -> AppState {
    let mut app = AppState::new(0);
    app.current_namespace = "prod".to_string();
    app.language_chinese = false;
    app.resources.pods.replace(vec![shown_pod("web-1"), shown_pod("web-2")]);
    app.resources.pods.select(1);
    app.modes.jump(AppMode::PodList);
    app
}

#[test]
fn tabs_of_lists_and_menus() {
    assert_eq!(tab_index(AppMode::NamespaceList, AppMode::PodList), 0);
    assert_eq!(tab_index(AppMode::PodList, AppMode::NamespaceList), 1);
    assert_eq!(tab_index(AppMode::ServiceList, AppMode::NamespaceList), 2);
    assert_eq!(tab_index(AppMode::DeploymentList, AppMode::NamespaceList), 3);
    for mode in [AppMode::JobList, AppMode::NodeList, AppMode::ServiceAccountList, AppMode::MoreResources] {
        assert_eq!(tab_index(mode, AppMode::PodList), 4);
    }
    assert_eq!(tab_index(AppMode::Help, AppMode::PodList), 5);
}

#[test]
fn tabs_of_detail_views_and_overlays_follow_the_previous_mode() {
    for mode in [AppMode::Logs, AppMode::Describe, AppMode::YamlView, AppMode::TopView, AppMode::Search, AppMode::Confirm] {
        assert_eq!(tab_index(mode, AppMode::ServiceList), 2);
        assert_eq!(tab_index(mode, AppMode::SecretList), 4);
        assert_eq!(tab_index(mode, AppMode::Help), 5);
    }
    assert_eq!(tab_index(AppMode::Logs, AppMode::Describe), 1);
    assert_eq!(tab_index(AppMode::Describe, AppMode::Search), 1);
    assert_eq!(tab_index(AppMode::Search, AppMode::Logs), 0);
    assert_eq!(tab_index(AppMode::Confirm, AppMode::Confirm), 0);
    let mut app = showing_pods();
    app.enter_overlay_or_detail(AppMode::Describe);
    assert_eq!(app.header_tab_index(), 1);
}

#[test]
fn header_titles() {
    assert_eq!(header_title(AppMode::PodList, true), "Kube TUI");
    assert_eq!(header_title(AppMode::Logs, false), "Kube TUI");
    assert_eq!(header_title(AppMode::StatefulSetList, true), "StatefulSets 有状态应用集");
    assert_eq!(header_title(AppMode::StatefulSetList, false), "StatefulSets");
    assert_eq!(header_title(AppMode::ClusterRoleBindingList, true), "ClusterRoleBindings 集群角色绑定");
    assert_eq!(header_title(AppMode::ServiceAccountList, false), "ServiceAccounts");
    assert_eq!(showing_pods().header_title(), "Kube TUI");
}

#[test]
fn footer_texts() {
    assert_eq!(footer_help_text(AppMode::Confirm, false, false), "y/Y Confirm • n/N/Esc Cancel");
    assert_eq!(footer_help_text(AppMode::Confirm, true, true), "y/Y 确认 • n/N/Esc 取消");
    assert_eq!(footer_help_text(AppMode::Help, false, false), "I Language • Esc Back • q Quit");
    assert!(footer_help_text(AppMode::Logs, false, true).contains("M Switch to scroll mode"));
    assert!(footer_help_text(AppMode::Logs, false, false).contains("M Switch to select mode"));
    assert!(footer_help_text(AppMode::YamlView, true, true).contains("M 切换到滚轮模式"));
    assert!(footer_help_text(AppMode::PodList, false, false).starts_with("j/k Navigate • Space Describe"));
    assert_eq!(
        showing_pods().footer_help_text(),
        footer_help_text(AppMode::PodList, false, false)
    );
}

#[test]
fn command_line_of_lists() {
    let mut app = showing_pods();
    assert_eq!(app.command_line_text(), "kubectl get pods -n prod - Press 'R' to refresh");
    app.update_refresh_status();
    assert_eq!(
        app.command_line_text(),
        "kubectl get pods -n prod - Press 'R' to refresh [自动刷新: 列表, 日志]"
    );
    app.refresh_status_text.clear();
    app.modes.jump(AppMode::PVCList);
    assert_eq!(app.command_line_text(), "kubectl get pvc -n prod - Press 'R' to refresh");
    app.modes.jump(AppMode::NodeList);
    assert_eq!(app.command_line_text(), "kubectl get nodes - Press 'R' to refresh");
    app.modes.jump(AppMode::NamespaceList);
    assert_eq!(app.command_line_text(), "kubectl get namespaces - Press 'R' to refresh");
    app.modes.jump(AppMode::ClusterRoleBindingList);
    assert_eq!(app.command_line_text(), "kubectl get clusterrolebindings - Press 'R' to refresh");
    app.set_current_command("kubectl cluster-info");
    assert_eq!(app.command_line_text(), "Executing: kubectl cluster-info - Press 'R' to refresh");
}

#[test]
fn command_line_of_detail_views() {
    let mut app = showing_pods();
    app.enter_overlay_or_detail(AppMode::Describe);
    assert_eq!(app.command_line_text(), "kubectl describe pod -n prod web-2 - Press 'R' to refresh");
    app.modes.jump(AppMode::YamlView);
    assert_eq!(app.command_line_text(), "kubectl get pod -n prod web-2 -o yaml - Press 'R' to refresh");
    app.modes.jump(AppMode::Logs);
    assert_eq!(
        app.command_line_text(),
        "kubectl logs -f -n prod web-2 --tail=100 - Press 'R' to refresh"
    );
    app.modes.jump(AppMode::TopView);
    assert_eq!(app.command_line_text(), "kubectl top pods -n prod - Press 'R' to refresh");

    app.resources.pods.clear();
    app.modes.jump(AppMode::Describe);
    assert_eq!(app.command_line_text(), "Describe Mode - No pod selected - Press 'R' to refresh");
    app.modes.jump(AppMode::YamlView);
    assert_eq!(app.command_line_text(), "YAML View Mode - No pod selected - Press 'R' to refresh");
    app.modes.jump(AppMode::Logs);
    assert_eq!(app.command_line_text(), "Logs Mode - No pod selected - Press 'R' to refresh");

    app.resources.nodes.replace(vec![shown_node("n1")]);
    app.modes.previous = AppMode::NodeList;
    app.modes.jump(AppMode::Describe);
    assert_eq!(app.command_line_text(), "kubectl describe node n1 - Press 'R' to refresh");
    app.modes.jump(AppMode::YamlView);
    assert_eq!(app.command_line_text(), "kubectl get node n1 -o yaml - Press 'R' to refresh");

    app.modes.previous = AppMode::NetworkPolicyList;
    app.modes.jump(AppMode::Describe);
    assert_eq!(
        app.command_line_text(),
        "Describe Mode - No network policy selected - Press 'R' to refresh"
    );
    app.modes.previous = AppMode::JobList;
    app.resources.jobs.replace(vec![Job {
        name: "j".to_string(),
        namespace: "prod".to_string(),
        completions: None,
        successful: 0,
        age: "1d".to_string(),
        duration: None,
        status: "Pending".to_string(),
    }]);
    assert_eq!(app.command_line_text(), "kubectl describe job -n prod j - Press 'R' to refresh");
    app.modes.jump(AppMode::YamlView);
    assert_eq!(app.command_line_text(), "YAML View Mode - Press 'R' to refresh");
    app.modes.previous = AppMode::NamespaceList;
    assert_eq!(app.command_line_text(), "YAML View Mode - Press 'R' to refresh");
    app.modes.jump(AppMode::Describe);
    assert_eq!(app.command_line_text(), "Describe Mode - Press 'R' to refresh");
}

#[test]
fn command_line_of_overlays() {
    let mut app = showing_pods();
    for (mode, text) in [
        (AppMode::Search, "Search Mode"),
        (AppMode::Confirm, "Confirmation Mode"),
        (AppMode::Help, "Help Mode"),
        (AppMode::MoreResources, "More Resources Panel"),
    ] {
        app.modes.jump(mode);
        assert_eq!(app.command_line_text(), format!("{} - Press 'R' to refresh", text));
    }
}

#[test]
fn titles_of_detail_views() {
    let mut app = showing_pods();
    app.enter_overlay_or_detail(AppMode::Describe);
    assert_eq!(app.describe_title(), "Describe - Pod prod/web-2 (J/K:scroll, PgUp/PgDn:page)");
    assert_eq!(
        app.yaml_title(),
        "YAML配置 - Pod: prod/web-2  (j/k:scroll, M:toggle mode, PgUp/PgDn:page)"
    );
    app.toggle_mouse_mode();
    assert_eq!(
        app.yaml_title(),
        "YAML配置 - Pod: prod/web-2 - Text Selection Mode  (j/k:scroll, M:toggle mode, PgUp/PgDn:page)"
    );
    app.language_chinese = true;
    assert_eq!(
        app.yaml_title(),
        "YAML配置 - Pod: prod/web-2 - 文本选择模式  (j/k:滚动, M:切换模式, PgUp/PgDn:翻页)"
    );
    app.resources.pods.clear();
    assert_eq!(app.describe_title(), "Describe - Pod");
    assert_eq!(app.yaml_title(), "YAML配置 - Pod:  - 文本选择模式");

    app.resources.nodes.replace(vec![shown_node("n1")]);
    app.modes.previous = AppMode::NodeList;
    assert_eq!(app.describe_title(), "Describe - Node n1 (J/K:scroll, PgUp/PgDn:page)");
    assert_eq!(app.yaml_title(), "YAML配置 - Node n1 (j/k:滚动, PgUp/PgDn:翻页)");
    app.modes.previous = AppMode::SecretList;
    assert_eq!(app.describe_title(), "Describe - Secret");
    assert_eq!(app.yaml_title(), "YAML配置 - Secret");
    app.modes.previous = AppMode::IngressList;
    assert_eq!(app.describe_title(), "Describe");
    assert_eq!(app.yaml_title(), "YAML配置");
}

#[test]
fn title_of_the_log_view() {
    let mut app = showing_pods();
    assert_eq!(
        app.logs_title(),
        "Logs - prod/web-2 (j/k:scroll, PgUp/PgDn:page, A:auto-scroll:ON, R:auto-refresh:ON, M:toggle mouse mode:Mouse Scroll)"
    );
    app.scroll.toggle_auto_follow();
    app.toggle_mouse_mode();
    app.language_chinese = true;
    assert_eq!(
        app.logs_title(),
        "日志 - prod/web-2 (j/k:滚动, PgUp/PgDn:翻页, A:自动滚动:关闭, R:自动刷新:开启, M:切换鼠标模式:文本选择)"
    );
    app.resources.pods.clear();
    assert_eq!(app.logs_title(), "日志");
    app.language_chinese = false;
    assert_eq!(app.logs_title(), "Logs");
}

#[test]
fn confirmation_dialog() {
    let mut app = showing_pods();
    assert!(app.confirm_dialog().is_none());
    app.request(ConfirmAction::DeletePod { namespace: "prod".to_string(), name: "web-2".to_string() });
    assert_eq!(app.modes.current, AppMode::Confirm);
    assert_eq!(app.modes.previous, AppMode::PodList);
    let (title, text) = app.confirm_dialog().unwrap();
    assert_eq!(title, "Confirm Delete Pod");
    assert_eq!(
        text,
        "Are you sure you want to delete Pod prod/web-2? This action cannot be undone.\n\nPress 'y' to confirm, 'n' or 'Esc' to cancel"
    );
    app.language_chinese = true;
    app.request(ConfirmAction::DeleteClusterRole { name: "admin".to_string() });
    let (title, text) = app.confirm_dialog().unwrap();
    assert_eq!(title, "确认删除ClusterRole");
    assert_eq!(text, "确定要删除ClusterRole admin 吗？此操作不可撤销。\n\n按 'y' 确认, 'n' 或 'Esc' 取消");
    assert_eq!(kind_display_name(ResourceKind::PVC), "PVC");
}

#[test]
fn status_colours() {
    let cases = [
        (ResourceKind::Pod, "Running", Tone::Green),
        (ResourceKind::Pod, "Pending", Tone::Yellow),
        (ResourceKind::Pod, "Failed", Tone::Red),
        (ResourceKind::Pod, "Error", Tone::Red),
        (ResourceKind::Pod, "Succeeded", Tone::Blue),
        (ResourceKind::Pod, "running", Tone::Gray),
        (ResourceKind::Job, "Complete", Tone::Green),
        (ResourceKind::Job, "Running", Tone::Blue),
        (ResourceKind::Job, "Failed", Tone::Red),
        (ResourceKind::Job, "Pending", Tone::Gray),
        (ResourceKind::PVC, "Bound", Tone::Green),
        (ResourceKind::PVC, "Pending", Tone::Yellow),
        (ResourceKind::PVC, "Lost", Tone::Red),
        (ResourceKind::PV, "Available", Tone::Green),
        (ResourceKind::PV, "Bound", Tone::Blue),
        (ResourceKind::PV, "Released", Tone::Yellow),
        (ResourceKind::PV, "Failed", Tone::Red),
        (ResourceKind::Node, "Ready", Tone::Green),
        (ResourceKind::Node, "NotReady", Tone::Red),
        (ResourceKind::Node, "Unknown", Tone::Gray),
        (ResourceKind::Service, "Running", Tone::Gray),
    ];
    for (kind, status, tone) in cases {
        assert_eq!(status_tone(kind, status), tone, "{:?} {}", kind, status);
    }
}

#[test]
fn visible_lines() {
    assert_eq!(visible_range(0, 100, 10), (0, 10));
    assert_eq!(visible_range(95, 100, 10), (95, 100));
    assert_eq!(visible_range(100, 100, 10), (100, 100));
    assert_eq!(visible_range(500, 100, 10), (100, 100));
    assert_eq!(visible_range(0, 3, 10), (0, 3));
    assert_eq!(visible_range(0, 0, 0), (0, 0));
    assert_eq!(visible_range(5, 100, usize::MAX), (5, 100));
    assert!(needs_scrollbar(11, 10));
    assert!(!needs_scrollbar(10, 10));
    assert!(!needs_scrollbar(0, 0));
}

fn shape(line: &str) -> (usize, String) {
    let (indent, shape) = highlight_yaml_line(line);
    (indent, format!("{:?}", shape))
}

#[test]
fn lines_are_told_apart_by_their_first_character() {
    assert!(matches!(highlight_yaml_line("# a comment: x"), (0, LineShape::Comment(t)) if t == "# a comment: x"));
    assert!(matches!(highlight_yaml_line("  - item: 1"), (2, LineShape::ListItem(t)) if t == " item: 1"));
    assert!(matches!(highlight_yaml_line("-"), (0, LineShape::ListItem(t)) if t.is_empty()));
    assert!(matches!(highlight_yaml_line("----"), (0, LineShape::ListItem(t)) if t == "---"));
    assert!(matches!(highlight_yaml_line("====="), (0, LineShape::Separator(t)) if t == "====="));
    assert!(matches!(highlight_yaml_line("==="), (0, LineShape::Plain(t)) if t == "==="));
    assert!(matches!(highlight_yaml_line("plain text"), (0, LineShape::Plain(t)) if t == "plain text"));
    assert!(matches!(highlight_yaml_line(""), (0, LineShape::Plain(t)) if t.is_empty()));
    assert!(matches!(highlight_yaml_line(" \t "), (3, LineShape::Plain(t)) if t.is_empty()));
    assert_eq!(shape("\u{3000}x").0, 1);
}

#[test]
fn keys_and_values() {
    let cases: [(&str, usize, &str, Option<(&str, ValueKind)>); 12] = [
        ("name: web", 0, "name", Some(("web", ValueKind::Other))),
        ("  replicas:   3", 2, "replicas", Some(("3", ValueKind::Other))),
        ("key:", 0, "key", None),
        ("key:    ", 0, "key", None),
        (":", 0, "", None),
        ("a:b:c", 0, "a", Some(("b:c", ValueKind::Other))),
        ("text: \"quoted\"", 0, "text", Some(("\"quoted\"", ValueKind::Quoted))),
        ("text: \"", 0, "text", Some(("\"", ValueKind::Quoted))),
        ("text: \"open", 0, "text", Some(("\"open", ValueKind::Other))),
        ("flag: true", 0, "flag", Some(("true", ValueKind::Truth))),
        ("flag: false", 0, "flag", Some(("false", ValueKind::Truth))),
        ("flag: True", 0, "flag", Some(("True", ValueKind::Other))),
    ];
    for (line, indent, key, value) in cases {
        match highlight_yaml_line(line) {
            (i, LineShape::KeyValue { key: k, value: v }) => {
                assert_eq!(i, indent, "{:?}", line);
                assert_eq!(k, key, "{:?}", line);
                assert_eq!(v.as_ref().map(|(t, kind)| (t.as_str(), *kind)), value, "{:?}", line);
            }
            other => panic!("{:?} gave {:?}", line, other),
        }
    }
    assert!(matches!(
        highlight_yaml_line("x: null"),
        (0, LineShape::KeyValue { value: Some((_, ValueKind::Null)), .. })
    ));
    assert!(matches!(
        highlight_yaml_line("x: ~"),
        (0, LineShape::KeyValue { value: Some((_, ValueKind::Null)), .. })
    ));
}
