use kube_tui::app::{AppState, Effect};
use kube_tui::confirm::ConfirmAction;
use kube_tui::events::{KeyCode, KeyEvent};
use kube_tui::kubectl::types::{Namespace, Pod, PodStatus, Service};
use kube_tui::mode::{AppMode, ResourceKind};
use kube_tui::search::SearchPhase;

fn namespace(name: &str) -> Namespace {
    Namespace { name: name.to_string(), status: "Active".to_string(), age: "Unknown".to_string() }
}

fn pod(name: &str) -> Pod {
    Pod {
        name: name.to_string(),
        namespace: "default".to_string(),
        status: PodStatus { phase: "Running".to_string(), conditions: None, container_statuses: None },
        ready: "1/1".to_string(),
        restarts: 0,
        age: "1d".to_string(),
        node: None,
        ip: None,
    }
}

fn service(name: &str) -> Service {
    Service {
        name: name.to_string(),
        namespace: "default".to_string(),
        type_: "ClusterIP".to_string(),
        cluster_ip: "10.0.0.1".to_string(),
        external_ip: None,
        ports: Vec::new(),
        age: "1d".to_string(),
    }
}

fn press(app: &mut AppState, code: KeyCode) -> Effect {
    app.handle_key_event(KeyEvent { code }, 0)
}

fn type_text(app: &mut AppState, text: &str) {
    for c in text.chars() {
        press(app, KeyCode::Char(c));
    }
}

#[test]
fn selecting_a_namespace_shows_its_pods_and_clears_the_rest() {
    let mut app = AppState::new(0);
    app.resources.namespaces.replace(vec![namespace("default"), namespace("kube-system"), namespace("dev")]);
    app.resources.pods.replace(vec![pod("a"), pod("b"), pod("c")]);
    app.resources.pods.select(2);
    app.resources.services.replace(vec![service("s1"), service("s2")]);
    app.resources.services.select(1);

    press(&mut app, KeyCode::Down);
    assert_eq!(app.resources.namespaces.selected_index(), 1);
    let effect = press(&mut app, KeyCode::Enter);

    assert!(matches!(effect, Effect::Nothing));
    assert_eq!(app.current_namespace, "kube-system");
    assert_eq!(app.modes.current, AppMode::PodList);
    assert_eq!(app.resources.namespaces.len(), 3);
    let kinds = [
        ResourceKind::Pod,
        ResourceKind::Service,
        ResourceKind::Deployment,
        ResourceKind::Job,
        ResourceKind::DaemonSet,
        ResourceKind::PVC,
        ResourceKind::PV,
        ResourceKind::Node,
        ResourceKind::ConfigMap,
        ResourceKind::Secret,
        ResourceKind::StatefulSet,
        ResourceKind::Ingress,
        ResourceKind::NetworkPolicy,
        ResourceKind::Role,
        ResourceKind::RoleBinding,
        ResourceKind::ClusterRole,
        ResourceKind::ClusterRoleBinding,
        ResourceKind::ServiceAccount,
    ];
    for kind in kinds {
        assert_eq!(app.resources.len(kind), 0);
        assert_eq!(app.resources.selected_index(kind), 0);
    }
    assert_eq!(app.resources.selected_index(ResourceKind::Namespace), 0);
}

#[test]
fn search_jumps_to_matches_and_wraps() {
    let mut app = AppState::new(0);
    app.resources.pods.replace(vec![
        pod("api-0"),
        pod("web-frontend"),
        pod("db-0"),
        pod("My-WEB-cache"),
        pod("worker"),
    ]);
    app.modes.jump(AppMode::PodList);

    press(&mut app, KeyCode::Char('/'));
    assert_eq!(app.modes.current, AppMode::Search);
    assert!(app.search.is_active());
    type_text(&mut app, "web");

    assert_eq!(app.search.matches(), &vec![1usize, 3]);
    assert_eq!(app.resources.pods.selected_index(), 1);

    app.search_next();
    assert_eq!(app.resources.pods.selected_index(), 3);
    app.search_next();
    assert_eq!(app.resources.pods.selected_index(), 1);
    app.search_previous();
    assert_eq!(app.resources.pods.selected_index(), 3);
}

#[test]
fn search_with_a_single_match_stays_on_it() {
    let mut app = AppState::new(0);
    app.resources.pods.replace(vec![pod("some-foo-pod")]);
    app.modes.jump(AppMode::PodList);

    assert!(app.start_search());
    app.type_char('f');
    app.type_char('o');
    app.type_char('o');
    assert_eq!(app.search.matches(), &vec![0usize]);
    assert_eq!(app.search.cursor(), 0);

    app.search_next();
    assert_eq!(app.search.cursor(), 0);
    assert_eq!(app.search.current_match(), Some(0));
    app.search_previous();
    assert_eq!(app.search.cursor(), 0);
    assert_eq!(app.search.current_match(), Some(0));
    assert_eq!(app.resources.pods.selected_index(), 0);
}

#[test]
fn denying_a_delete_returns_to_the_list_and_releases_nothing() {
    let mut app = AppState::new(0);
    app.current_namespace = "default".to_string();
    app.resources.pods.replace(vec![pod("other"), pod("nginx-abc")]);
    app.modes.jump(AppMode::PodList);
    press(&mut app, KeyCode::Down);

    let effect = press(&mut app, KeyCode::Char('d'));
    assert!(matches!(effect, Effect::Nothing));
    assert_eq!(app.modes.current, AppMode::Confirm);
    match &app.confirm.pending {
        Some(ConfirmAction::DeletePod { namespace, name }) => {
            assert_eq!(namespace, "default");
            assert_eq!(name, "nginx-abc");
        }
        other => panic!("unexpected request: {:?}", other),
    }

    let effect = press(&mut app, KeyCode::Char('n'));
    assert!(matches!(effect, Effect::Nothing));
    assert_eq!(app.modes.current, AppMode::PodList);
    assert!(app.confirm.pending.is_none());
}

#[test]
fn confirming_a_delete_releases_exactly_the_request() {
    let mut app = AppState::new(0);
    app.current_namespace = "default".to_string();
    app.resources.pods.replace(vec![pod("nginx-abc")]);
    app.modes.jump(AppMode::PodList);

    press(&mut app, KeyCode::Char('D'));
    // Keys that are no answer are ignored while the request is pending.
    assert!(matches!(press(&mut app, KeyCode::Char('j')), Effect::Nothing));
    assert!(matches!(press(&mut app, KeyCode::Enter), Effect::Nothing));
    assert_eq!(app.modes.current, AppMode::Confirm);

    match press(&mut app, KeyCode::Char('y')) {
        Effect::Delete(ConfirmAction::DeletePod { namespace, name }) => {
            assert_eq!(namespace, "default");
            assert_eq!(name, "nginx-abc");
        }
        other => panic!("unexpected effect: {:?}", other),
    }
    assert_eq!(app.modes.current, AppMode::PodList);
    assert!(app.confirm.pending.is_none());
    // A second `y` finds nothing pending and is an ordinary key again.
    assert!(matches!(press(&mut app, KeyCode::Char('n')), Effect::Nothing));
}

#[test]
fn search_phase_distinguishes_idle_from_no_matches() {
    let mut app = AppState::new(0);
    app.resources.pods.replace(vec![pod("alpha")]);
    app.modes.jump(AppMode::PodList);
    assert_eq!(app.search.phase(), SearchPhase::Idle);
    press(&mut app, KeyCode::Char('/'));
    type_text(&mut app, "zzz");
    assert_eq!(app.search.phase(), SearchPhase::Active);
    assert!(app.search.matches().is_empty());
    press(&mut app, KeyCode::Esc);
    assert_eq!(app.search.phase(), SearchPhase::Idle);
    assert_eq!(app.modes.current, AppMode::PodList);
}
