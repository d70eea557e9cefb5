use kube_tui::kubectl::types::{ConfigMap, Namespace};
use kube_tui::mode::AppMode;
use kube_tui::search::{copy_chars, matching_indices, SearchEngine, SearchPhase};

fn namespaces(names: &[&str]) -> Vec<Namespace> {
    names
        .iter()
        .map(|n| Namespace { name: n.to_string(), status: "Active".to_string(), age: "1d".to_string() })
        .collect()
}

fn query(s: &str) -> Vec<char> {
    s.chars().collect()
}

#[test]
fn matching_indices_are_in_collection_order() {
    let items = namespaces(&["kube-system", "default", "KUBE-public", "dev", "minikube"]);
    assert_eq!(matching_indices(&items, &query("kube")), vec![0, 2, 4]);
    assert_eq!(matching_indices(&items, &query("KuBe-")), vec![0, 2]);
    assert_eq!(matching_indices(&items, &query("zzz")), Vec::<usize>::new());
    assert_eq!(matching_indices(&items, &query("")), vec![0, 1, 2, 3, 4]);
    assert_eq!(matching_indices(&Vec::<Namespace>::new(), &query("a")), Vec::<usize>::new());
}

#[test]
fn matching_uses_the_name_field() {
    let items = vec![
        ConfigMap { name: "alpha".to_string(), namespace: "beta".to_string(), data_count: 1, age: "gamma".to_string() },
        ConfigMap { name: "beta".to_string(), namespace: "alpha".to_string(), data_count: 2, age: "alpha".to_string() },
    ];
    assert_eq!(matching_indices(&items, &query("alpha")), vec![0]);
    assert_eq!(matching_indices(&items, &query("gamma")), Vec::<usize>::new());
}

#[test]
fn engine_starts_idle() {
    let s = SearchEngine::new();
    assert_eq!(s.phase(), SearchPhase::Idle);
    assert!(!s.is_active());
    assert!(s.query().is_empty());
    assert!(s.matches().is_empty());
    assert_eq!(s.cursor(), 0);
    assert_eq!(s.current_match(), None);
}

#[test]
fn start_is_permitted_only_from_list_modes() {
    for mode in [AppMode::Logs, AppMode::Describe, AppMode::YamlView, AppMode::TopView, AppMode::Search, AppMode::Confirm, AppMode::Help, AppMode::MoreResources] {
        let mut s = SearchEngine::new();
        assert!(!s.start(mode));
        assert_eq!(s.phase(), SearchPhase::Idle);
    }
    let mut s = SearchEngine::new();
    assert!(s.start(AppMode::ServiceList));
    assert_eq!(s.phase(), SearchPhase::Active);
    assert_eq!(s.target(), AppMode::ServiceList);
}

#[test]
fn start_clears_query_and_matches() {
    let mut s = SearchEngine::new();
    s.start(AppMode::PodList);
    s.set_query(query("ab"), vec![2, 5]);
    s.next();
    s.confirm();
    assert!(s.start(AppMode::NodeList));
    assert!(s.query().is_empty());
    assert!(s.matches().is_empty());
    assert_eq!(s.cursor(), 0);
    assert_eq!(s.target(), AppMode::NodeList);
}

#[test]
fn set_query_puts_the_cursor_on_the_first_match() {
    let mut s = SearchEngine::new();
    s.start(AppMode::PodList);
    s.set_query(query("a"), vec![1, 3, 4]);
    s.next();
    s.next();
    assert_eq!(s.cursor(), 2);
    s.set_query(query("ab"), vec![3, 4]);
    assert_eq!(s.cursor(), 0);
    assert_eq!(s.current_match(), Some(3));
    assert_eq!(s.query(), &query("ab"));
}

#[test]
fn set_query_outside_an_open_overlay_changes_nothing() {
    let mut s = SearchEngine::new();
    s.set_query(query("a"), vec![1]);
    assert!(s.query().is_empty());
    assert!(s.matches().is_empty());
    s.start(AppMode::PodList);
    s.set_query(query("a"), vec![1]);
    s.confirm();
    s.set_query(query("b"), vec![2]);
    assert_eq!(s.query(), &query("a"));
    assert_eq!(s.matches(), &vec![1]);
}

#[test]
fn next_and_previous_wrap_at_both_ends() {
    let mut s = SearchEngine::new();
    s.start(AppMode::PodList);
    s.set_query(query("x"), vec![2, 4, 9]);
    assert_eq!(s.next(), Some(4));
    assert_eq!(s.next(), Some(9));
    assert_eq!(s.next(), Some(2));
    assert_eq!(s.previous(), Some(9));
    assert_eq!(s.previous(), Some(4));
    assert_eq!(s.previous(), Some(2));
    assert_eq!(s.previous(), Some(9));
    assert_eq!(s.cursor(), 2);
}

#[test]
fn next_and_previous_without_matches_do_nothing() {
    let mut s = SearchEngine::new();
    assert_eq!(s.next(), None);
    assert_eq!(s.previous(), None);
    s.start(AppMode::PodList);
    s.set_query(query("zzz"), Vec::new());
    assert_eq!(s.next(), None);
    assert_eq!(s.previous(), None);
    assert_eq!(s.cursor(), 0);
}

#[test]
fn confirm_keeps_matches_and_cancel_forgets_them() {
    let mut s = SearchEngine::new();
    s.start(AppMode::PodList);
    s.set_query(query("x"), vec![1, 2]);
    s.next();
    s.confirm();
    assert_eq!(s.phase(), SearchPhase::Confirmed);
    assert_eq!(s.matches(), &vec![1, 2]);
    assert_eq!(s.cursor(), 1);
    // Repeat-search keys go on with the kept matches.
    assert_eq!(s.next(), Some(1));
    // Cancelling is for an open overlay only.
    s.cancel();
    assert_eq!(s.phase(), SearchPhase::Confirmed);
    s.start(AppMode::PodList);
    s.set_query(query("y"), vec![0]);
    s.cancel();
    assert_eq!(s.phase(), SearchPhase::Idle);
    assert!(s.query().is_empty());
    assert!(s.matches().is_empty());
    assert_eq!(s.target(), AppMode::PodList);
}

#[test]
fn query_editing_helpers() {
    let mut s = SearchEngine::new();
    s.start(AppMode::PodList);
    assert_eq!(s.query_shortened(), Vec::<char>::new());
    assert_eq!(s.query_with('a'), vec!['a']);
    s.set_query(query("ab"), Vec::new());
    assert_eq!(s.query_with('c'), vec!['a', 'b', 'c']);
    assert_eq!(s.query_shortened(), vec!['a']);
    assert_eq!(copy_chars(&query("héllo")), query("héllo"));
}
