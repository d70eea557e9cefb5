use kube_tui::app::AppState;
use kube_tui::kubectl::types::{
    ConfigMap, Ingress, Job, Namespace, Node, PersistentVolume, PersistentVolumeClaim, Pod,
    PodStatus, Service, ServicePort,
};
use kube_tui::mode::ResourceKind;
use kube_tui::table::{
    completions, empty_message, join_texts, or_none, ports_text, status_column, table_headers,
    table_widths,
};

const KINDS: [ResourceKind; 19] = [
    ResourceKind::Namespace,
    ResourceKind::Pod,
    ResourceKind::Service,
    ResourceKind::Deployment,
    ResourceKind::Job,
    ResourceKind::DaemonSet,
    ResourceKind::PVC,
    ResourceKind::PV,
    ResourceKind::Node,
    ResourceKind::ConfigMap,
    ResourceKind::Secret,
    ResourceKind::StatefulSet,
    ResourceKind::Ingress,
    ResourceKind::NetworkPolicy,
    ResourceKind::Role,
    ResourceKind::RoleBinding,
    ResourceKind::ClusterRole,
    ResourceKind::ClusterRoleBinding,
    ResourceKind::ServiceAccount,
];

fn strings(words: &[&str]) -> Vec<String> {
    words.iter().map(|w| w.to_string()).collect()
}

#[test]
fn every_table_has_as_many_widths_as_headers_and_they_fill_the_width() {
    for kind in KINDS {
        let headers = table_headers(kind);
        let widths = table_widths(kind);
        assert_eq!(headers.len(), widths.len(), "{:?}", kind);
        assert_eq!(headers[0], "Name");
        assert_eq!(widths.iter().map(|w| u32::from(*w)).sum::<u32>(), 100, "{:?}", kind);
        if let Some(column) = status_column(kind) {
            assert_eq!(headers[column], "Status", "{:?}", kind);
        }
        assert!(!empty_message(kind).is_empty());
    }
}

#[test]
fn named_headers() {
    assert_eq!(table_headers(ResourceKind::Pod), vec!["Name", "Ready", "Status", "Restarts", "Age", "Node"]);
    assert_eq!(table_widths(ResourceKind::Pod), vec![30, 10, 15, 10, 10, 25]);
    assert_eq!(status_column(ResourceKind::Pod), Some(2));
    assert_eq!(status_column(ResourceKind::Job), Some(3));
    assert_eq!(status_column(ResourceKind::PVC), Some(1));
    assert_eq!(status_column(ResourceKind::PV), Some(4));
    assert_eq!(status_column(ResourceKind::Node), Some(1));
    assert_eq!(status_column(ResourceKind::Service), None);
    assert_eq!(table_headers(ResourceKind::ClusterRole), vec!["Name", "Age"]);
    assert_eq!(empty_message(ResourceKind::Pod), "No pods found in this namespace");
    assert_eq!(empty_message(ResourceKind::PV), "No PVs found or loading...");
}

#[test]
fn joining_and_defaults() {
    assert_eq!(join_texts(&Vec::new(), ","), "");
    assert_eq!(join_texts(&strings(&["a"]), ","), "a");
    assert_eq!(join_texts(&strings(&["a", "", "c"]), ", "), "a, , c");
    assert_eq!(or_none(&None), "<none>");
    assert_eq!(or_none(&Some("x".to_string())), "x");
    assert_eq!(completions(2, Some(5)), "2/5");
    assert_eq!(completions(0, None), "0/1");
}

#[test]
fn ports_are_shown_with_their_name_first() {
    let ports = vec![
        ServicePort { name: Some("http".to_string()), port: 80, target_port: None, protocol: "TCP".to_string() },
        ServicePort { name: None, port: 53, target_port: None, protocol: "UDP".to_string() },
    ];
    assert_eq!(ports_text(&ports), "http:80/TCP,53/UDP");
    assert_eq!(ports_text(&Vec::new()), "");
}

fn state() -> AppState {
    let mut app = AppState::new(0);
    app.current_namespace = "prod".to_string();
    app
}

#[test]
fn rows_of_pods_and_services() {
    let mut app = state();
    app.resources.pods.replace(vec![Pod {
        name: "web-1".to_string(),
        namespace: "prod".to_string(),
        status: PodStatus { phase: "Running".to_string(), conditions: None, container_statuses: None },
        ready: "1/2".to_string(),
        restarts: 7,
        age: "3d".to_string(),
        node: None,
        ip: Some("10.0.0.1".to_string()),
    }]);
    assert_eq!(app.table_rows(ResourceKind::Pod), vec![strings(&["web-1", "1/2", "Running", "7", "3d", "<none>"])]);
    assert_eq!(app.table_title(ResourceKind::Pod), "Pods in namespace: prod (1)");
    app.resources.services.replace(vec![Service {
        name: "svc".to_string(),
        namespace: "prod".to_string(),
        type_: "ClusterIP".to_string(),
        cluster_ip: "10.0.0.9".to_string(),
        external_ip: Some("1.2.3.4".to_string()),
        ports: vec![ServicePort { name: None, port: 443, target_port: None, protocol: "TCP".to_string() }],
        age: "1h".to_string(),
    }]);
    assert_eq!(
        app.table_rows(ResourceKind::Service),
        vec![strings(&["svc", "ClusterIP", "10.0.0.9", "1.2.3.4", "443/TCP", "1h"])]
    );
}

#[test]
fn rows_of_other_kinds() {
    let mut app = state();
    app.resources.jobs.replace(vec![Job {
        name: "j".to_string(),
        namespace: "prod".to_string(),
        completions: None,
        successful: 1,
        age: "5m".to_string(),
        duration: Some("<calculated>".to_string()),
        status: "Complete".to_string(),
    }]);
    assert_eq!(app.table_rows(ResourceKind::Job), vec![strings(&["j", "1/1", "<calculated>", "Complete", "5m"])]);
    app.resources.nodes.replace(vec![Node {
        name: "n1".to_string(),
        status: "Ready".to_string(),
        roles: strings(&["control-plane", "etcd"]),
        age: "9d".to_string(),
        version: "v1.30".to_string(),
        internal_ip: Some("10.0.0.1".to_string()),
        external_ip: None,
        os_image: None,
        kernel_version: None,
        container_runtime: Some("containerd".to_string()),
    }]);
    assert_eq!(
        app.table_rows(ResourceKind::Node),
        vec![strings(&["n1", "Ready", "control-plane,etcd", "9d", "v1.30", "10.0.0.1", "<none>", "<none>", "<none>", "containerd"])]
    );
    app.resources.pvcs.replace(vec![PersistentVolumeClaim {
        name: "c".to_string(),
        namespace: "prod".to_string(),
        status: "Bound".to_string(),
        volume: Some("pv".to_string()),
        capacity: None,
        access_modes: strings(&["ReadWriteOnce"]),
        storage_class: None,
        age: "1d".to_string(),
    }]);
    assert_eq!(
        app.table_rows(ResourceKind::PVC),
        vec![strings(&["c", "Bound", "pv", "<none>", "ReadWriteOnce", "<none>", "1d"])]
    );
    app.resources.pvs.replace(vec![PersistentVolume {
        name: "pv".to_string(),
        capacity: "1Gi".to_string(),
        access_modes: Vec::new(),
        reclaim_policy: "Retain".to_string(),
        status: "Bound".to_string(),
        claim: Some("prod/c".to_string()),
        storage_class: Some("fast".to_string()),
        age: "1d".to_string(),
    }]);
    assert_eq!(
        app.table_rows(ResourceKind::PV),
        vec![strings(&["pv", "1Gi", "", "Retain", "Bound", "prod/c", "fast", "1d"])]
    );
    app.resources.configmaps.replace(vec![ConfigMap {
        name: "cm".to_string(),
        namespace: "prod".to_string(),
        data_count: 12,
        age: "2h".to_string(),
    }]);
    assert_eq!(app.table_rows(ResourceKind::ConfigMap), vec![strings(&["cm", "12", "2h"])]);
    app.resources.ingresses.replace(vec![Ingress {
        name: "in".to_string(),
        namespace: "prod".to_string(),
        hosts: strings(&["a.example", "b.example"]),
        age: "2h".to_string(),
    }]);
    assert_eq!(app.table_rows(ResourceKind::Ingress), vec![strings(&["in", "prod", "a.example,b.example", "2h"])]);
    assert!(app.table_rows(ResourceKind::Secret).is_empty());
}

#[test]
fn titles_count_the_items() {
    let mut app = state();
    assert_eq!(app.table_title(ResourceKind::Pod), "Pods in namespace: prod");
    assert_eq!(app.table_title(ResourceKind::Secret), "Secrets in namespace: prod");
    assert_eq!(app.table_title(ResourceKind::Deployment), "Deployments");
    assert_eq!(app.table_title(ResourceKind::ClusterRoleBinding), "Cluster Role Bindings");
    assert_eq!(app.table_title(ResourceKind::Namespace), "Namespaces (0)");
    app.resources.configmaps.replace(vec![
        ConfigMap { name: "a".to_string(), namespace: "prod".to_string(), data_count: 0, age: "1d".to_string() },
        ConfigMap { name: "b".to_string(), namespace: "prod".to_string(), data_count: 0, age: "1d".to_string() },
    ]);
    assert_eq!(app.table_title(ResourceKind::ConfigMap), "ConfigMaps in namespace: prod (2)");
}

#[test]
fn namespaces_mark_the_current_one() {
    let mut app = state();
    app.resources.namespaces.replace(
        ["default", "prod", "dev"]
            .iter()
            .map(|n| Namespace { name: n.to_string(), status: "Active".to_string(), age: "Unknown".to_string() })
            .collect(),
    );
    assert_eq!(app.namespace_lines(), vec!["  default", "● prod", "  dev"]);
    assert_eq!(app.table_rows(ResourceKind::Namespace), vec![strings(&["default"]), strings(&["prod"]), strings(&["dev"])]);
    assert_eq!(app.table_title(ResourceKind::Namespace), "Namespaces (3)");
}
