use kube_tui::kubectl::client::{
    age_after, calculate_age, count_in, kind_of_resource_type, number_in, owned_text_in,
    parse_container_metrics_line, parse_items, parse_node, parse_pod, parse_port, parse_pv,
    parse_service, parse_statefulset, ratio, text_in_or, texts_in, ClientError,
    MetricsError, MissingField, ParseError, UnixTime, YamlError,
};
use kube_tui::kubectl::json::{as_array, as_bool, as_number, as_object, as_text, get, parse_json, Json};
use kube_tui::kubectl::KubectlClient;
use kube_tui::mode::ResourceKind;
use kube_tui::text::remove_all;
use std::time::Duration;

fn json(text: &str) -> Json {
    parse_json(text).unwrap()
}

/// 2001-01-03T00:00:00Z.
const NOW: UnixTime = UnixTime { secs: 978480000, nanos: 0 };

#[test]
fn client_timeout() {
    assert_eq!(KubectlClient::new().timeout(), Duration::from_secs(30));
    assert_eq!(KubectlClient::new().timeout_secs(), 30);
    let client = KubectlClient::with_timeout(Duration::from_millis(2500));
    assert_eq!(client.timeout(), Duration::from_millis(2500));
    assert_eq!(client.timeout_secs(), 2);
}

#[test]
fn client_availability() {
    let client = KubectlClient::new();
    assert!(client.check_available(true, false));
    assert!(client.check_available(false, true));
    assert!(!client.check_available(false, false));
}

#[test]
fn parse_json_reads_every_sort_of_value() {
    let doc = json(r#"{"a": null, "b": true, "c": 42, "d": "text", "e": [1, "x"], "f": {"g": -1, "h": 1.5}}"#);
    let root = Some(&doc);
    assert!(matches!(get(root, "a"), Some(Json::Null)));
    assert_eq!(as_bool(get(root, "b")), Some(true));
    assert_eq!(as_number(get(root, "c")), Some(42));
    assert_eq!(as_text(get(root, "d")).map(|s| s.as_str()), Some("text"));
    let elements = as_array(get(root, "e")).unwrap();
    assert_eq!(elements.len(), 2);
    assert_eq!(as_number(Some(&elements[0])), Some(1));
    assert_eq!(as_text(Some(&elements[1])).map(|s| s.as_str()), Some("x"));
    let members = as_object(get(root, "f")).unwrap();
    assert_eq!(members.len(), 2);
    // Negative and fractional numbers hold no unsigned integer.
    assert!(matches!(get(get(root, "f"), "g"), Some(Json::Number(None))));
    assert_eq!(as_number(get(get(root, "f"), "h")), None);
    assert!(get(root, "missing").is_none());
    assert!(get(get(root, "d"), "x").is_none());
    assert!(get(None, "a").is_none());
    assert_eq!(as_text(get(root, "c")), None);
    assert_eq!(as_bool(get(root, "d")), None);
    assert!(as_array(get(root, "f")).is_none());
    assert!(as_object(get(root, "e")).is_none());
}

#[test]
fn parse_json_keeps_large_numbers_and_member_order() {
    let doc = json(r#"{"zeta": 18446744073709551615, "alpha": 18446744073709551616, "mid": 0}"#);
    assert_eq!(as_number(get(Some(&doc), "zeta")), Some(u64::MAX));
    assert_eq!(as_number(get(Some(&doc), "alpha")), None);
    let keys: Vec<&str> = as_object(Some(&doc)).unwrap().iter().map(|(k, _)| k.as_str()).collect();
    assert_eq!(keys, vec!["alpha", "mid", "zeta"]);
}

#[test]
fn parse_json_refuses_what_is_no_json() {
    for text in ["", "{", "{\"a\": }", "not json", "[1, 2", "{\"a\": 1} trailing"] {
        let error = parse_json(text).unwrap_err();
        assert!(!error.message.is_empty());
    }
    assert!(parse_json("[]").is_ok());
    assert!(parse_json(" 3 ").is_ok());
}

#[test]
fn first_member_of_a_name_wins_in_hand_made_objects() {
    let doc = Json::Object(vec![
        ("k".to_string(), Json::Number(Some(1))),
        ("k".to_string(), Json::Number(Some(2))),
    ]);
    assert_eq!(number_in(Some(&doc), "k"), Some(1));
}

#[test]
fn field_readers() {
    let doc = json(r#"{"s": "x", "n": 4294967297, "z": 0, "list": ["a", 1, "b", null]}"#);
    let root = Some(&doc);
    assert_eq!(text_in_or(root, "s", "default"), "x");
    assert_eq!(text_in_or(root, "n", "default"), "default");
    assert_eq!(text_in_or(root, "missing", ""), "");
    assert_eq!(owned_text_in(root, "s"), Some("x".to_string()));
    assert_eq!(owned_text_in(root, "z"), None);
    assert_eq!(count_in(root, "n"), 1);
    assert_eq!(count_in(root, "z"), 0);
    assert_eq!(count_in(root, "s"), 0);
    assert_eq!(texts_in(root, "list"), vec!["a", "b"]);
    assert_eq!(texts_in(root, "s"), Vec::<String>::new());
    assert_eq!(ratio(3, 12), "3/12");
    assert_eq!(ratio(0, 0), "0/0");
}

const POD: &str = r#"{
  "metadata": {"name": "web-1", "namespace": "prod", "creationTimestamp": "2001-01-01T00:00:00Z"},
  "spec": {"nodeName": "node-a", "containers": [{"name": "app"}, {"name": "sidecar"}, {"name": "init"}]},
  "status": {
    "phase": "Running",
    "podIP": "10.1.2.3",
    "containerStatuses": [
      {"ready": true, "restartCount": 2},
      {"ready": false, "restartCount": 5},
      {"ready": true},
      {"ready": "yes", "restartCount": 4294967296}
    ]
  }
}"#;

#[test]
fn pod_is_read_from_its_json_form() {
    let pod = parse_pod(&json(POD), NOW).unwrap();
    assert_eq!(pod.name, "web-1");
    assert_eq!(pod.namespace, "prod");
    assert_eq!(pod.status.phase, "Running");
    assert!(pod.status.conditions.is_none());
    assert!(pod.status.container_statuses.is_none());
    assert_eq!(pod.ready, "2/3");
    assert_eq!(pod.restarts, 7);
    assert_eq!(pod.age, "2d");
    assert_eq!(pod.node.as_deref(), Some("node-a"));
    assert_eq!(pod.ip.as_deref(), Some("10.1.2.3"));
}

#[test]
fn pod_defaults() {
    let pod = parse_pod(&json(r#"{"metadata": {"name": "p", "namespace": "n"}}"#), NOW).unwrap();
    assert_eq!(pod.status.phase, "Unknown");
    assert_eq!(pod.ready, "0/0");
    assert_eq!(pod.restarts, 0);
    assert_eq!(pod.age, "Unknown");
    assert_eq!(pod.node, None);
    assert_eq!(pod.ip, None);
}

#[test]
fn restart_counts_wrap_at_32_bits() {
    let doc = json(
        r#"{"metadata": {"name": "p", "namespace": "n"},
            "status": {"containerStatuses": [{"restartCount": 4294967295}, {"restartCount": 3}]}}"#,
    );
    assert_eq!(parse_pod(&doc, NOW).unwrap().restarts, 2);
}

#[test]
fn missing_name_and_namespace_are_told_apart() {
    let no_name = parse_pod(&json(r#"{"metadata": {"namespace": "n"}}"#), NOW).unwrap_err();
    assert_eq!(no_name, ParseError { kind: ResourceKind::Pod, field: MissingField::Name });
    let no_namespace = parse_pod(&json(r#"{"metadata": {"name": "p"}}"#), NOW).unwrap_err();
    assert_eq!(no_namespace, ParseError { kind: ResourceKind::Pod, field: MissingField::Namespace });
    let neither = parse_service(&json("{}"), NOW).unwrap_err();
    assert_eq!(neither, ParseError { kind: ResourceKind::Service, field: MissingField::Name });
    let number_as_name = parse_pod(&json(r#"{"metadata": {"name": 7, "namespace": "n"}}"#), NOW).unwrap_err();
    assert_eq!(number_as_name.field, MissingField::Name);
    // Kinds outside namespaces need a name only.
    assert!(parse_node(&json(r#"{"metadata": {"name": "n1"}}"#), NOW).is_ok());
    assert!(parse_pv(&json(r#"{"metadata": {"name": "pv1"}}"#), NOW).is_ok());
    assert_eq!(
        parse_pv(&json("{}"), NOW).unwrap_err(),
        ParseError { kind: ResourceKind::PV, field: MissingField::Name }
    );
}

#[test]
fn service_with_ports() {
    let doc = json(
        r#"{"metadata": {"name": "svc", "namespace": "n"},
            "spec": {"type": "NodePort", "clusterIP": "10.0.0.9", "externalIPs": ["1.2.3.4", "5.6.7.8"],
                     "ports": [
                        {"name": "http", "port": 80, "targetPort": "web", "protocol": "TCP"},
                        {"name": "skipped"},
                        {"port": 65537, "targetPort": 8080},
                        {"port": "53"}
                     ]}}"#,
    );
    let service = parse_service(&doc, NOW).unwrap();
    assert_eq!(service.type_, "NodePort");
    assert_eq!(service.cluster_ip, "10.0.0.9");
    assert_eq!(service.external_ip.as_deref(), Some("1.2.3.4"));
    assert_eq!(service.ports.len(), 2);
    assert_eq!(service.ports[0].name.as_deref(), Some("http"));
    assert_eq!(service.ports[0].port, 80);
    assert_eq!(service.ports[0].target_port.as_deref(), Some("web"));
    assert_eq!(service.ports[0].protocol, "TCP");
    assert_eq!(service.ports[1].name, None);
    assert_eq!(service.ports[1].port, 1);
    assert_eq!(service.ports[1].target_port, None);
    assert_eq!(service.ports[1].protocol, "TCP");
    assert!(parse_port(&json(r#"{"name": "x"}"#)).is_err());
}

#[test]
fn service_defaults() {
    let service = parse_service(&json(r#"{"metadata": {"name": "svc", "namespace": "n"}, "spec": {"externalIPs": []}}"#), NOW).unwrap();
    assert_eq!(service.type_, "ClusterIP");
    assert_eq!(service.cluster_ip, "None");
    assert_eq!(service.external_ip, None);
    assert!(service.ports.is_empty());
}

#[test]
fn node_status_roles_and_addresses() {
    let doc = json(
        r#"{"metadata": {"name": "n1",
                         "labels": {"node-role.kubernetes.io/control-plane": "", "zone": "a", "node-role.kubernetes.io/": "", "node-role.kubernetes.io/etcd": ""}},
            "status": {"conditions": [{"type": "MemoryPressure", "status": "False"}, {"type": "Ready", "status": "True"}, {"type": "Ready", "status": "False"}],
                       "addresses": [{"type": "InternalIP", "address": "10.0.0.1"}, {"type": "Hostname", "address": "n1"},
                                     {"type": "ExternalIP", "address": "8.8.8.8"}, {"type": "InternalIP", "address": "10.0.0.2"}],
                       "nodeInfo": {"kubeletVersion": "v1.30.0", "osImage": "Linux", "kernelVersion": "6.1", "containerRuntimeVersion": "containerd://1.7"}}}"#,
    );
    let node = parse_node(&doc, NOW).unwrap();
    assert_eq!(node.status, "Ready");
    assert_eq!(node.roles, vec!["", "control-plane", "etcd"]);
    assert_eq!(node.version, "v1.30.0");
    assert_eq!(node.internal_ip.as_deref(), Some("10.0.0.2"));
    assert_eq!(node.external_ip.as_deref(), Some("8.8.8.8"));
    assert_eq!(node.os_image.as_deref(), Some("Linux"));
    assert_eq!(node.kernel_version.as_deref(), Some("6.1"));
    assert_eq!(node.container_runtime.as_deref(), Some("containerd://1.7"));
}

#[test]
fn node_defaults() {
    let bare = parse_node(&json(r#"{"metadata": {"name": "n1"}}"#), NOW).unwrap();
    assert_eq!(bare.status, "Unknown");
    assert_eq!(bare.roles, vec!["unknown"]);
    assert_eq!(bare.version, "unknown");
    assert_eq!(bare.internal_ip, None);
    let worker = parse_node(&json(
        r#"{"metadata": {"name": "n1", "labels": {"zone": "a"}},
            "status": {"conditions": [{"type": "Ready", "status": "Unknown"}],
                       "addresses": [{"type": "InternalIP", "address": "10.0.0.1"}, {"type": "InternalIP"}]}}"#,
    ), NOW)
    .unwrap();
    assert_eq!(worker.status, "NotReady");
    assert_eq!(worker.roles, vec!["worker"]);
    // The last address of a type counts, even if it holds none.
    assert_eq!(worker.internal_ip, None);
    let no_ready = parse_node(&json(r#"{"metadata": {"name": "n1"}, "status": {"conditions": [{"type": "DiskPressure"}]}}"#), NOW).unwrap();
    assert_eq!(no_ready.status, "Unknown");
}

#[test]
fn lists_leave_out_what_cannot_be_read() {
    let client = KubectlClient::new();
    let output = r#"{"items": [
        {"metadata": {"name": "a", "namespace": "n"}},
        {"metadata": {"namespace": "n"}},
        "not an object",
        {"metadata": {"name": "c", "namespace": "n"}}
    ]}"#;
    let pods = client.get_pods(output, NOW).unwrap();
    assert_eq!(pods.iter().map(|p| p.name.as_str()).collect::<Vec<_>>(), vec!["a", "c"]);
    let services = client.get_services(output, NOW).unwrap();
    assert_eq!(services.len(), 2);
    // Kinds that name their defaults read every item.
    let roles = client.get_roles(output, NOW).unwrap();
    assert_eq!(
        roles.iter().map(|r| (r.name.as_str(), r.namespace.as_str())).collect::<Vec<_>>(),
        vec![("a", "n"), ("Unknown", "n"), ("Unknown", "default"), ("c", "n")]
    );
    let cluster_roles = client.get_cluster_roles(output, NOW).unwrap();
    assert_eq!(cluster_roles.len(), 4);
}

#[test]
fn list_errors() {
    let client = KubectlClient::new();
    assert!(matches!(client.get_pods("garbage", NOW), Err(ClientError::InvalidJson(_))));
    assert!(matches!(client.get_pods("{}", NOW), Err(ClientError::MissingItems)));
    assert!(matches!(client.get_pods(r#"{"items": {}}"#, NOW), Err(ClientError::MissingItems)));
    assert!(matches!(client.get_nodes("[]", NOW), Err(ClientError::MissingItems)));
    assert!(matches!(client.get_service_accounts("", NOW), Err(ClientError::InvalidJson(_))));
    assert_eq!(client.get_pods(r#"{"items": []}"#, NOW).unwrap().len(), 0);
    assert!(matches!(parse_items("{}"), Err(ClientError::MissingItems)));
    assert!(parse_items(r#"{"items": [1]}"#).is_ok());
}

#[test]
fn other_kinds_are_read() {
    let client = KubectlClient::new();
    let deployments = client
        .get_deployments(
            r#"{"items": [{"metadata": {"name": "d", "namespace": "n"}, "spec": {"replicas": 3},
                           "status": {"readyReplicas": 2, "updatedReplicas": 3, "availableReplicas": 1}}]}"#,
            NOW,
        )
        .unwrap();
    assert_eq!((deployments[0].ready.as_str(), deployments[0].up_to_date, deployments[0].available), ("2/3", 3, 1));

    let jobs = client
        .get_jobs(
            r#"{"items": [
                {"metadata": {"name": "done", "namespace": "n"}, "spec": {"completions": 2},
                 "status": {"succeeded": 2, "failed": 1, "startTime": "t0", "completionTime": "t1"}},
                {"metadata": {"name": "bad", "namespace": "n"}, "status": {"failed": 1, "active": 1, "startTime": "t0"}},
                {"metadata": {"name": "busy", "namespace": "n"}, "status": {"active": 1}},
                {"metadata": {"name": "new", "namespace": "n"}}
            ]}"#,
            NOW,
        )
        .unwrap();
    let summary: Vec<(&str, Option<u32>, u32, Option<&str>)> =
        jobs.iter().map(|j| (j.status.as_str(), j.completions, j.successful, j.duration.as_deref())).collect();
    assert_eq!(
        summary,
        vec![
            ("Complete", Some(2), 2, Some("<calculated>")),
            ("Failed", None, 0, None),
            ("Running", None, 0, None),
            ("Pending", None, 0, None),
        ]
    );

    let daemonsets = client
        .get_daemonsets(
            r#"{"items": [{"metadata": {"name": "d", "namespace": "n"},
                "status": {"desiredNumberScheduled": 5, "currentNumberScheduled": 4, "numberReady": 3,
                           "updatedNumberScheduled": 2, "numberAvailable": 1}}]}"#,
            NOW,
        )
        .unwrap();
    let d = &daemonsets[0];
    assert_eq!((d.desired, d.current, d.ready, d.up_to_date, d.available), (5, 4, 3, 2, 1));

    let configmaps = client
        .get_configmaps(r#"{"items": [{"metadata": {"name": "c", "namespace": "n"}, "data": {"a": "1", "b": "2"}}]}"#, NOW)
        .unwrap();
    assert_eq!(configmaps[0].data_count, 2);
    let secrets = client
        .get_secrets(r#"{"items": [{"metadata": {"name": "s", "namespace": "n"}, "type": "kubernetes.io/tls", "data": {"k": "v"}},
                                      {"metadata": {"name": "t", "namespace": "n"}}]}"#, NOW)
        .unwrap();
    assert_eq!((secrets[0].type_.as_str(), secrets[0].data_count), ("kubernetes.io/tls", 1));
    assert_eq!((secrets[1].type_.as_str(), secrets[1].data_count), ("Opaque", 0));

    let pvcs = client
        .get_pvcs(
            r#"{"items": [{"metadata": {"name": "claim", "namespace": "n"},
                "spec": {"accessModes": ["ReadWriteOnce", 7, "ReadOnlyMany"], "storageClassName": "fast"},
                "status": {"phase": "Bound", "volumeName": "pv-1", "capacity": {"storage": "1Gi"}}}]}"#,
            NOW,
        )
        .unwrap();
    let claim = &pvcs[0];
    assert_eq!(claim.status, "Bound");
    assert_eq!(claim.volume.as_deref(), Some("pv-1"));
    assert_eq!(claim.capacity.as_deref(), Some("1Gi"));
    assert_eq!(claim.access_modes, vec!["ReadWriteOnce", "ReadOnlyMany"]);
    assert_eq!(claim.storage_class.as_deref(), Some("fast"));

    let pvs = client
        .get_pvs(
            r#"{"items": [{"metadata": {"name": "pv-1"},
                "spec": {"capacity": {"storage": "5Gi"}, "accessModes": ["ReadWriteOnce"],
                         "claimRef": {"namespace": "n", "name": "claim"}},
                "status": {"phase": "Bound"}},
               {"metadata": {"name": "pv-2"}, "spec": {"claimRef": {}, "persistentVolumeReclaimPolicy": "Delete"}},
               {"metadata": {"name": "pv-3"}}]}"#,
            NOW,
        )
        .unwrap();
    assert_eq!(pvs[0].capacity, "5Gi");
    assert_eq!(pvs[0].reclaim_policy, "Retain");
    assert_eq!(pvs[0].status, "Bound");
    assert_eq!(pvs[0].claim.as_deref(), Some("n/claim"));
    assert_eq!(pvs[1].claim.as_deref(), Some("/"));
    assert_eq!(pvs[1].reclaim_policy, "Delete");
    assert_eq!(pvs[2].claim, None);
    assert_eq!(pvs[2].capacity, "Unknown");
    assert_eq!(pvs[2].status, "Unknown");

    let ingresses = client
        .get_ingresses(r#"{"items": [{"metadata": {"name": "i"}, "spec": {"rules": [{"host": "a.example"}, {}, {"host": "b.example"}]}}]}"#, NOW)
        .unwrap();
    assert_eq!(ingresses[0].namespace, "default");
    assert_eq!(ingresses[0].hosts, vec!["a.example", "b.example"]);

    let sets = client
        .get_statefulsets(r#"{"items": [{"metadata": {"namespace": "n"}, "status": {"replicas": 18446744073709551615, "readyReplicas": 1}}]}"#, NOW)
        .unwrap();
    assert_eq!(sets[0].name, "Unknown");
    assert_eq!(sets[0].ready, "1/18446744073709551615");
    assert_eq!(parse_statefulset(&json("{}"), NOW).unwrap().ready, "0/0");

    for output in [r#"{"items": [{"metadata": {"name": "x", "namespace": "n"}}]}"#] {
        assert_eq!(client.get_network_policies(output, NOW).unwrap()[0].name, "x");
        assert_eq!(client.get_role_bindings(output, NOW).unwrap()[0].namespace, "n");
        assert_eq!(client.get_cluster_role_bindings(output, NOW).unwrap()[0].name, "x");
        assert_eq!(client.get_service_accounts(output, NOW).unwrap()[0].name, "x");
    }
}

#[test]
fn age_after_shows_days_hours_or_minutes() {
    assert_eq!(age_after(0), "0m");
    assert_eq!(age_after(59), "0m");
    assert_eq!(age_after(60), "1m");
    assert_eq!(age_after(3599), "59m");
    assert_eq!(age_after(3600), "1h");
    assert_eq!(age_after(86399), "23h");
    assert_eq!(age_after(86400), "1d");
    assert_eq!(age_after(86400 * 400 + 5), "400d");
    assert_eq!(age_after(i64::MAX), "106751991167300d");
    // An object from the future.
    assert_eq!(age_after(-1), "0m");
    assert_eq!(age_after(-60), "-1m");
    assert_eq!(age_after(-3599), "-59m");
    assert_eq!(age_after(-3600), "0m");
    assert_eq!(age_after(-3661), "-1m");
    assert_eq!(age_after(i64::MIN), "-30m");
}

#[test]
fn age_is_unknown_without_a_readable_time() {
    assert_eq!(calculate_age(None, NOW), "Unknown");
    for text in ["", "yesterday", "2001-01-01", "2001-13-01T00:00:00Z", "2001-01-01 00:00:00+25:00"] {
        assert_eq!(calculate_age(Some(&text.to_string()), NOW), "Unknown");
    }
}

#[test]
fn age_is_counted_from_the_creation_time() {
    let at = |text: &str, now: UnixTime| calculate_age(Some(&text.to_string()), now);
    assert_eq!(at("2001-01-01T00:00:00Z", NOW), "2d");
    assert_eq!(at("2001-01-01T00:00:00+02:00", NOW), "2d");
    assert_eq!(at("2001-01-01T00:00:00-02:00", NOW), "1d");
    assert_eq!(at("2001-01-02T21:00:00Z", NOW), "3h");
    assert_eq!(at("2001-01-02T23:59:00Z", NOW), "1m");
    assert_eq!(at("2001-01-02T23:59:01Z", NOW), "0m");
    assert_eq!(at("2001-01-03T00:00:00Z", NOW), "0m");
    assert_eq!(at("2001-01-03T00:05:00Z", NOW), "-5m");
    assert_eq!(at("2001-01-03T01:05:30Z", NOW), "-5m");
    // Fractions of a second are cut off towards zero.
    assert_eq!(at("2001-01-02T23:59:00.500Z", NOW), "0m");
    assert_eq!(at("2001-01-02T23:59:00.500Z", UnixTime { secs: NOW.secs, nanos: 500_000_000 }), "1m");
    assert_eq!(at("1970-01-01T00:00:00Z", UnixTime { secs: 86400 * 365, nanos: 0 }), "365d");
    // A moment that no date can tell gives no age.
    assert_eq!(at("2001-01-01T00:00:00Z", UnixTime { secs: i64::MAX, nanos: 0 }), "Unknown");
    assert_eq!(at("2001-01-01T00:00:00Z", UnixTime { secs: 0, nanos: u32::MAX }), "Unknown");
}

#[test]
fn remove_all_agrees_with_the_standard_library() {
    for text in ["namespace/default", "default", "", "namespace/", "namespace/namespace/x", "a/namespace/b", "namespace", "nnamespace/amespace/"] {
        assert_eq!(remove_all(text, "namespace/"), text.replace("namespace/", ""));
    }
    assert_eq!(remove_all("aaa", "aa"), "a");
    assert_eq!(remove_all("abc", ""), "abc");
    assert_eq!(remove_all("ababab", "ab"), "");
}

#[test]
fn namespaces_are_read_line_by_line() {
    let client = KubectlClient::new();
    let namespaces = client.get_namespaces("namespace/default\nnamespace/kube-system\r\nplain\n");
    let names: Vec<&str> = namespaces.iter().map(|n| n.name.as_str()).collect();
    assert_eq!(names, vec!["default", "kube-system", "plain"]);
    assert!(namespaces.iter().all(|n| n.status == "Active" && n.age == "Unknown"));
    assert!(client.get_namespaces("").is_empty());
}

#[test]
fn logs_are_split_into_lines() {
    let client = KubectlClient::new();
    assert_eq!(client.get_pod_logs("first\nsecond\r\n\nlast"), vec!["first", "second", "", "last"]);
    assert!(client.get_pod_logs("").is_empty());
}

#[test]
fn pod_metrics_lines() {
    let client = KubectlClient::new();
    let metrics = client.parse_pod_metrics_line(&"web-1   12m   34Mi  extra".to_string(), "prod").unwrap();
    assert_eq!((metrics.name.as_str(), metrics.namespace.as_str(), metrics.cpu.as_str(), metrics.memory.as_str()), ("web-1", "prod", "12m", "34Mi"));
    assert!(metrics.containers.is_empty());
    assert_eq!(client.parse_pod_metrics_line(&"web-1 12m".to_string(), "prod").unwrap_err(), MetricsError::InvalidLine);
    assert_eq!(client.parse_pod_metrics_line(&"".to_string(), "prod").unwrap_err(), MetricsError::InvalidLine);
    assert_eq!(MetricsError::InvalidLine.message(), "Invalid metrics line format");

    let all = client.get_pod_metrics("web-1 12m 34Mi\n\n   \nbroken line\ndb-0\t1\t2Gi\n", "prod");
    let names: Vec<&str> = all.iter().map(|m| m.name.as_str()).collect();
    assert_eq!(names, vec!["web-1", "db-0"]);
    assert_eq!(all[1].cpu, "1");
    assert_eq!(all[1].memory, "2Gi");
}

#[test]
fn container_metrics_lines() {
    let client = KubectlClient::new();
    let metrics = parse_container_metrics_line(&"web-1  app  5m  20Mi".to_string()).unwrap();
    assert_eq!((metrics.name.as_str(), metrics.cpu.as_str(), metrics.memory.as_str()), ("app", "5m", "20Mi"));
    assert_eq!(
        parse_container_metrics_line(&"web-1 app 5m".to_string()).unwrap_err(),
        MetricsError::InvalidContainerLine
    );
    assert_eq!(MetricsError::InvalidContainerLine.message(), "Invalid container metrics line format");
    let all = client.get_container_metrics("web-1 app 5m 20Mi\nweb-1 sidecar 1m 2Mi\n\nshort\n");
    assert_eq!(all.iter().map(|m| m.name.as_str()).collect::<Vec<_>>(), vec!["app", "sidecar"]);
}

#[test]
fn yaml_dispatch_by_resource_type() {
    let client = KubectlClient::new();
    assert_eq!(
        client.get_yaml("pod", Some("default"), "nginx").unwrap(),
        vec!["get", "pod", "-n", "default", "nginx", "-o", "yaml"]
    );
    assert_eq!(client.get_yaml("pvc", Some("n"), "c").unwrap(), vec!["get", "pvc", "-n", "n", "c", "-o", "yaml"]);
    assert_eq!(client.get_yaml("node", None, "n1").unwrap(), vec!["get", "node", "n1", "-o", "yaml"]);
    assert_eq!(client.get_yaml("pv", Some("ignored"), "disk").unwrap(), vec!["get", "pv", "disk", "-o", "yaml"]);
    for kind_word in ["pod", "service", "deployment", "job", "daemonset", "configmap", "secret", "pvc"] {
        match client.get_yaml(kind_word, None, "x") {
            Err(YamlError::NamespaceRequired { kind }) => assert_eq!(Some(kind), kind_of_resource_type(kind_word)),
            other => panic!("unexpected result: {:?}", other),
        }
    }
    for refused in ["", "Pod", "statefulset", "pods", "ingress"] {
        match client.get_yaml(refused, Some("n"), "x") {
            Err(YamlError::Unsupported { resource_type }) => assert_eq!(resource_type, refused),
            other => panic!("unexpected result: {:?}", other),
        }
    }
    assert_eq!(kind_of_resource_type("daemonset"), Some(ResourceKind::DaemonSet));
    assert_eq!(kind_of_resource_type("node"), Some(ResourceKind::Node));
}
