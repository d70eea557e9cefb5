use kube_tui::mode::{AppMode, ModeGraph, ResourceKind};

const LIST_MODES: [AppMode; 19] = [
    AppMode::NamespaceList,
    AppMode::PodList,
    AppMode::ServiceList,
    AppMode::DeploymentList,
    AppMode::JobList,
    AppMode::DaemonSetList,
    AppMode::PVCList,
    AppMode::PVList,
    AppMode::NodeList,
    AppMode::ConfigMapList,
    AppMode::SecretList,
    AppMode::StatefulSetList,
    AppMode::IngressList,
    AppMode::NetworkPolicyList,
    AppMode::RoleList,
    AppMode::RoleBindingList,
    AppMode::ClusterRoleList,
    AppMode::ClusterRoleBindingList,
    AppMode::ServiceAccountList,
];

const OTHER_MODES: [AppMode; 8] = [
    AppMode::Logs,
    AppMode::Describe,
    AppMode::YamlView,
    AppMode::TopView,
    AppMode::Search,
    AppMode::Confirm,
    AppMode::Help,
    AppMode::MoreResources,
];

#[test]
fn list_modes_and_kinds_determine_each_other() {
    for mode in LIST_MODES {
        assert!(mode.is_list());
        assert!(!mode.is_detail_view());
        let kind = mode.resource_kind().unwrap();
        assert_eq!(kind.list_mode(), mode);
    }
    for mode in OTHER_MODES {
        assert!(!mode.is_list());
        assert_eq!(mode.resource_kind(), None);
    }
    assert_eq!(AppMode::PVCList.resource_kind(), Some(ResourceKind::PVC));
}

#[test]
fn four_modes_are_detail_views() {
    let details: Vec<AppMode> = OTHER_MODES.iter().copied().filter(|m| m.is_detail_view()).collect();
    assert_eq!(details, vec![AppMode::Logs, AppMode::Describe, AppMode::YamlView, AppMode::TopView]);
}

#[test]
fn core_ring_has_ten_lists_and_closes() {
    let mut mode = AppMode::PodList;
    let mut seen = Vec::new();
    for _ in 0..10 {
        seen.push(mode);
        mode = mode.cycle_forward();
    }
    assert_eq!(mode, AppMode::PodList);
    assert_eq!(
        seen,
        vec![
            AppMode::PodList,
            AppMode::ServiceList,
            AppMode::DeploymentList,
            AppMode::JobList,
            AppMode::DaemonSetList,
            AppMode::PVCList,
            AppMode::PVList,
            AppMode::NodeList,
            AppMode::ConfigMapList,
            AppMode::SecretList,
        ]
    );
}

#[test]
fn second_ring_has_eight_lists_and_closes() {
    let mut mode = AppMode::StatefulSetList;
    let mut count = 0;
    loop {
        mode = mode.cycle_forward();
        count += 1;
        if mode == AppMode::StatefulSetList {
            break;
        }
        assert!(count < 20);
    }
    assert_eq!(count, 8);
    assert_eq!(AppMode::ServiceAccountList.cycle_forward(), AppMode::StatefulSetList);
    assert_eq!(AppMode::StatefulSetList.cycle_backward(), AppMode::ServiceAccountList);
}

#[test]
fn backward_undoes_forward_inside_the_rings() {
    for mode in LIST_MODES {
        if mode == AppMode::NamespaceList {
            continue;
        }
        assert_eq!(mode.cycle_forward().cycle_backward(), mode);
        assert_eq!(mode.cycle_backward().cycle_forward(), mode);
    }
}

#[test]
fn namespace_list_leads_into_the_core_ring() {
    assert_eq!(AppMode::NamespaceList.cycle_forward(), AppMode::PodList);
    assert_eq!(AppMode::NamespaceList.cycle_backward(), AppMode::SecretList);
}

#[test]
fn cycling_leaves_other_modes_alone() {
    for mode in OTHER_MODES {
        assert_eq!(mode.cycle_forward(), mode);
        assert_eq!(mode.cycle_backward(), mode);
    }
}

#[test]
fn graph_starts_at_the_namespace_list() {
    let g = ModeGraph::new();
    assert_eq!(g.current, AppMode::NamespaceList);
    assert_eq!(g.previous, AppMode::NamespaceList);
}

#[test]
fn previous_mode_is_overwritten_not_stacked() {
    let mut g = ModeGraph::new();
    g.jump(AppMode::PodList);
    g.enter_overlay_or_detail(AppMode::Describe);
    assert_eq!((g.current, g.previous), (AppMode::Describe, AppMode::PodList));
    // A second overlay from inside the detail view overwrites the slot.
    g.enter_overlay_or_detail(AppMode::Help);
    assert_eq!((g.current, g.previous), (AppMode::Help, AppMode::Describe));
    g.return_to_previous();
    assert_eq!(g.current, AppMode::Describe);
    // The way back to the pod list is lost.
    g.return_to_previous();
    assert_eq!(g.current, AppMode::Describe);
}

#[test]
fn return_to_root_ignores_history() {
    let mut g = ModeGraph { current: AppMode::SecretList, previous: AppMode::Describe };
    g.return_to_root();
    assert_eq!(g.current, AppMode::NamespaceList);
    assert_eq!(g.previous, AppMode::Describe);
    let mut detail = ModeGraph { current: AppMode::Logs, previous: AppMode::PodList };
    detail.return_to_root();
    assert_eq!(detail.current, AppMode::Logs);
}

#[test]
fn jump_and_cycle_keep_the_previous_mode() {
    let mut g = ModeGraph { current: AppMode::PodList, previous: AppMode::Help };
    g.cycle_forward();
    assert_eq!((g.current, g.previous), (AppMode::ServiceList, AppMode::Help));
    g.cycle_backward();
    g.cycle_backward();
    assert_eq!((g.current, g.previous), (AppMode::SecretList, AppMode::Help));
    g.jump(AppMode::NodeList);
    assert_eq!((g.current, g.previous), (AppMode::NodeList, AppMode::Help));
}

#[test]
fn kinds_know_whether_they_live_in_namespaces() {
    let cluster_wide = [
        ResourceKind::Namespace,
        ResourceKind::PV,
        ResourceKind::Node,
        ResourceKind::ClusterRole,
        ResourceKind::ClusterRoleBinding,
    ];
    for mode in LIST_MODES {
        let kind = mode.resource_kind().unwrap();
        assert_eq!(kind.is_namespaced(), !cluster_wide.contains(&kind));
        assert_eq!(kind.is_deletable(), kind != ResourceKind::Namespace && kind != ResourceKind::Node);
    }
}
