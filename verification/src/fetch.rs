//! Which data to fetch, and what to make of what came back.
//!
//! The library fetches nothing itself. It says which request is due, and
//! takes the answer when the surrounding program has it.

use vstd::prelude::*;
use crate::app::{AppState, AppView};
use crate::kubectl::commands::{
    describe_arguments, describe_resource, get_pod_logs, get_top_pods, list_arguments,
    list_resources, resource_yaml, yaml_arguments,
};
use crate::text::{decimal, texts};
use crate::kubectl::types::{
    ClusterRole, ClusterRoleBinding, ConfigMap, DaemonSet, Deployment, Ingress, Job, Namespace,
    NetworkPolicy, Node, PersistentVolume, PersistentVolumeClaim, Pod, PodMetrics, Role,
    RoleBinding, Secret, Service, ServiceAccount, StatefulSet,
};
use crate::mode::{AppMode, ModeGraph, ResourceKind};
use crate::refresh::RefreshClass;
use crate::resources::ResourcesView;
use crate::selection::CollectionView;

verus! {

/// Number of log lines that are asked for.
pub const LOG_TAIL_LINES: u32 = 100;

/// A request to one of the collaborators that reach the cluster.
#[derive(Debug)]
pub enum FetchRequest {
    /// The objects of `kind`; those of `namespace` where the kind lives in
    /// namespaces.
    List { kind: ResourceKind, namespace: String },
    /// The description of the object `name` of `kind`.
    Describe { kind: ResourceKind, namespace: String, name: String },
    /// The manifest of the object `name` of `kind`.
    Manifest { kind: ResourceKind, namespace: String, name: String },
    /// The last `tail_lines` lines of the log of `pod`.
    Logs { namespace: String, pod: String, tail_lines: u32 },
    /// The resource usage of the pods of `namespace`.
    Metrics { namespace: String },
}

/// What a `FetchRequest` holds.
pub ghost enum FetchRequestView {
    List { kind: ResourceKind, namespace: Seq<char> },
    Describe { kind: ResourceKind, namespace: Seq<char>, name: Seq<char> },
    Manifest { kind: ResourceKind, namespace: Seq<char>, name: Seq<char> },
    Logs { namespace: Seq<char>, pod: Seq<char>, tail_lines: u32 },
    Metrics { namespace: Seq<char> },
}

impl View for FetchRequest {
    type V = FetchRequestView;

    open spec fn view(&self) -> FetchRequestView {
        match *self {
            FetchRequest::List { kind, namespace } => FetchRequestView::List {
                kind,
                namespace: namespace@,
            },
            FetchRequest::Describe { kind, namespace, name } => FetchRequestView::Describe {
                kind,
                namespace: namespace@,
                name: name@,
            },
            FetchRequest::Manifest { kind, namespace, name } => FetchRequestView::Manifest {
                kind,
                namespace: namespace@,
                name: name@,
            },
            FetchRequest::Logs { namespace, pod, tail_lines } => FetchRequestView::Logs {
                namespace: namespace@,
                pod: pod@,
                tail_lines,
            },
            FetchRequest::Metrics { namespace } => FetchRequestView::Metrics {
                namespace: namespace@,
            },
        }
    }
}

/// The view of an optional request.
pub open spec fn request_view(request: Option<FetchRequest>) -> Option<FetchRequestView> {
    match request {
        Some(r) => Some(r@),
        None => None,
    }
}

impl FetchRequestView {
    /// The refresh class whose timer the request runs on.
    pub open spec fn class(self) -> RefreshClass {
        match self {
            FetchRequestView::List { .. } => RefreshClass::General,
            FetchRequestView::Describe { .. } => RefreshClass::Describe,
            FetchRequestView::Manifest { .. } => RefreshClass::Yaml,
            FetchRequestView::Logs { .. } => RefreshClass::Logs,
            FetchRequestView::Metrics { .. } => RefreshClass::General,
        }
    }

    /// The arguments that the cluster tool is started with for the
    /// request.
    pub open spec fn arguments(self) -> Seq<Seq<char>> {
        match self {
            FetchRequestView::List { kind, namespace } => list_arguments(kind, namespace),
            FetchRequestView::Describe { kind, namespace, name } => describe_arguments(
                kind,
                namespace,
                name,
            ),
            FetchRequestView::Manifest { kind, namespace, name } => yaml_arguments(
                kind,
                namespace,
                name,
            ),
            FetchRequestView::Logs { namespace, pod, tail_lines } => seq![
                "logs"@,
                "-n"@,
                namespace,
                pod,
                "--tail"@,
                decimal(tail_lines as nat),
            ],
            FetchRequestView::Metrics { namespace } => seq![
                "top"@,
                "pods"@,
                "-n"@,
                namespace,
                "--no-headers"@,
            ],
        }
    }
}

impl FetchRequest {
    /// The refresh class whose timer the request runs on.
    pub fn class(&self) -> (class: RefreshClass)
        ensures
            class == self@.class(),
    {
        match self {
            FetchRequest::List { .. } => RefreshClass::General,
            FetchRequest::Describe { .. } => RefreshClass::Describe,
            FetchRequest::Manifest { .. } => RefreshClass::Yaml,
            FetchRequest::Logs { .. } => RefreshClass::Logs,
            FetchRequest::Metrics { .. } => RefreshClass::General,
        }
    }

    /// The arguments that the cluster tool is started with for the
    /// request.
    pub fn arguments(&self) -> (args: Vec<String>)
        ensures
            texts(args@) == self@.arguments(),
    {
        match self {
            FetchRequest::List { kind, namespace } => list_resources(*kind, namespace.as_str()),
            FetchRequest::Describe { kind, namespace, name } => describe_resource(
                *kind,
                namespace.as_str(),
                name.as_str(),
            ),
            FetchRequest::Manifest { kind, namespace, name } => resource_yaml(
                *kind,
                namespace.as_str(),
                name.as_str(),
            ),
            FetchRequest::Logs { namespace, pod, tail_lines } => get_pod_logs(
                namespace.as_str(),
                pod.as_str(),
                *tail_lines,
            ),
            FetchRequest::Metrics { namespace } => get_top_pods(namespace.as_str()),
        }
    }
}

/// What a collaborator brought back.
#[derive(Debug)]
pub enum FetchPayload {
    Namespaces(Vec<Namespace>),
    Pods(Vec<Pod>),
    Services(Vec<Service>),
    Deployments(Vec<Deployment>),
    Jobs(Vec<Job>),
    DaemonSets(Vec<DaemonSet>),
    PVCs(Vec<PersistentVolumeClaim>),
    PVs(Vec<PersistentVolume>),
    Nodes(Vec<Node>),
    ConfigMaps(Vec<ConfigMap>),
    Secrets(Vec<Secret>),
    StatefulSets(Vec<StatefulSet>),
    Ingresses(Vec<Ingress>),
    NetworkPolicies(Vec<NetworkPolicy>),
    Roles(Vec<Role>),
    RoleBindings(Vec<RoleBinding>),
    ClusterRoles(Vec<ClusterRole>),
    ClusterRoleBindings(Vec<ClusterRoleBinding>),
    ServiceAccounts(Vec<ServiceAccount>),
    /// A description or a manifest.
    Text(String),
    /// Log lines.
    Lines(Vec<String>),
    /// Resource usage of pods.
    Metrics(Vec<PodMetrics>),
}

impl ResourcesView {
    /// The collections after the items of one kind were replaced by what
    /// `payload` holds, if it holds the items of `kind`; unchanged if it
    /// holds anything else.
    pub open spec fn with_payload(self, kind: ResourceKind, payload: FetchPayload)
        -> ResourcesView {
        match (kind, payload) {
            (ResourceKind::Namespace, FetchPayload::Namespaces(items)) => ResourcesView { namespaces: self.namespaces.replaced(items@), ..self },
            (ResourceKind::Pod, FetchPayload::Pods(items)) => ResourcesView { pods: self.pods.replaced(items@), ..self },
            (ResourceKind::Service, FetchPayload::Services(items)) => ResourcesView { services: self.services.replaced(items@), ..self },
            (ResourceKind::Deployment, FetchPayload::Deployments(items)) => ResourcesView { deployments: self.deployments.replaced(items@), ..self },
            (ResourceKind::Job, FetchPayload::Jobs(items)) => ResourcesView { jobs: self.jobs.replaced(items@), ..self },
            (ResourceKind::DaemonSet, FetchPayload::DaemonSets(items)) => ResourcesView { daemonsets: self.daemonsets.replaced(items@), ..self },
            (ResourceKind::PVC, FetchPayload::PVCs(items)) => ResourcesView { pvcs: self.pvcs.replaced(items@), ..self },
            (ResourceKind::PV, FetchPayload::PVs(items)) => ResourcesView { pvs: self.pvs.replaced(items@), ..self },
            (ResourceKind::Node, FetchPayload::Nodes(items)) => ResourcesView { nodes: self.nodes.replaced(items@), ..self },
            (ResourceKind::ConfigMap, FetchPayload::ConfigMaps(items)) => ResourcesView { configmaps: self.configmaps.replaced(items@), ..self },
            (ResourceKind::Secret, FetchPayload::Secrets(items)) => ResourcesView { secrets: self.secrets.replaced(items@), ..self },
            (ResourceKind::StatefulSet, FetchPayload::StatefulSets(items)) => ResourcesView { statefulsets: self.statefulsets.replaced(items@), ..self },
            (ResourceKind::Ingress, FetchPayload::Ingresses(items)) => ResourcesView { ingresses: self.ingresses.replaced(items@), ..self },
            (ResourceKind::NetworkPolicy, FetchPayload::NetworkPolicies(items)) => ResourcesView { network_policies: self.network_policies.replaced(items@), ..self },
            (ResourceKind::Role, FetchPayload::Roles(items)) => ResourcesView { roles: self.roles.replaced(items@), ..self },
            (ResourceKind::RoleBinding, FetchPayload::RoleBindings(items)) => ResourcesView { role_bindings: self.role_bindings.replaced(items@), ..self },
            (ResourceKind::ClusterRole, FetchPayload::ClusterRoles(items)) => ResourcesView { cluster_roles: self.cluster_roles.replaced(items@), ..self },
            (ResourceKind::ClusterRoleBinding, FetchPayload::ClusterRoleBindings(items)) => ResourcesView { cluster_role_bindings: self.cluster_role_bindings.replaced(items@), ..self },
            (ResourceKind::ServiceAccount, FetchPayload::ServiceAccounts(items)) => ResourcesView { service_accounts: self.service_accounts.replaced(items@), ..self },
            _ => self,
        }
    }
}

impl AppView {
    /// The item that the current description or manifest view is about:
    /// the selected item of the list that the view was entered from.
    pub open spec fn detail_subject(self) -> Option<(ResourceKind, Seq<char>)> {
        match self.modes.previous.spec_resource_kind() {
            Some(kind) => match self.resources.selected_name(kind) {
                Some(name) => Some((kind, name)),
                None => None,
            },
            None => None,
        }
    }

    /// Whether data of `class` is wanted at time `now`: its timer is due,
    /// or the user just did something and there is nothing to show
    /// (`missing`).
    pub open spec fn wants(self, class: RefreshClass, now: u64, after_input: bool, missing: bool)
        -> bool {
        self.refresh.is_due(class, now) || (after_input && missing)
    }

    /// The request that is due at time `now`, if any. `after_input` says
    /// that the user just did something, which makes missing data due at
    /// once.
    ///
    /// A list wants its items, the log view the log of the selected pod,
    /// the description and manifest views the text for the item they were
    /// entered for, and the metrics view the usage of the pods. Every
    /// other mode, the overlays among them, wants nothing.
    pub open spec fn due_request(self, now: u64, after_input: bool) -> Option<FetchRequestView> {
        let mode = self.modes.current;
        let namespace = self.current_namespace;
        if mode.spec_resource_kind() is Some {
            let kind = mode.spec_resource_kind().unwrap();
            if self.wants(RefreshClass::General, now, after_input, self.resources.len(kind) == 0) {
                Some(FetchRequestView::List { kind, namespace })
            } else {
                None
            }
        } else if mode == AppMode::Logs {
            match self.resources.selected_name(ResourceKind::Pod) {
                Some(pod) => if self.wants(
                    RefreshClass::Logs,
                    now,
                    after_input,
                    self.logs.len() == 0,
                ) {
                    Some(FetchRequestView::Logs { namespace, pod, tail_lines: LOG_TAIL_LINES })
                } else {
                    None
                },
                None => None,
            }
        } else if mode == AppMode::Describe {
            match self.detail_subject() {
                Some((kind, name)) => if self.wants(
                    RefreshClass::Describe,
                    now,
                    after_input,
                    self.describe_content.len() == 0,
                ) {
                    Some(FetchRequestView::Describe { kind, namespace, name })
                } else {
                    None
                },
                None => None,
            }
        } else if mode == AppMode::YamlView {
            match self.detail_subject() {
                Some((kind, name)) => if self.wants(
                    RefreshClass::Yaml,
                    now,
                    after_input,
                    self.yaml_content.len() == 0,
                ) {
                    Some(FetchRequestView::Manifest { kind, namespace, name })
                } else {
                    None
                },
                None => None,
            }
        } else if mode == AppMode::TopView {
            if self.wants(RefreshClass::General, now, after_input, self.pod_metrics.len() == 0) {
                Some(FetchRequestView::Metrics { namespace })
            } else {
                None
            }
        } else {
            None
        }
    }

    /// Whether the answer to `request` still concerns what is shown. A
    /// list stays relevant while its namespace is the current one (always,
    /// for kinds outside namespaces). The content of a detail view stays
    /// relevant while that view is shown for the same item.
    pub open spec fn is_relevant(self, request: FetchRequestView) -> bool {
        match request {
            FetchRequestView::List { kind, namespace } => !kind.spec_is_namespaced() || namespace
                == self.current_namespace,
            FetchRequestView::Describe { kind, namespace, name } => self.modes.current
                == AppMode::Describe && namespace == self.current_namespace
                && self.detail_subject() == Some((kind, name)),
            FetchRequestView::Manifest { kind, namespace, name } => self.modes.current
                == AppMode::YamlView && namespace == self.current_namespace
                && self.detail_subject() == Some((kind, name)),
            FetchRequestView::Logs { namespace, pod, tail_lines } => self.modes.current
                == AppMode::Logs && namespace == self.current_namespace
                && self.resources.selected_name(ResourceKind::Pod) == Some(pod),
            FetchRequestView::Metrics { namespace } => self.modes.current == AppMode::TopView
                && namespace == self.current_namespace,
        }
    }

    /// The state with the data that `request` asked for replaced by what
    /// `payload` holds. A payload of the wrong sort changes nothing.
    pub open spec fn with_payload(self, request: FetchRequestView, payload: FetchPayload)
        -> AppView {
        match request {
            FetchRequestView::List { kind, .. } => AppView {
                resources: self.resources.with_payload(kind, payload),
                ..self
            },
            FetchRequestView::Describe { .. } => match payload {
                FetchPayload::Text(text) => self.with_describe_content(text@),
                _ => self,
            },
            FetchRequestView::Manifest { .. } => match payload {
                FetchPayload::Text(text) => self.with_yaml_content(text@),
                _ => self,
            },
            FetchRequestView::Logs { .. } => match payload {
                FetchPayload::Lines(lines) => self.with_logs(lines@),
                _ => self,
            },
            FetchRequestView::Metrics { .. } => match payload {
                FetchPayload::Metrics(metrics) => self.with_pod_metrics(metrics@),
                _ => self,
            },
        }
    }

    /// The state after the answer to `request` arrived at time `now`.
    ///
    /// An answer that is no longer relevant is dropped and changes
    /// nothing. A relevant answer restarts the timer of its class; if it
    /// brought data (`Some`), the data replaces what was shown, and if the
    /// fetch failed (`None`), what was shown stays.
    pub open spec fn fetched(self, request: FetchRequestView, payload: Option<FetchPayload>, now: u64)
        -> AppView {
        if !self.is_relevant(request) {
            self
        } else {
            let updated = match payload {
                Some(p) => self.with_payload(request, p),
                None => self,
            };
            AppView {
                refresh: self.refresh.with_timer(
                    request.class(),
                    self.refresh.spec_timer(request.class()).refreshed(now),
                ),
                ..updated
            }
        }
    }

    /// The state after the namespaces were loaded at start-up: the first
    /// one becomes the current namespace.
    pub open spec fn with_initial_namespaces(self, namespaces: Seq<Namespace>) -> AppView {
        AppView {
            resources: ResourcesView {
                namespaces: self.resources.namespaces.replaced(namespaces),
                ..self.resources
            },
            current_namespace: if namespaces.len() > 0 {
                namespaces[0].name@
            } else {
                self.current_namespace
            },
            ..self
        }
    }

    /// The state after an interactive shell was left: the pod list, with
    /// itself to return to, and without logs and description.
    pub open spec fn after_exec(self) -> AppView {
        AppView {
            logs: Seq::empty(),
            describe_content: Seq::empty(),
            scroll: self.scroll.with_content_length(AppMode::Logs, 0).with_content_length(
                AppMode::Describe,
                0,
            ),
            modes: ModeGraph { current: AppMode::PodList, previous: AppMode::PodList },
            ..self
        }
    }
}

/// A failed fetch leaves everything but the timer of its class untouched:
/// what was shown before stays.
pub proof fn lemma_failed_fetch_keeps_data(s: AppView, request: FetchRequestView, now: u64)
    ensures
        s.fetched(request, None, now).resources == s.resources,
        s.fetched(request, None, now).logs == s.logs,
        s.fetched(request, None, now).describe_content == s.describe_content,
        s.fetched(request, None, now).yaml_content == s.yaml_content,
        s.fetched(request, None, now).pod_metrics == s.pod_metrics,
        s.fetched(request, None, now).modes == s.modes,
        s.fetched(request, None, now).scroll == s.scroll,
{
}

/// The request that is due is relevant to the state it is due in, and
/// while an overlay is shown nothing is due.
pub proof fn lemma_due_request_is_relevant(s: AppView, now: u64, after_input: bool)
    ensures
        s.due_request(now, after_input) is Some ==> s.is_relevant(
            s.due_request(now, after_input).unwrap(),
        ),
        s.modes.current == AppMode::Search || s.modes.current == AppMode::Confirm
            ==> s.due_request(now, after_input) is None,
{
}

impl AppState {
    /// Whether data of `class` is wanted at time `now`.
    fn wants(&self, class: RefreshClass, now: u64, after_input: bool, missing: bool) -> (wanted:
        bool)
        ensures
            wanted == self@.wants(class, now, after_input, missing),
    {
        self.refresh.should_refresh(class, now) || (after_input && missing)
    }

    /// The item that the current description or manifest view is about.
    fn detail_subject(&self) -> (subject: Option<(ResourceKind, &String)>)
        ensures
            match subject {
                Some((kind, name)) => self@.detail_subject() == Some((kind, name@)),
                None => self@.detail_subject() is None,
            },
    {
        match self.modes.previous.resource_kind() {
            Some(kind) => match self.resources.selected_name(kind) {
                Some(name) => Some((kind, name)),
                None => None,
            },
            None => None,
        }
    }

    /// Decides which request is due at time `now`, if any. `after_input`
    /// says that the user just did something, which makes missing data due
    /// at once; on a mere tick of the clock only the timers count.
    pub fn next_fetch(&self, now: u64, after_input: bool) -> (request: Option<FetchRequest>)
        ensures
            request_view(request) == self@.due_request(now, after_input),
    {
        let mode = self.modes.current;
        match mode.resource_kind() {
            Some(kind) => {
                return if self.wants(
                    RefreshClass::General,
                    now,
                    after_input,
                    self.resources.is_empty(kind),
                ) {
                    Some(FetchRequest::List { kind, namespace: self.current_namespace.clone() })
                } else {
                    None
                };
            },
            None => {},
        }
        match mode {
            AppMode::Logs => match self.resources.selected_name(ResourceKind::Pod) {
                Some(pod) => {
                    if self.wants(RefreshClass::Logs, now, after_input, self.logs.len() == 0) {
                        Some(
                            FetchRequest::Logs {
                                namespace: self.current_namespace.clone(),
                                pod: pod.clone(),
                                tail_lines: LOG_TAIL_LINES,
                            },
                        )
                    } else {
                        None
                    }
                },
                None => None,
            },
            AppMode::Describe => match self.detail_subject() {
                Some((kind, name)) => {
                    if self.wants(
                        RefreshClass::Describe,
                        now,
                        after_input,
                        self.describe_content.as_str().is_empty(),
                    ) {
                        Some(
                            FetchRequest::Describe {
                                kind,
                                namespace: self.current_namespace.clone(),
                                name: name.clone(),
                            },
                        )
                    } else {
                        None
                    }
                },
                None => None,
            },
            AppMode::YamlView => match self.detail_subject() {
                Some((kind, name)) => {
                    if self.wants(
                        RefreshClass::Yaml,
                        now,
                        after_input,
                        self.yaml_content.as_str().is_empty(),
                    ) {
                        Some(
                            FetchRequest::Manifest {
                                kind,
                                namespace: self.current_namespace.clone(),
                                name: name.clone(),
                            },
                        )
                    } else {
                        None
                    }
                },
                None => None,
            },
            AppMode::TopView => {
                if self.wants(
                    RefreshClass::General,
                    now,
                    after_input,
                    self.pod_metrics.len() == 0,
                ) {
                    Some(FetchRequest::Metrics { namespace: self.current_namespace.clone() })
                } else {
                    None
                }
            },
            _ => None,
        }
    }

    /// Whether the answer to `request` still concerns what is shown.
    pub fn is_relevant(&self, request: &FetchRequest) -> (relevant: bool)
        ensures
            relevant == self@.is_relevant(request@),
    {
        match request {
            FetchRequest::List { kind, namespace } => !kind.is_namespaced() || *namespace
                == self.current_namespace,
            FetchRequest::Describe { kind, namespace, name } => self.modes.current
                == AppMode::Describe && *namespace == self.current_namespace && self.is_subject(
                *kind,
                name,
            ),
            FetchRequest::Manifest { kind, namespace, name } => self.modes.current
                == AppMode::YamlView && *namespace == self.current_namespace && self.is_subject(
                *kind,
                name,
            ),
            FetchRequest::Logs { namespace, pod, .. } => self.modes.current == AppMode::Logs
                && *namespace == self.current_namespace && match self.resources.selected_name(
                ResourceKind::Pod,
            ) {
                Some(selected) => *selected == *pod,
                None => false,
            },
            FetchRequest::Metrics { namespace } => self.modes.current == AppMode::TopView
                && *namespace == self.current_namespace,
        }
    }

    /// Whether the current description or manifest view is about the item
    /// `name` of `kind`.
    fn is_subject(&self, kind: ResourceKind, name: &String) -> (b: bool)
        ensures
            b == (self@.detail_subject() == Some((kind, name@))),
    {
        match self.detail_subject() {
            Some((subject_kind, subject_name)) => subject_kind == kind && *subject_name == *name,
            None => false,
        }
    }

    /// Replaces the data that `request` asked for by what `payload` holds.
    /// A payload of the wrong sort changes nothing.
    fn apply_payload(&mut self, request: &FetchRequest, payload: FetchPayload)
        ensures
            final(self)@ == old(self)@.with_payload(request@, payload),
    {
        match request {
            FetchRequest::List { kind, .. } => {
                match (*kind, payload) {
                    (ResourceKind::Namespace, FetchPayload::Namespaces(items)) => self.resources.namespaces.replace(items),
                    (ResourceKind::Pod, FetchPayload::Pods(items)) => self.resources.pods.replace(items),
                    (ResourceKind::Service, FetchPayload::Services(items)) => self.resources.services.replace(items),
                    (ResourceKind::Deployment, FetchPayload::Deployments(items)) => self.resources.deployments.replace(items),
                    (ResourceKind::Job, FetchPayload::Jobs(items)) => self.resources.jobs.replace(items),
                    (ResourceKind::DaemonSet, FetchPayload::DaemonSets(items)) => self.resources.daemonsets.replace(items),
                    (ResourceKind::PVC, FetchPayload::PVCs(items)) => self.resources.pvcs.replace(items),
                    (ResourceKind::PV, FetchPayload::PVs(items)) => self.resources.pvs.replace(items),
                    (ResourceKind::Node, FetchPayload::Nodes(items)) => self.resources.nodes.replace(items),
                    (ResourceKind::ConfigMap, FetchPayload::ConfigMaps(items)) => self.resources.configmaps.replace(items),
                    (ResourceKind::Secret, FetchPayload::Secrets(items)) => self.resources.secrets.replace(items),
                    (ResourceKind::StatefulSet, FetchPayload::StatefulSets(items)) => self.resources.statefulsets.replace(items),
                    (ResourceKind::Ingress, FetchPayload::Ingresses(items)) => self.resources.ingresses.replace(items),
                    (ResourceKind::NetworkPolicy, FetchPayload::NetworkPolicies(items)) => self.resources.network_policies.replace(items),
                    (ResourceKind::Role, FetchPayload::Roles(items)) => self.resources.roles.replace(items),
                    (ResourceKind::RoleBinding, FetchPayload::RoleBindings(items)) => self.resources.role_bindings.replace(items),
                    (ResourceKind::ClusterRole, FetchPayload::ClusterRoles(items)) => self.resources.cluster_roles.replace(items),
                    (ResourceKind::ClusterRoleBinding, FetchPayload::ClusterRoleBindings(items)) => self.resources.cluster_role_bindings.replace(items),
                    (ResourceKind::ServiceAccount, FetchPayload::ServiceAccounts(items)) => self.resources.service_accounts.replace(items),
                    _ => {},
                }
            },
            FetchRequest::Describe { .. } => match payload {
                FetchPayload::Text(text) => self.set_describe_content(text),
                _ => {},
            },
            FetchRequest::Manifest { .. } => match payload {
                FetchPayload::Text(text) => self.set_yaml_content(text),
                _ => {},
            },
            FetchRequest::Logs { .. } => match payload {
                FetchPayload::Lines(lines) => self.set_logs(lines),
                _ => {},
            },
            FetchRequest::Metrics { .. } => match payload {
                FetchPayload::Metrics(metrics) => self.set_pod_metrics(metrics),
                _ => {},
            },
        }
    }

    /// Takes the answer to `request` that arrived at time `now`: the data
    /// (`Some`) or the news that the fetch failed (`None`). Returns whether
    /// the answer was still relevant.
    ///
    /// A relevant answer restarts the timer of its class. Data replaces
    /// what was shown; a failed fetch leaves what was shown. An answer
    /// that is no longer relevant is dropped whole.
    pub fn apply_fetch(&mut self, request: &FetchRequest, payload: Option<FetchPayload>, now: u64)
        -> (applied: bool)
        ensures
            applied == old(self)@.is_relevant(request@),
            final(self)@ == old(self)@.fetched(request@, payload, now),
    {
        if !self.is_relevant(request) {
            return false;
        }
        match payload {
            Some(p) => self.apply_payload(request, p),
            None => {},
        }
        self.refresh.mark_refreshed(request.class(), now);
        true
    }

    /// Takes the namespaces loaded at start-up and makes the first one the
    /// current namespace.
    pub fn load_initial_data(&mut self, namespaces: Vec<Namespace>)
        ensures
            final(self)@ == old(self)@.with_initial_namespaces(namespaces@),
    {
        if namespaces.len() > 0 {
            self.current_namespace = namespaces[0].name.clone();
        }
        self.resources.namespaces.replace(namespaces);
    }

    /// Puts the dashboard back in order after an interactive shell was
    /// left: shows the pod list and forgets logs and description.
    pub fn finish_exec(&mut self)
        ensures
            final(self)@ == old(self)@.after_exec(),
    {
        self.logs = Vec::new();
        self.describe_content = String::new();
        self.scroll.set_content_length(AppMode::Logs, 0);
        self.scroll.set_content_length(AppMode::Describe, 0);
        self.modes.jump(AppMode::PodList);
        self.modes.previous = AppMode::PodList;
    }
}

} // verus!
