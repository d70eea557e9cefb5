//! The modes of the dashboard and the transitions between them.

use vstd::prelude::*;

verus! {

/// The category of cluster object shown by a list view.
#[derive(Debug, Clone, Copy, PartialEq, Eq, Structural)]
pub enum ResourceKind {
    Namespace,
    Pod,
    Service,
    Deployment,
    Job,
    DaemonSet,
    PVC,
    PV,
    Node,
    ConfigMap,
    Secret,
    StatefulSet,
    Ingress,
    NetworkPolicy,
    Role,
    RoleBinding,
    ClusterRole,
    ClusterRoleBinding,
    ServiceAccount,
}

/// The discrete state that decides which view is shown and which key
/// bindings apply. Exactly one mode is current at any time.
#[derive(Debug, Clone, Copy, PartialEq, Eq, Structural)]
pub enum AppMode {
    NamespaceList,
    PodList,
    ServiceList,
    DeploymentList,
    JobList,
    DaemonSetList,
    PVCList,
    PVList,
    NodeList,
    ConfigMapList,
    SecretList,
    StatefulSetList,
    IngressList,
    NetworkPolicyList,
    RoleList,
    RoleBindingList,
    ClusterRoleList,
    ClusterRoleBindingList,
    ServiceAccountList,
    Logs,
    Describe,
    YamlView,
    TopView,
    Search,
    Confirm,
    Help,
    MoreResources,
}

impl ResourceKind {
    /// The list mode that browses this kind.
    pub open spec fn spec_list_mode(self) -> AppMode {
        match self {
            ResourceKind::Namespace => AppMode::NamespaceList,
            ResourceKind::Pod => AppMode::PodList,
            ResourceKind::Service => AppMode::ServiceList,
            ResourceKind::Deployment => AppMode::DeploymentList,
            ResourceKind::Job => AppMode::JobList,
            ResourceKind::DaemonSet => AppMode::DaemonSetList,
            ResourceKind::PVC => AppMode::PVCList,
            ResourceKind::PV => AppMode::PVList,
            ResourceKind::Node => AppMode::NodeList,
            ResourceKind::ConfigMap => AppMode::ConfigMapList,
            ResourceKind::Secret => AppMode::SecretList,
            ResourceKind::StatefulSet => AppMode::StatefulSetList,
            ResourceKind::Ingress => AppMode::IngressList,
            ResourceKind::NetworkPolicy => AppMode::NetworkPolicyList,
            ResourceKind::Role => AppMode::RoleList,
            ResourceKind::RoleBinding => AppMode::RoleBindingList,
            ResourceKind::ClusterRole => AppMode::ClusterRoleList,
            ResourceKind::ClusterRoleBinding => AppMode::ClusterRoleBindingList,
            ResourceKind::ServiceAccount => AppMode::ServiceAccountList,
        }
    }

    /// The list mode that browses this kind.
    #[verifier::when_used_as_spec(spec_list_mode)]
    pub fn list_mode(self) -> (mode: AppMode)
        ensures
            mode == self.spec_list_mode(),
    {
        match self {
            ResourceKind::Namespace => AppMode::NamespaceList,
            ResourceKind::Pod => AppMode::PodList,
            ResourceKind::Service => AppMode::ServiceList,
            ResourceKind::Deployment => AppMode::DeploymentList,
            ResourceKind::Job => AppMode::JobList,
            ResourceKind::DaemonSet => AppMode::DaemonSetList,
            ResourceKind::PVC => AppMode::PVCList,
            ResourceKind::PV => AppMode::PVList,
            ResourceKind::Node => AppMode::NodeList,
            ResourceKind::ConfigMap => AppMode::ConfigMapList,
            ResourceKind::Secret => AppMode::SecretList,
            ResourceKind::StatefulSet => AppMode::StatefulSetList,
            ResourceKind::Ingress => AppMode::IngressList,
            ResourceKind::NetworkPolicy => AppMode::NetworkPolicyList,
            ResourceKind::Role => AppMode::RoleList,
            ResourceKind::RoleBinding => AppMode::RoleBindingList,
            ResourceKind::ClusterRole => AppMode::ClusterRoleList,
            ResourceKind::ClusterRoleBinding => AppMode::ClusterRoleBindingList,
            ResourceKind::ServiceAccount => AppMode::ServiceAccountList,
        }
    }

    /// Whether objects of this kind live inside a namespace.
    pub open spec fn spec_is_namespaced(self) -> bool {
        !(self == ResourceKind::Namespace || self == ResourceKind::PV || self
            == ResourceKind::Node || self == ResourceKind::ClusterRole || self
            == ResourceKind::ClusterRoleBinding)
    }

    /// Whether objects of this kind live inside a namespace.
    #[verifier::when_used_as_spec(spec_is_namespaced)]
    pub fn is_namespaced(self) -> (b: bool)
        ensures
            b == self.spec_is_namespaced(),
    {
        match self {
            ResourceKind::Namespace
            | ResourceKind::PV
            | ResourceKind::Node
            | ResourceKind::ClusterRole
            | ResourceKind::ClusterRoleBinding => false,
            _ => true,
        }
    }

    /// Whether the list of this kind offers the delete key. Namespaces and
    /// nodes cannot be deleted from the dashboard.
    pub open spec fn spec_is_deletable(self) -> bool {
        !(self == ResourceKind::Namespace || self == ResourceKind::Node)
    }

    /// Whether the list of this kind offers the delete key.
    #[verifier::when_used_as_spec(spec_is_deletable)]
    pub fn is_deletable(self) -> (b: bool)
        ensures
            b == self.spec_is_deletable(),
    {
        match self {
            ResourceKind::Namespace | ResourceKind::Node => false,
            _ => true,
        }
    }
}

impl AppMode {
    /// The kind that a list mode browses; `None` for every other mode.
    pub open spec fn spec_resource_kind(self) -> Option<ResourceKind> {
        match self {
            AppMode::NamespaceList => Some(ResourceKind::Namespace),
            AppMode::PodList => Some(ResourceKind::Pod),
            AppMode::ServiceList => Some(ResourceKind::Service),
            AppMode::DeploymentList => Some(ResourceKind::Deployment),
            AppMode::JobList => Some(ResourceKind::Job),
            AppMode::DaemonSetList => Some(ResourceKind::DaemonSet),
            AppMode::PVCList => Some(ResourceKind::PVC),
            AppMode::PVList => Some(ResourceKind::PV),
            AppMode::NodeList => Some(ResourceKind::Node),
            AppMode::ConfigMapList => Some(ResourceKind::ConfigMap),
            AppMode::SecretList => Some(ResourceKind::Secret),
            AppMode::StatefulSetList => Some(ResourceKind::StatefulSet),
            AppMode::IngressList => Some(ResourceKind::Ingress),
            AppMode::NetworkPolicyList => Some(ResourceKind::NetworkPolicy),
            AppMode::RoleList => Some(ResourceKind::Role),
            AppMode::RoleBindingList => Some(ResourceKind::RoleBinding),
            AppMode::ClusterRoleList => Some(ResourceKind::ClusterRole),
            AppMode::ClusterRoleBindingList => Some(ResourceKind::ClusterRoleBinding),
            AppMode::ServiceAccountList => Some(ResourceKind::ServiceAccount),
            _ => None,
        }
    }

    /// The kind that a list mode browses; `None` for every other mode.
    #[verifier::when_used_as_spec(spec_resource_kind)]
    pub fn resource_kind(self) -> (kind: Option<ResourceKind>)
        ensures
            kind == self.spec_resource_kind(),
    {
        match self {
            AppMode::NamespaceList => Some(ResourceKind::Namespace),
            AppMode::PodList => Some(ResourceKind::Pod),
            AppMode::ServiceList => Some(ResourceKind::Service),
            AppMode::DeploymentList => Some(ResourceKind::Deployment),
            AppMode::JobList => Some(ResourceKind::Job),
            AppMode::DaemonSetList => Some(ResourceKind::DaemonSet),
            AppMode::PVCList => Some(ResourceKind::PVC),
            AppMode::PVList => Some(ResourceKind::PV),
            AppMode::NodeList => Some(ResourceKind::Node),
            AppMode::ConfigMapList => Some(ResourceKind::ConfigMap),
            AppMode::SecretList => Some(ResourceKind::Secret),
            AppMode::StatefulSetList => Some(ResourceKind::StatefulSet),
            AppMode::IngressList => Some(ResourceKind::Ingress),
            AppMode::NetworkPolicyList => Some(ResourceKind::NetworkPolicy),
            AppMode::RoleList => Some(ResourceKind::Role),
            AppMode::RoleBindingList => Some(ResourceKind::RoleBinding),
            AppMode::ClusterRoleList => Some(ResourceKind::ClusterRole),
            AppMode::ClusterRoleBindingList => Some(ResourceKind::ClusterRoleBinding),
            AppMode::ServiceAccountList => Some(ResourceKind::ServiceAccount),
            _ => None,
        }
    }

    /// Whether this mode is the list view of some resource kind.
    pub open spec fn spec_is_list(self) -> bool {
        self.spec_resource_kind() is Some
    }

    /// Whether this mode is the list view of some resource kind.
    #[verifier::when_used_as_spec(spec_is_list)]
    pub fn is_list(self) -> (b: bool)
        ensures
            b == self.spec_is_list(),
    {
        self.resource_kind().is_some()
    }

    /// Whether this mode is one of the four full-screen detail views.
    pub open spec fn spec_is_detail_view(self) -> bool {
        self == AppMode::Logs || self == AppMode::Describe || self == AppMode::YamlView || self
            == AppMode::TopView
    }

    /// Whether this mode is one of the four full-screen detail views.
    #[verifier::when_used_as_spec(spec_is_detail_view)]
    pub fn is_detail_view(self) -> (b: bool)
        ensures
            b == self.spec_is_detail_view(),
    {
        match self {
            AppMode::Logs | AppMode::Describe | AppMode::YamlView | AppMode::TopView => true,
            _ => false,
        }
    }

    /// The mode that the forward-cycle key leads to.
    ///
    /// The ten core lists form one ring (pods, services, deployments, jobs,
    /// daemon sets, volume claims, volumes, nodes, config maps, secrets) and
    /// the eight further lists a second one (stateful sets, ingresses,
    /// network policies, roles, role bindings, cluster roles, cluster role
    /// bindings, service accounts). The namespace list leads into the core
    /// ring at the pods. Every other mode stays where it is.
    pub open spec fn spec_cycle_forward(self) -> AppMode {
        match self {
            AppMode::NamespaceList => AppMode::PodList,
            AppMode::PodList => AppMode::ServiceList,
            AppMode::ServiceList => AppMode::DeploymentList,
            AppMode::DeploymentList => AppMode::JobList,
            AppMode::JobList => AppMode::DaemonSetList,
            AppMode::DaemonSetList => AppMode::PVCList,
            AppMode::PVCList => AppMode::PVList,
            AppMode::PVList => AppMode::NodeList,
            AppMode::NodeList => AppMode::ConfigMapList,
            AppMode::ConfigMapList => AppMode::SecretList,
            AppMode::SecretList => AppMode::PodList,
            AppMode::StatefulSetList => AppMode::IngressList,
            AppMode::IngressList => AppMode::NetworkPolicyList,
            AppMode::NetworkPolicyList => AppMode::RoleList,
            AppMode::RoleList => AppMode::RoleBindingList,
            AppMode::RoleBindingList => AppMode::ClusterRoleList,
            AppMode::ClusterRoleList => AppMode::ClusterRoleBindingList,
            AppMode::ClusterRoleBindingList => AppMode::ServiceAccountList,
            AppMode::ServiceAccountList => AppMode::StatefulSetList,
            _ => self,
        }
    }

    /// The mode that the forward-cycle key leads to.
    #[verifier::when_used_as_spec(spec_cycle_forward)]
    pub fn cycle_forward(self) -> (next: AppMode)
        ensures
            next == self.spec_cycle_forward(),
    {
        match self {
            AppMode::NamespaceList => AppMode::PodList,
            AppMode::PodList => AppMode::ServiceList,
            AppMode::ServiceList => AppMode::DeploymentList,
            AppMode::DeploymentList => AppMode::JobList,
            AppMode::JobList => AppMode::DaemonSetList,
            AppMode::DaemonSetList => AppMode::PVCList,
            AppMode::PVCList => AppMode::PVList,
            AppMode::PVList => AppMode::NodeList,
            AppMode::NodeList => AppMode::ConfigMapList,
            AppMode::ConfigMapList => AppMode::SecretList,
            AppMode::SecretList => AppMode::PodList,
            AppMode::StatefulSetList => AppMode::IngressList,
            AppMode::IngressList => AppMode::NetworkPolicyList,
            AppMode::NetworkPolicyList => AppMode::RoleList,
            AppMode::RoleList => AppMode::RoleBindingList,
            AppMode::RoleBindingList => AppMode::ClusterRoleList,
            AppMode::ClusterRoleList => AppMode::ClusterRoleBindingList,
            AppMode::ClusterRoleBindingList => AppMode::ServiceAccountList,
            AppMode::ServiceAccountList => AppMode::StatefulSetList,
            other => other,
        }
    }

    /// The mode that the backward-cycle key leads to: the rings of
    /// `cycle_forward` walked the other way. The namespace list leads into
    /// the core ring at the secrets.
    pub open spec fn spec_cycle_backward(self) -> AppMode {
        match self {
            AppMode::NamespaceList => AppMode::SecretList,
            AppMode::PodList => AppMode::SecretList,
            AppMode::ServiceList => AppMode::PodList,
            AppMode::DeploymentList => AppMode::ServiceList,
            AppMode::JobList => AppMode::DeploymentList,
            AppMode::DaemonSetList => AppMode::JobList,
            AppMode::PVCList => AppMode::DaemonSetList,
            AppMode::PVList => AppMode::PVCList,
            AppMode::NodeList => AppMode::PVList,
            AppMode::ConfigMapList => AppMode::NodeList,
            AppMode::SecretList => AppMode::ConfigMapList,
            AppMode::StatefulSetList => AppMode::ServiceAccountList,
            AppMode::IngressList => AppMode::StatefulSetList,
            AppMode::NetworkPolicyList => AppMode::IngressList,
            AppMode::RoleList => AppMode::NetworkPolicyList,
            AppMode::RoleBindingList => AppMode::RoleList,
            AppMode::ClusterRoleList => AppMode::RoleBindingList,
            AppMode::ClusterRoleBindingList => AppMode::ClusterRoleList,
            AppMode::ServiceAccountList => AppMode::ClusterRoleBindingList,
            _ => self,
        }
    }

    /// The mode that the backward-cycle key leads to.
    #[verifier::when_used_as_spec(spec_cycle_backward)]
    pub fn cycle_backward(self) -> (next: AppMode)
        ensures
            next == self.spec_cycle_backward(),
    {
        match self {
            AppMode::NamespaceList => AppMode::SecretList,
            AppMode::PodList => AppMode::SecretList,
            AppMode::ServiceList => AppMode::PodList,
            AppMode::DeploymentList => AppMode::ServiceList,
            AppMode::JobList => AppMode::DeploymentList,
            AppMode::DaemonSetList => AppMode::JobList,
            AppMode::PVCList => AppMode::DaemonSetList,
            AppMode::PVList => AppMode::PVCList,
            AppMode::NodeList => AppMode::PVList,
            AppMode::ConfigMapList => AppMode::NodeList,
            AppMode::SecretList => AppMode::ConfigMapList,
            AppMode::StatefulSetList => AppMode::ServiceAccountList,
            AppMode::IngressList => AppMode::StatefulSetList,
            AppMode::NetworkPolicyList => AppMode::IngressList,
            AppMode::RoleList => AppMode::NetworkPolicyList,
            AppMode::RoleBindingList => AppMode::RoleList,
            AppMode::ClusterRoleList => AppMode::RoleBindingList,
            AppMode::ClusterRoleBindingList => AppMode::ClusterRoleList,
            AppMode::ServiceAccountList => AppMode::ClusterRoleBindingList,
            other => other,
        }
    }
}

/// The current mode and the single remembered mode to return to.
///
/// Only one previous mode is kept: entering a second overlay or detail view
/// from inside one overwrites the slot.
#[derive(Debug, Clone, Copy, PartialEq, Eq, Structural)]
pub struct ModeGraph {
    pub current: AppMode,
    pub previous: AppMode,
}

impl ModeGraph {
    /// Result of `enter_overlay_or_detail`.
    pub open spec fn entered(self, target: AppMode) -> ModeGraph {
        ModeGraph { current: target, previous: self.current }
    }

    /// Result of `return_to_previous`.
    pub open spec fn returned(self) -> ModeGraph {
        ModeGraph { current: self.previous, previous: self.previous }
    }

    /// Result of `return_to_root`.
    pub open spec fn at_root(self) -> ModeGraph {
        if self.current.spec_is_list() {
            ModeGraph { current: AppMode::NamespaceList, previous: self.previous }
        } else {
            self
        }
    }

    /// Result of `jump`.
    pub open spec fn jumped(self, target: AppMode) -> ModeGraph {
        ModeGraph { current: target, previous: self.previous }
    }

    /// The graph at start-up: the namespace list, with itself to return to.
    pub fn new() -> (g: ModeGraph)
        ensures
            g.current == AppMode::NamespaceList,
            g.previous == AppMode::NamespaceList,
    {
        ModeGraph { current: AppMode::NamespaceList, previous: AppMode::NamespaceList }
    }

    /// Saves the current mode as the one to return to and switches to
    /// `target`.
    pub fn enter_overlay_or_detail(&mut self, target: AppMode)
        ensures
            *final(self) == old(self).entered(target),
    {
        self.previous = self.current;
        self.current = target;
    }

    /// Switches to the saved previous mode.
    pub fn return_to_previous(&mut self)
        ensures
            *final(self) == old(self).returned(),
    {
        self.current = self.previous;
    }

    /// From any list mode, goes to the namespace list, whatever the saved
    /// previous mode is. Any other mode is left as it is.
    pub fn return_to_root(&mut self)
        ensures
            *final(self) == old(self).at_root(),
    {
        if self.current.is_list() {
            self.current = AppMode::NamespaceList;
        }
    }

    /// Advances the current mode along its ring.
    pub fn cycle_forward(&mut self)
        ensures
            *final(self) == old(self).jumped(old(self).current.spec_cycle_forward()),
    {
        self.current = self.current.cycle_forward();
    }

    /// Moves the current mode back along its ring.
    pub fn cycle_backward(&mut self)
        ensures
            *final(self) == old(self).jumped(old(self).current.spec_cycle_backward()),
    {
        self.current = self.current.cycle_backward();
    }

    /// Switches directly to `target`, leaving the saved previous mode alone.
    pub fn jump(&mut self, target: AppMode)
        ensures
            *final(self) == old(self).jumped(target),
    {
        self.current = target;
    }
}

/// A list mode and the kind it browses determine each other.
pub proof fn lemma_list_mode_round_trip(kind: ResourceKind, mode: AppMode)
    ensures
        kind.spec_list_mode().spec_resource_kind() == Some(kind),
        mode.spec_resource_kind() is Some ==> mode.spec_resource_kind().unwrap().spec_list_mode()
            == mode,
{
}

/// Inside the two rings, cycling forward and then backward (or backward and
/// then forward) returns to the starting mode, and cycling never leaves the
/// list modes.
pub proof fn lemma_cycle_is_a_ring(mode: AppMode)
    requires
        mode.spec_is_list(),
        mode != AppMode::NamespaceList,
    ensures
        mode.spec_cycle_forward().spec_cycle_backward() == mode,
        mode.spec_cycle_backward().spec_cycle_forward() == mode,
        mode.spec_cycle_forward().spec_is_list(),
        mode.spec_cycle_backward().spec_is_list(),
        mode.spec_cycle_forward() != AppMode::NamespaceList,
        mode.spec_cycle_backward() != AppMode::NamespaceList,
{
}

} // verus!
