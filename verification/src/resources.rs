//! The collections of all resource kinds, addressed by kind.

use vstd::prelude::*;
use crate::kubectl::types::{
    names_of, ClusterRole, ClusterRoleBinding, ConfigMap, DaemonSet, Deployment, Ingress, Job,
    Named, Namespace, NetworkPolicy, Node, PersistentVolume, PersistentVolumeClaim, Pod, Role,
    RoleBinding, Secret, Service, ServiceAccount, StatefulSet,
};
use crate::mode::ResourceKind;
use crate::search::{matches_of, matching_indices};
use crate::selection::{CollectionView, ResourceCollection, SelectOp};

verus! {

/// What a `Resources` holds: one collection per resource kind.
pub ghost struct ResourcesView {
    pub namespaces: CollectionView<Namespace>,
    pub pods: CollectionView<Pod>,
    pub services: CollectionView<Service>,
    pub deployments: CollectionView<Deployment>,
    pub jobs: CollectionView<Job>,
    pub daemonsets: CollectionView<DaemonSet>,
    pub pvcs: CollectionView<PersistentVolumeClaim>,
    pub pvs: CollectionView<PersistentVolume>,
    pub nodes: CollectionView<Node>,
    pub configmaps: CollectionView<ConfigMap>,
    pub secrets: CollectionView<Secret>,
    pub statefulsets: CollectionView<StatefulSet>,
    pub ingresses: CollectionView<Ingress>,
    pub network_policies: CollectionView<NetworkPolicy>,
    pub roles: CollectionView<Role>,
    pub role_bindings: CollectionView<RoleBinding>,
    pub cluster_roles: CollectionView<ClusterRole>,
    pub cluster_role_bindings: CollectionView<ClusterRoleBinding>,
    pub service_accounts: CollectionView<ServiceAccount>,
}

impl ResourcesView {
    /// Every selection points at an item, or is 0 in an empty collection.
    #[verifier::opaque]
    pub open spec fn wf(self) -> bool {
        &&& self.namespaces.wf()
        &&& self.pods.wf()
        &&& self.services.wf()
        &&& self.deployments.wf()
        &&& self.jobs.wf()
        &&& self.daemonsets.wf()
        &&& self.pvcs.wf()
        &&& self.pvs.wf()
        &&& self.nodes.wf()
        &&& self.configmaps.wf()
        &&& self.secrets.wf()
        &&& self.statefulsets.wf()
        &&& self.ingresses.wf()
        &&& self.network_policies.wf()
        &&& self.roles.wf()
        &&& self.role_bindings.wf()
        &&& self.cluster_roles.wf()
        &&& self.cluster_role_bindings.wf()
        &&& self.service_accounts.wf()
    }

    /// Number of items of `kind`.
    pub open spec fn len(self, kind: ResourceKind) -> nat {
        match kind {
            ResourceKind::Namespace => self.namespaces.items.len(),
            ResourceKind::Pod => self.pods.items.len(),
            ResourceKind::Service => self.services.items.len(),
            ResourceKind::Deployment => self.deployments.items.len(),
            ResourceKind::Job => self.jobs.items.len(),
            ResourceKind::DaemonSet => self.daemonsets.items.len(),
            ResourceKind::PVC => self.pvcs.items.len(),
            ResourceKind::PV => self.pvs.items.len(),
            ResourceKind::Node => self.nodes.items.len(),
            ResourceKind::ConfigMap => self.configmaps.items.len(),
            ResourceKind::Secret => self.secrets.items.len(),
            ResourceKind::StatefulSet => self.statefulsets.items.len(),
            ResourceKind::Ingress => self.ingresses.items.len(),
            ResourceKind::NetworkPolicy => self.network_policies.items.len(),
            ResourceKind::Role => self.roles.items.len(),
            ResourceKind::RoleBinding => self.role_bindings.items.len(),
            ResourceKind::ClusterRole => self.cluster_roles.items.len(),
            ResourceKind::ClusterRoleBinding => self.cluster_role_bindings.items.len(),
            ResourceKind::ServiceAccount => self.service_accounts.items.len(),
        }
    }

    /// Index of the selected item of `kind`.
    pub open spec fn selected(self, kind: ResourceKind) -> nat {
        match kind {
            ResourceKind::Namespace => self.namespaces.selected,
            ResourceKind::Pod => self.pods.selected,
            ResourceKind::Service => self.services.selected,
            ResourceKind::Deployment => self.deployments.selected,
            ResourceKind::Job => self.jobs.selected,
            ResourceKind::DaemonSet => self.daemonsets.selected,
            ResourceKind::PVC => self.pvcs.selected,
            ResourceKind::PV => self.pvs.selected,
            ResourceKind::Node => self.nodes.selected,
            ResourceKind::ConfigMap => self.configmaps.selected,
            ResourceKind::Secret => self.secrets.selected,
            ResourceKind::StatefulSet => self.statefulsets.selected,
            ResourceKind::Ingress => self.ingresses.selected,
            ResourceKind::NetworkPolicy => self.network_policies.selected,
            ResourceKind::Role => self.roles.selected,
            ResourceKind::RoleBinding => self.role_bindings.selected,
            ResourceKind::ClusterRole => self.cluster_roles.selected,
            ResourceKind::ClusterRoleBinding => self.cluster_role_bindings.selected,
            ResourceKind::ServiceAccount => self.service_accounts.selected,
        }
    }

    /// The names of the items of `kind`, in order.
    pub open spec fn names(self, kind: ResourceKind) -> Seq<Seq<char>> {
        match kind {
            ResourceKind::Namespace => names_of(self.namespaces.items),
            ResourceKind::Pod => names_of(self.pods.items),
            ResourceKind::Service => names_of(self.services.items),
            ResourceKind::Deployment => names_of(self.deployments.items),
            ResourceKind::Job => names_of(self.jobs.items),
            ResourceKind::DaemonSet => names_of(self.daemonsets.items),
            ResourceKind::PVC => names_of(self.pvcs.items),
            ResourceKind::PV => names_of(self.pvs.items),
            ResourceKind::Node => names_of(self.nodes.items),
            ResourceKind::ConfigMap => names_of(self.configmaps.items),
            ResourceKind::Secret => names_of(self.secrets.items),
            ResourceKind::StatefulSet => names_of(self.statefulsets.items),
            ResourceKind::Ingress => names_of(self.ingresses.items),
            ResourceKind::NetworkPolicy => names_of(self.network_policies.items),
            ResourceKind::Role => names_of(self.roles.items),
            ResourceKind::RoleBinding => names_of(self.role_bindings.items),
            ResourceKind::ClusterRole => names_of(self.cluster_roles.items),
            ResourceKind::ClusterRoleBinding => names_of(self.cluster_role_bindings.items),
            ResourceKind::ServiceAccount => names_of(self.service_accounts.items),
        }
    }

    /// The name of the selected item of `kind`, if there is one.
    pub open spec fn selected_name(self, kind: ResourceKind) -> Option<Seq<char>> {
        if self.selected(kind) < self.len(kind) {
            Some(self.names(kind)[self.selected(kind) as int])
        } else {
            None
        }
    }

    /// The collections after one operation on the selection of `kind`. The
    /// collections of all other kinds stay as they are.
    #[verifier::opaque]
    pub open spec fn applied(self, kind: ResourceKind, op: SelectOp) -> ResourcesView {
        match kind {
            ResourceKind::Namespace => ResourcesView { namespaces: self.namespaces.applied(op), ..self },
            ResourceKind::Pod => ResourcesView { pods: self.pods.applied(op), ..self },
            ResourceKind::Service => ResourcesView { services: self.services.applied(op), ..self },
            ResourceKind::Deployment => ResourcesView { deployments: self.deployments.applied(op), ..self },
            ResourceKind::Job => ResourcesView { jobs: self.jobs.applied(op), ..self },
            ResourceKind::DaemonSet => ResourcesView { daemonsets: self.daemonsets.applied(op), ..self },
            ResourceKind::PVC => ResourcesView { pvcs: self.pvcs.applied(op), ..self },
            ResourceKind::PV => ResourcesView { pvs: self.pvs.applied(op), ..self },
            ResourceKind::Node => ResourcesView { nodes: self.nodes.applied(op), ..self },
            ResourceKind::ConfigMap => ResourcesView { configmaps: self.configmaps.applied(op), ..self },
            ResourceKind::Secret => ResourcesView { secrets: self.secrets.applied(op), ..self },
            ResourceKind::StatefulSet => ResourcesView { statefulsets: self.statefulsets.applied(op), ..self },
            ResourceKind::Ingress => ResourcesView { ingresses: self.ingresses.applied(op), ..self },
            ResourceKind::NetworkPolicy => ResourcesView { network_policies: self.network_policies.applied(op), ..self },
            ResourceKind::Role => ResourcesView { roles: self.roles.applied(op), ..self },
            ResourceKind::RoleBinding => ResourcesView { role_bindings: self.role_bindings.applied(op), ..self },
            ResourceKind::ClusterRole => ResourcesView { cluster_roles: self.cluster_roles.applied(op), ..self },
            ResourceKind::ClusterRoleBinding => ResourcesView { cluster_role_bindings: self.cluster_role_bindings.applied(op), ..self },
            ResourceKind::ServiceAccount => ResourcesView { service_accounts: self.service_accounts.applied(op), ..self },
        }
    }

    /// The collections after the selection of `kind` moved to the match
    /// `index`, if there is one.
    pub open spec fn selecting(self, kind: ResourceKind, index: Option<usize>) -> ResourcesView {
        match index {
            Some(i) => self.applied(kind, SelectOp::To(i)),
            None => self,
        }
    }

    /// The collections after a switch of namespace: the namespaces stay,
    /// with their selection reset; every other collection is empty.
    #[verifier::opaque]
    pub open spec fn after_namespace_switch(self) -> ResourcesView {
        ResourcesView {
            namespaces: self.namespaces.reset(),
            pods: CollectionView::empty(),
            services: CollectionView::empty(),
            deployments: CollectionView::empty(),
            jobs: CollectionView::empty(),
            daemonsets: CollectionView::empty(),
            pvcs: CollectionView::empty(),
            pvs: CollectionView::empty(),
            nodes: CollectionView::empty(),
            configmaps: CollectionView::empty(),
            secrets: CollectionView::empty(),
            statefulsets: CollectionView::empty(),
            ingresses: CollectionView::empty(),
            network_policies: CollectionView::empty(),
            roles: CollectionView::empty(),
            role_bindings: CollectionView::empty(),
            cluster_roles: CollectionView::empty(),
            cluster_role_bindings: CollectionView::empty(),
            service_accounts: CollectionView::empty(),
        }
    }
}

/// An operation on the selection of one kind leaves the number of items of
/// every kind, and the selection of every other kind, as they were.
#[verifier::rlimit(100)]
#[verifier::spinoff_prover]
pub proof fn lemma_select_op_is_local(
    r: ResourcesView,
    kind: ResourceKind,
    op: SelectOp,
    other: ResourceKind,
)
    ensures
        r.applied(kind, op).len(other) == r.len(other),
        r.applied(kind, op).names(other) == r.names(other),
        other != kind ==> r.applied(kind, op).selected(other) == r.selected(other),
        r.wf() ==> r.applied(kind, op).wf(),
{
    reveal(ResourcesView::wf);
    reveal(ResourcesView::applied);
    match kind {
        ResourceKind::Namespace => {},
        ResourceKind::Pod => {},
        ResourceKind::Service => {},
        ResourceKind::Deployment => {},
        ResourceKind::Job => {},
        ResourceKind::DaemonSet => {},
        ResourceKind::PVC => {},
        ResourceKind::PV => {},
        ResourceKind::Node => {},
        ResourceKind::ConfigMap => {},
        ResourceKind::Secret => {},
        ResourceKind::StatefulSet => {},
        ResourceKind::Ingress => {},
        ResourceKind::NetworkPolicy => {},
        ResourceKind::Role => {},
        ResourceKind::RoleBinding => {},
        ResourceKind::ClusterRole => {},
        ResourceKind::ClusterRoleBinding => {},
        ResourceKind::ServiceAccount => {},
    }
}

/// After a switch of namespace every selection index is 0 and every
/// collection but that of the namespaces is empty.
pub proof fn lemma_namespace_switch_resets(r: ResourcesView, kind: ResourceKind)
    ensures
        r.after_namespace_switch().selected(kind) == 0,
        kind != ResourceKind::Namespace ==> r.after_namespace_switch().len(kind) == 0,
        r.after_namespace_switch().namespaces.items == r.namespaces.items,
        r.after_namespace_switch().wf(),
{
    reveal(ResourcesView::wf);
    reveal(ResourcesView::after_namespace_switch);
}

/// One collection per resource kind.
#[derive(Debug)]
pub struct Resources {
    pub namespaces: ResourceCollection<Namespace>,
    pub pods: ResourceCollection<Pod>,
    pub services: ResourceCollection<Service>,
    pub deployments: ResourceCollection<Deployment>,
    pub jobs: ResourceCollection<Job>,
    pub daemonsets: ResourceCollection<DaemonSet>,
    pub pvcs: ResourceCollection<PersistentVolumeClaim>,
    pub pvs: ResourceCollection<PersistentVolume>,
    pub nodes: ResourceCollection<Node>,
    pub configmaps: ResourceCollection<ConfigMap>,
    pub secrets: ResourceCollection<Secret>,
    pub statefulsets: ResourceCollection<StatefulSet>,
    pub ingresses: ResourceCollection<Ingress>,
    pub network_policies: ResourceCollection<NetworkPolicy>,
    pub roles: ResourceCollection<Role>,
    pub role_bindings: ResourceCollection<RoleBinding>,
    pub cluster_roles: ResourceCollection<ClusterRole>,
    pub cluster_role_bindings: ResourceCollection<ClusterRoleBinding>,
    pub service_accounts: ResourceCollection<ServiceAccount>,
}

impl View for Resources {
    type V = ResourcesView;

    open spec fn view(&self) -> ResourcesView {
        ResourcesView {
            namespaces: self.namespaces@,
            pods: self.pods@,
            services: self.services@,
            deployments: self.deployments@,
            jobs: self.jobs@,
            daemonsets: self.daemonsets@,
            pvcs: self.pvcs@,
            pvs: self.pvs@,
            nodes: self.nodes@,
            configmaps: self.configmaps@,
            secrets: self.secrets@,
            statefulsets: self.statefulsets@,
            ingresses: self.ingresses@,
            network_policies: self.network_policies@,
            roles: self.roles@,
            role_bindings: self.role_bindings@,
            cluster_roles: self.cluster_roles@,
            cluster_role_bindings: self.cluster_role_bindings@,
            service_accounts: self.service_accounts@,
        }
    }
}

impl Resources {
    /// Empty collections of every kind.
    pub fn new() -> (r: Self)
        ensures
            r@.namespaces == CollectionView::<Namespace>::empty(),
            r@.pods == CollectionView::<Pod>::empty(),
            r@.services == CollectionView::<Service>::empty(),
            r@.deployments == CollectionView::<Deployment>::empty(),
            r@.jobs == CollectionView::<Job>::empty(),
            r@.daemonsets == CollectionView::<DaemonSet>::empty(),
            r@.pvcs == CollectionView::<PersistentVolumeClaim>::empty(),
            r@.pvs == CollectionView::<PersistentVolume>::empty(),
            r@.nodes == CollectionView::<Node>::empty(),
            r@.configmaps == CollectionView::<ConfigMap>::empty(),
            r@.secrets == CollectionView::<Secret>::empty(),
            r@.statefulsets == CollectionView::<StatefulSet>::empty(),
            r@.ingresses == CollectionView::<Ingress>::empty(),
            r@.network_policies == CollectionView::<NetworkPolicy>::empty(),
            r@.roles == CollectionView::<Role>::empty(),
            r@.role_bindings == CollectionView::<RoleBinding>::empty(),
            r@.cluster_roles == CollectionView::<ClusterRole>::empty(),
            r@.cluster_role_bindings == CollectionView::<ClusterRoleBinding>::empty(),
            r@.service_accounts == CollectionView::<ServiceAccount>::empty(),
            r@.wf(),
    {
        proof {
            reveal(ResourcesView::wf);
        }
        Resources {
            namespaces: ResourceCollection::new(),
            pods: ResourceCollection::new(),
            services: ResourceCollection::new(),
            deployments: ResourceCollection::new(),
            jobs: ResourceCollection::new(),
            daemonsets: ResourceCollection::new(),
            pvcs: ResourceCollection::new(),
            pvs: ResourceCollection::new(),
            nodes: ResourceCollection::new(),
            configmaps: ResourceCollection::new(),
            secrets: ResourceCollection::new(),
            statefulsets: ResourceCollection::new(),
            ingresses: ResourceCollection::new(),
            network_policies: ResourceCollection::new(),
            roles: ResourceCollection::new(),
            role_bindings: ResourceCollection::new(),
            cluster_roles: ResourceCollection::new(),
            cluster_role_bindings: ResourceCollection::new(),
            service_accounts: ResourceCollection::new(),
        }
    }

    /// Number of items of `kind`.
    pub fn len(&self, kind: ResourceKind) -> (n: usize)
        ensures
            n == self@.len(kind),
    {
        match kind {
            ResourceKind::Namespace => self.namespaces.len(),
            ResourceKind::Pod => self.pods.len(),
            ResourceKind::Service => self.services.len(),
            ResourceKind::Deployment => self.deployments.len(),
            ResourceKind::Job => self.jobs.len(),
            ResourceKind::DaemonSet => self.daemonsets.len(),
            ResourceKind::PVC => self.pvcs.len(),
            ResourceKind::PV => self.pvs.len(),
            ResourceKind::Node => self.nodes.len(),
            ResourceKind::ConfigMap => self.configmaps.len(),
            ResourceKind::Secret => self.secrets.len(),
            ResourceKind::StatefulSet => self.statefulsets.len(),
            ResourceKind::Ingress => self.ingresses.len(),
            ResourceKind::NetworkPolicy => self.network_policies.len(),
            ResourceKind::Role => self.roles.len(),
            ResourceKind::RoleBinding => self.role_bindings.len(),
            ResourceKind::ClusterRole => self.cluster_roles.len(),
            ResourceKind::ClusterRoleBinding => self.cluster_role_bindings.len(),
            ResourceKind::ServiceAccount => self.service_accounts.len(),
        }
    }

    /// Whether there is no item of `kind`.
    pub fn is_empty(&self, kind: ResourceKind) -> (b: bool)
        ensures
            b == (self@.len(kind) == 0),
    {
        self.len(kind) == 0
    }

    /// Index of the selected item of `kind`.
    pub fn selected_index(&self, kind: ResourceKind) -> (i: usize)
        ensures
            i == self@.selected(kind),
    {
        match kind {
            ResourceKind::Namespace => self.namespaces.selected_index(),
            ResourceKind::Pod => self.pods.selected_index(),
            ResourceKind::Service => self.services.selected_index(),
            ResourceKind::Deployment => self.deployments.selected_index(),
            ResourceKind::Job => self.jobs.selected_index(),
            ResourceKind::DaemonSet => self.daemonsets.selected_index(),
            ResourceKind::PVC => self.pvcs.selected_index(),
            ResourceKind::PV => self.pvs.selected_index(),
            ResourceKind::Node => self.nodes.selected_index(),
            ResourceKind::ConfigMap => self.configmaps.selected_index(),
            ResourceKind::Secret => self.secrets.selected_index(),
            ResourceKind::StatefulSet => self.statefulsets.selected_index(),
            ResourceKind::Ingress => self.ingresses.selected_index(),
            ResourceKind::NetworkPolicy => self.network_policies.selected_index(),
            ResourceKind::Role => self.roles.selected_index(),
            ResourceKind::RoleBinding => self.role_bindings.selected_index(),
            ResourceKind::ClusterRole => self.cluster_roles.selected_index(),
            ResourceKind::ClusterRoleBinding => self.cluster_role_bindings.selected_index(),
            ResourceKind::ServiceAccount => self.service_accounts.selected_index(),
        }
    }

    /// The name of the selected item of `kind`: `None` when there is no
    /// item of that kind.
    pub fn selected_name(&self, kind: ResourceKind) -> (name: Option<&String>)
        ensures
            match name {
                Some(n) => self@.selected_name(kind) == Some(n@),
                None => self@.selected_name(kind) is None,
            },
            name is None <==> self@.len(kind) == 0,
    {
        match kind {
            ResourceKind::Namespace => name_of(self.namespaces.get_selected()),
            ResourceKind::Pod => name_of(self.pods.get_selected()),
            ResourceKind::Service => name_of(self.services.get_selected()),
            ResourceKind::Deployment => name_of(self.deployments.get_selected()),
            ResourceKind::Job => name_of(self.jobs.get_selected()),
            ResourceKind::DaemonSet => name_of(self.daemonsets.get_selected()),
            ResourceKind::PVC => name_of(self.pvcs.get_selected()),
            ResourceKind::PV => name_of(self.pvs.get_selected()),
            ResourceKind::Node => name_of(self.nodes.get_selected()),
            ResourceKind::ConfigMap => name_of(self.configmaps.get_selected()),
            ResourceKind::Secret => name_of(self.secrets.get_selected()),
            ResourceKind::StatefulSet => name_of(self.statefulsets.get_selected()),
            ResourceKind::Ingress => name_of(self.ingresses.get_selected()),
            ResourceKind::NetworkPolicy => name_of(self.network_policies.get_selected()),
            ResourceKind::Role => name_of(self.roles.get_selected()),
            ResourceKind::RoleBinding => name_of(self.role_bindings.get_selected()),
            ResourceKind::ClusterRole => name_of(self.cluster_roles.get_selected()),
            ResourceKind::ClusterRoleBinding => name_of(self.cluster_role_bindings.get_selected()),
            ResourceKind::ServiceAccount => name_of(self.service_accounts.get_selected()),
        }
    }

    /// Applies one operation to the selection of `kind`.
    pub fn apply(&mut self, kind: ResourceKind, op: SelectOp)
        ensures
            final(self)@ == old(self)@.applied(kind, op),
    {
        proof {
            reveal(ResourcesView::applied);
        }
        match kind {
            ResourceKind::Namespace => self.namespaces.apply(op),
            ResourceKind::Pod => self.pods.apply(op),
            ResourceKind::Service => self.services.apply(op),
            ResourceKind::Deployment => self.deployments.apply(op),
            ResourceKind::Job => self.jobs.apply(op),
            ResourceKind::DaemonSet => self.daemonsets.apply(op),
            ResourceKind::PVC => self.pvcs.apply(op),
            ResourceKind::PV => self.pvs.apply(op),
            ResourceKind::Node => self.nodes.apply(op),
            ResourceKind::ConfigMap => self.configmaps.apply(op),
            ResourceKind::Secret => self.secrets.apply(op),
            ResourceKind::StatefulSet => self.statefulsets.apply(op),
            ResourceKind::Ingress => self.ingresses.apply(op),
            ResourceKind::NetworkPolicy => self.network_policies.apply(op),
            ResourceKind::Role => self.roles.apply(op),
            ResourceKind::RoleBinding => self.role_bindings.apply(op),
            ResourceKind::ClusterRole => self.cluster_roles.apply(op),
            ResourceKind::ClusterRoleBinding => self.cluster_role_bindings.apply(op),
            ResourceKind::ServiceAccount => self.service_accounts.apply(op),
        }
    }

    /// Moves the selection of `kind` one item up; it stops at the first
    /// item, and nothing happens when there is no item.
    pub fn move_up(&mut self, kind: ResourceKind)
        ensures
            final(self)@ == old(self)@.applied(kind, SelectOp::Up),
    {
        self.apply(kind, SelectOp::Up);
    }

    /// Moves the selection of `kind` one item down; it stops at the last
    /// item, and nothing happens when there is no item.
    pub fn move_down(&mut self, kind: ResourceKind)
        ensures
            final(self)@ == old(self)@.applied(kind, SelectOp::Down),
    {
        self.apply(kind, SelectOp::Down);
    }

    /// Sets the selection of `kind` back to the first item.
    pub fn reset_selection(&mut self, kind: ResourceKind)
        ensures
            final(self)@ == old(self)@.applied(kind, SelectOp::Reset),
    {
        self.apply(kind, SelectOp::Reset);
    }

    /// Moves the selection of `kind` to the match `index`, if there is one
    /// and it points at an item.
    pub fn select_match(&mut self, kind: ResourceKind, index: Option<usize>)
        ensures
            final(self)@ == old(self)@.selecting(kind, index),
    {
        match index {
            Some(i) => self.apply(kind, SelectOp::To(i)),
            None => {},
        }
    }

    /// The indices, in collection order, of the items of `kind` whose name
    /// contains `query`, letters compared without regard to case.
    pub fn matching_indices(&self, kind: ResourceKind, query: &Vec<char>) -> (matches: Vec<usize>)
        ensures
            matches@ == matches_of(self@.names(kind), query@),
    {
        match kind {
            ResourceKind::Namespace => matching_indices(self.namespaces.items(), query),
            ResourceKind::Pod => matching_indices(self.pods.items(), query),
            ResourceKind::Service => matching_indices(self.services.items(), query),
            ResourceKind::Deployment => matching_indices(self.deployments.items(), query),
            ResourceKind::Job => matching_indices(self.jobs.items(), query),
            ResourceKind::DaemonSet => matching_indices(self.daemonsets.items(), query),
            ResourceKind::PVC => matching_indices(self.pvcs.items(), query),
            ResourceKind::PV => matching_indices(self.pvs.items(), query),
            ResourceKind::Node => matching_indices(self.nodes.items(), query),
            ResourceKind::ConfigMap => matching_indices(self.configmaps.items(), query),
            ResourceKind::Secret => matching_indices(self.secrets.items(), query),
            ResourceKind::StatefulSet => matching_indices(self.statefulsets.items(), query),
            ResourceKind::Ingress => matching_indices(self.ingresses.items(), query),
            ResourceKind::NetworkPolicy => matching_indices(self.network_policies.items(), query),
            ResourceKind::Role => matching_indices(self.roles.items(), query),
            ResourceKind::RoleBinding => matching_indices(self.role_bindings.items(), query),
            ResourceKind::ClusterRole => matching_indices(self.cluster_roles.items(), query),
            ResourceKind::ClusterRoleBinding => matching_indices(self.cluster_role_bindings.items(), query),
            ResourceKind::ServiceAccount => matching_indices(self.service_accounts.items(), query),
        }
    }

    /// Empties every collection but that of the namespaces, and resets the
    /// selection of the namespaces.
    pub fn switch_namespace(&mut self)
        ensures
            final(self)@ == old(self)@.after_namespace_switch(),
    {
        proof {
            reveal(ResourcesView::after_namespace_switch);
        }
        self.namespaces.reset_selection();
        self.pods.clear();
        self.services.clear();
        self.deployments.clear();
        self.jobs.clear();
        self.daemonsets.clear();
        self.pvcs.clear();
        self.pvs.clear();
        self.nodes.clear();
        self.configmaps.clear();
        self.secrets.clear();
        self.statefulsets.clear();
        self.ingresses.clear();
        self.network_policies.clear();
        self.roles.clear();
        self.role_bindings.clear();
        self.cluster_roles.clear();
        self.cluster_role_bindings.clear();
        self.service_accounts.clear();
    }
}

/// The name of an optional item.
pub fn name_of<T: Named>(item: Option<&T>) -> (name: Option<&String>)
    ensures
        match name {
            Some(n) => item is Some && item.unwrap().spec_name() == n@,
            None => item is None,
        },
{
    match item {
        Some(t) => Some(t.name()),
        None => None,
    }
}

} // verus!
