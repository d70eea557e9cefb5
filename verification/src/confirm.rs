//! Confirmation of destructive actions.

use vstd::prelude::*;
use crate::mode::ResourceKind;

verus! {

/// A destructive action that waits for confirmation, with the exact
/// coordinates needed to perform it.
#[derive(Debug, Clone)]
pub enum ConfirmAction {
    DeletePod { namespace: String, name: String },
    DeleteService { namespace: String, name: String },
    DeleteDeployment { namespace: String, name: String },
    DeleteJob { namespace: String, name: String },
    DeleteDaemonSet { namespace: String, name: String },
    DeleteConfigMap { namespace: String, name: String },
    DeleteSecret { namespace: String, name: String },
    DeletePVC { namespace: String, name: String },
    DeletePV { name: String },
    DeleteStatefulSet { namespace: String, name: String },
    DeleteIngress { namespace: String, name: String },
    DeleteNetworkPolicy { namespace: String, name: String },
    DeleteRole { namespace: String, name: String },
    DeleteRoleBinding { namespace: String, name: String },
    DeleteClusterRole { name: String },
    DeleteClusterRoleBinding { name: String },
    DeleteServiceAccount { namespace: String, name: String },
}

/// The coordinates of a `ConfirmAction`: the kind of the object, its
/// namespace where the kind has one, and its name.
pub ghost struct ConfirmActionView {
    pub kind: ResourceKind,
    pub namespace: Option<Seq<char>>,
    pub name: Seq<char>,
}

impl View for ConfirmAction {
    type V = ConfirmActionView;

    open spec fn view(&self) -> ConfirmActionView {
        match *self {
            ConfirmAction::DeletePod { namespace, name } => ConfirmActionView {
                kind: ResourceKind::Pod,
                namespace: Some(namespace@),
                name: name@,
            },
            ConfirmAction::DeleteService { namespace, name } => ConfirmActionView {
                kind: ResourceKind::Service,
                namespace: Some(namespace@),
                name: name@,
            },
            ConfirmAction::DeleteDeployment { namespace, name } => ConfirmActionView {
                kind: ResourceKind::Deployment,
                namespace: Some(namespace@),
                name: name@,
            },
            ConfirmAction::DeleteJob { namespace, name } => ConfirmActionView {
                kind: ResourceKind::Job,
                namespace: Some(namespace@),
                name: name@,
            },
            ConfirmAction::DeleteDaemonSet { namespace, name } => ConfirmActionView {
                kind: ResourceKind::DaemonSet,
                namespace: Some(namespace@),
                name: name@,
            },
            ConfirmAction::DeleteConfigMap { namespace, name } => ConfirmActionView {
                kind: ResourceKind::ConfigMap,
                namespace: Some(namespace@),
                name: name@,
            },
            ConfirmAction::DeleteSecret { namespace, name } => ConfirmActionView {
                kind: ResourceKind::Secret,
                namespace: Some(namespace@),
                name: name@,
            },
            ConfirmAction::DeletePVC { namespace, name } => ConfirmActionView {
                kind: ResourceKind::PVC,
                namespace: Some(namespace@),
                name: name@,
            },
            ConfirmAction::DeletePV { name } => ConfirmActionView {
                kind: ResourceKind::PV,
                namespace: None,
                name: name@,
            },
            ConfirmAction::DeleteStatefulSet { namespace, name } => ConfirmActionView {
                kind: ResourceKind::StatefulSet,
                namespace: Some(namespace@),
                name: name@,
            },
            ConfirmAction::DeleteIngress { namespace, name } => ConfirmActionView {
                kind: ResourceKind::Ingress,
                namespace: Some(namespace@),
                name: name@,
            },
            ConfirmAction::DeleteNetworkPolicy { namespace, name } => ConfirmActionView {
                kind: ResourceKind::NetworkPolicy,
                namespace: Some(namespace@),
                name: name@,
            },
            ConfirmAction::DeleteRole { namespace, name } => ConfirmActionView {
                kind: ResourceKind::Role,
                namespace: Some(namespace@),
                name: name@,
            },
            ConfirmAction::DeleteRoleBinding { namespace, name } => ConfirmActionView {
                kind: ResourceKind::RoleBinding,
                namespace: Some(namespace@),
                name: name@,
            },
            ConfirmAction::DeleteClusterRole { name } => ConfirmActionView {
                kind: ResourceKind::ClusterRole,
                namespace: None,
                name: name@,
            },
            ConfirmAction::DeleteClusterRoleBinding { name } => ConfirmActionView {
                kind: ResourceKind::ClusterRoleBinding,
                namespace: None,
                name: name@,
            },
            ConfirmAction::DeleteServiceAccount { namespace, name } => ConfirmActionView {
                kind: ResourceKind::ServiceAccount,
                namespace: Some(namespace@),
                name: name@,
            },
        }
    }
}

/// The coordinates of the delete request for the object `name` of `kind`
/// in `namespace`: `None` for a kind that cannot be deleted from the
/// dashboard; without a namespace for a kind that has none.
pub open spec fn delete_request(kind: ResourceKind, namespace: Seq<char>, name: Seq<char>)
    -> Option<ConfirmActionView> {
    if !kind.spec_is_deletable() {
        None
    } else {
        Some(
            ConfirmActionView {
                kind,
                namespace: if kind.spec_is_namespaced() {
                    Some(namespace)
                } else {
                    None
                },
                name,
            },
        )
    }
}

/// The view of an optional action.
pub open spec fn action_view(action: Option<ConfirmAction>) -> Option<ConfirmActionView> {
    match action {
        Some(a) => Some(a@),
        None => None,
    }
}

impl ConfirmAction {
    /// The delete request for the object `name` of `kind` in `namespace`.
    /// Kinds that cannot be deleted from the dashboard give `None`; kinds
    /// outside any namespace ignore `namespace`.
    pub fn delete(kind: ResourceKind, namespace: &String, name: &String) -> (action: Option<
        ConfirmAction,
    >)
        ensures
            action_view(action) == delete_request(kind, namespace@, name@),
    {
        let namespace = namespace.clone();
        let name = name.clone();
        match kind {
            ResourceKind::Namespace | ResourceKind::Node => None,
            ResourceKind::Pod => Some(ConfirmAction::DeletePod { namespace, name }),
            ResourceKind::Service => Some(ConfirmAction::DeleteService { namespace, name }),
            ResourceKind::Deployment => Some(ConfirmAction::DeleteDeployment { namespace, name }),
            ResourceKind::Job => Some(ConfirmAction::DeleteJob { namespace, name }),
            ResourceKind::DaemonSet => Some(ConfirmAction::DeleteDaemonSet { namespace, name }),
            ResourceKind::ConfigMap => Some(ConfirmAction::DeleteConfigMap { namespace, name }),
            ResourceKind::Secret => Some(ConfirmAction::DeleteSecret { namespace, name }),
            ResourceKind::PVC => Some(ConfirmAction::DeletePVC { namespace, name }),
            ResourceKind::PV => Some(ConfirmAction::DeletePV { name }),
            ResourceKind::StatefulSet => Some(ConfirmAction::DeleteStatefulSet { namespace, name }),
            ResourceKind::Ingress => Some(ConfirmAction::DeleteIngress { namespace, name }),
            ResourceKind::NetworkPolicy => Some(
                ConfirmAction::DeleteNetworkPolicy { namespace, name },
            ),
            ResourceKind::Role => Some(ConfirmAction::DeleteRole { namespace, name }),
            ResourceKind::RoleBinding => Some(ConfirmAction::DeleteRoleBinding { namespace, name }),
            ResourceKind::ClusterRole => Some(ConfirmAction::DeleteClusterRole { name }),
            ResourceKind::ClusterRoleBinding => Some(
                ConfirmAction::DeleteClusterRoleBinding { name },
            ),
            ResourceKind::ServiceAccount => Some(
                ConfirmAction::DeleteServiceAccount { namespace, name },
            ),
        }
    }

    /// The kind of the object the action is about.
    pub fn kind(&self) -> (kind: ResourceKind)
        ensures
            kind == self@.kind,
    {
        match self {
            ConfirmAction::DeletePod { .. } => ResourceKind::Pod,
            ConfirmAction::DeleteService { .. } => ResourceKind::Service,
            ConfirmAction::DeleteDeployment { .. } => ResourceKind::Deployment,
            ConfirmAction::DeleteJob { .. } => ResourceKind::Job,
            ConfirmAction::DeleteDaemonSet { .. } => ResourceKind::DaemonSet,
            ConfirmAction::DeleteConfigMap { .. } => ResourceKind::ConfigMap,
            ConfirmAction::DeleteSecret { .. } => ResourceKind::Secret,
            ConfirmAction::DeletePVC { .. } => ResourceKind::PVC,
            ConfirmAction::DeletePV { .. } => ResourceKind::PV,
            ConfirmAction::DeleteStatefulSet { .. } => ResourceKind::StatefulSet,
            ConfirmAction::DeleteIngress { .. } => ResourceKind::Ingress,
            ConfirmAction::DeleteNetworkPolicy { .. } => ResourceKind::NetworkPolicy,
            ConfirmAction::DeleteRole { .. } => ResourceKind::Role,
            ConfirmAction::DeleteRoleBinding { .. } => ResourceKind::RoleBinding,
            ConfirmAction::DeleteClusterRole { .. } => ResourceKind::ClusterRole,
            ConfirmAction::DeleteClusterRoleBinding { .. } => ResourceKind::ClusterRoleBinding,
            ConfirmAction::DeleteServiceAccount { .. } => ResourceKind::ServiceAccount,
        }
    }

    /// The name of the object the action is about.
    pub fn name(&self) -> (name: &String)
        ensures
            name@ == self@.name,
    {
        match self {
            ConfirmAction::DeletePod { name, .. } => name,
            ConfirmAction::DeleteService { name, .. } => name,
            ConfirmAction::DeleteDeployment { name, .. } => name,
            ConfirmAction::DeleteJob { name, .. } => name,
            ConfirmAction::DeleteDaemonSet { name, .. } => name,
            ConfirmAction::DeleteConfigMap { name, .. } => name,
            ConfirmAction::DeleteSecret { name, .. } => name,
            ConfirmAction::DeletePVC { name, .. } => name,
            ConfirmAction::DeletePV { name } => name,
            ConfirmAction::DeleteStatefulSet { name, .. } => name,
            ConfirmAction::DeleteIngress { name, .. } => name,
            ConfirmAction::DeleteNetworkPolicy { name, .. } => name,
            ConfirmAction::DeleteRole { name, .. } => name,
            ConfirmAction::DeleteRoleBinding { name, .. } => name,
            ConfirmAction::DeleteClusterRole { name } => name,
            ConfirmAction::DeleteClusterRoleBinding { name } => name,
            ConfirmAction::DeleteServiceAccount { name, .. } => name,
        }
    }

    /// The namespace of the object the action is about; `None` for kinds
    /// outside any namespace.
    pub fn namespace(&self) -> (namespace: Option<&String>)
        ensures
            match namespace {
                Some(ns) => self@.namespace == Some(ns@),
                None => self@.namespace is None,
            },
    {
        match self {
            ConfirmAction::DeletePod { namespace, .. } => Some(namespace),
            ConfirmAction::DeleteService { namespace, .. } => Some(namespace),
            ConfirmAction::DeleteDeployment { namespace, .. } => Some(namespace),
            ConfirmAction::DeleteJob { namespace, .. } => Some(namespace),
            ConfirmAction::DeleteDaemonSet { namespace, .. } => Some(namespace),
            ConfirmAction::DeleteConfigMap { namespace, .. } => Some(namespace),
            ConfirmAction::DeleteSecret { namespace, .. } => Some(namespace),
            ConfirmAction::DeletePVC { namespace, .. } => Some(namespace),
            ConfirmAction::DeletePV { .. } => None,
            ConfirmAction::DeleteStatefulSet { namespace, .. } => Some(namespace),
            ConfirmAction::DeleteIngress { namespace, .. } => Some(namespace),
            ConfirmAction::DeleteNetworkPolicy { namespace, .. } => Some(namespace),
            ConfirmAction::DeleteRole { namespace, .. } => Some(namespace),
            ConfirmAction::DeleteRoleBinding { namespace, .. } => Some(namespace),
            ConfirmAction::DeleteClusterRole { .. } => None,
            ConfirmAction::DeleteClusterRoleBinding { .. } => None,
            ConfirmAction::DeleteServiceAccount { namespace, .. } => Some(namespace),
        }
    }
}

/// What can happen at the confirmation. `Other` stands for any input that
/// it ignores.
pub ghost enum GateOp<A> {
    Request(A),
    Confirm,
    Deny,
    Other,
}

/// The pending request after `op`.
pub open spec fn gate_pending<A>(pending: Option<A>, op: GateOp<A>) -> Option<A> {
    match op {
        GateOp::Request(a) => Some(a),
        GateOp::Confirm => None,
        GateOp::Deny => None,
        GateOp::Other => pending,
    }
}

/// The action that `op` hands to the delete collaborator, if any.
pub open spec fn gate_released<A>(pending: Option<A>, op: GateOp<A>) -> Option<A> {
    match op {
        GateOp::Confirm => pending,
        _ => None,
    }
}

/// The pending request after the first `n` of `ops`, starting with nothing
/// pending.
pub open spec fn pending_after<A>(ops: Seq<GateOp<A>>, n: nat) -> Option<A>
    recommends
        n <= ops.len(),
    decreases n,
{
    if n == 0 {
        None
    } else {
        gate_pending(pending_after(ops, (n - 1) as nat), ops[n - 1])
    }
}

/// The action that the `i`-th of `ops` hands to the delete collaborator,
/// starting with nothing pending.
pub open spec fn released_at<A>(ops: Seq<GateOp<A>>, i: nat) -> Option<A>
    recommends
        i < ops.len(),
{
    gate_released(pending_after(ops, i), ops[i as int])
}

/// Whether the `j`-th of `ops` requests `a` and only ignored input lies
/// between it and position `i`.
pub open spec fn requested_and_open<A>(ops: Seq<GateOp<A>>, j: int, i: nat, a: A) -> bool {
    &&& 0 <= j < i
    &&& ops[j] == GateOp::Request(a)
    &&& forall|k: int| j < k < i ==> ops[k] is Other
}

/// `a` is pending after the first `n` operations exactly when one of them
/// requested it and nothing but ignored input followed the request.
pub proof fn lemma_pending_iff_requested<A>(ops: Seq<GateOp<A>>, n: nat, a: A)
    requires
        n <= ops.len(),
    ensures
        pending_after(ops, n) == Some(a) <==> exists|j: int| requested_and_open(ops, j, n, a),
    decreases n,
{
    if n > 0 {
        let m = (n - 1) as nat;
        lemma_pending_iff_requested(ops, m, a);
        let last = ops[n - 1];
        if pending_after(ops, n) == Some(a) {
            if last is Other {
                let j = choose|j: int| requested_and_open(ops, j, m, a);
                assert(requested_and_open(ops, j, n, a));
            } else {
                assert(requested_and_open(ops, n - 1, n, a));
            }
        }
        if exists|j: int| requested_and_open(ops, j, n, a) {
            let j = choose|j: int| requested_and_open(ops, j, n, a);
            if j < n - 1 {
                assert(ops[n - 1] is Other);
                assert(requested_and_open(ops, j, m, a));
            }
        }
    }
}

/// Confirmation safety: in any interleaving of requests, confirmations,
/// denials and ignored input, an action reaches the delete collaborator
/// only through a confirmation, and only the action of a request that was
/// neither confirmed, denied nor replaced in between. A denial and a
/// request release nothing.
pub proof fn lemma_delete_only_after_confirmed_request<A>(ops: Seq<GateOp<A>>, i: nat, a: A)
    requires
        i < ops.len(),
    ensures
        released_at(ops, i) == Some(a) <==> (ops[i as int] is Confirm && exists|j: int|
            requested_and_open(ops, j, i, a)),
        !(ops[i as int] is Confirm) ==> released_at(ops, i) is None,
{
    lemma_pending_iff_requested(ops, i, a);
}

/// Holds at most one pending destructive action.
#[derive(Debug, Clone)]
pub struct ConfirmationGate {
    pub pending: Option<ConfirmAction>,
}

impl ConfirmationGate {
    /// A gate with nothing pending.
    pub fn new() -> (g: Self)
        ensures
            g.pending is None,
    {
        ConfirmationGate { pending: None }
    }

    /// Whether a request waits for its answer.
    pub fn is_pending(&self) -> (b: bool)
        ensures
            b == self.pending is Some,
    {
        self.pending.is_some()
    }

    /// Makes `action` the pending request. A request that was pending is
    /// overwritten.
    pub fn request(&mut self, action: ConfirmAction)
        ensures
            final(self).pending == gate_pending(old(self).pending, GateOp::Request(action)),
            final(self).pending == Some(action),
    {
        self.pending = Some(action);
    }

    /// Answers the pending request with yes: clears it and returns it, to
    /// be handed to the delete collaborator. Returns `None` exactly when
    /// nothing was pending.
    pub fn confirm(&mut self) -> (released: Option<ConfirmAction>)
        ensures
            final(self).pending == gate_pending(old(self).pending, GateOp::Confirm),
            released == gate_released(old(self).pending, GateOp::Confirm),
            final(self).pending is None,
            released == old(self).pending,
    {
        self.pending.take()
    }

    /// Answers the pending request with no: clears it. Nothing is
    /// released.
    pub fn deny(&mut self)
        ensures
            final(self).pending == gate_pending(old(self).pending, GateOp::Deny),
            final(self).pending is None,
    {
        self.pending = None;
    }
}

} // verus!
