//! The cluster objects that the dashboard shows, as plain data.

use vstd::prelude::*;

verus! {

/// Something that has a name by which it is searched for and addressed.
pub trait Named {
    /// The name.
    spec fn spec_name(&self) -> Seq<char>;

    /// The name.
    fn name(&self) -> (name: &String)
        ensures
            name@ == self.spec_name(),
    ;
}

/// The names of `items`, in order.
pub open spec fn names_of<T: Named>(items: Seq<T>) -> Seq<Seq<char>> {
    Seq::new(items.len(), |i: int| items[i].spec_name())
}

/// A pod, as the pod list shows it.
#[derive(Debug, Clone)]
pub struct Pod {
    pub name: String,
    pub namespace: String,
    pub status: PodStatus,
    pub ready: String,
    pub restarts: u32,
    pub age: String,
    pub node: Option<String>,
    pub ip: Option<String>,
}

impl Named for Pod {
    open spec fn spec_name(&self) -> Seq<char> {
        self.name@
    }

    fn name(&self) -> (name: &String) {
        &self.name
    }
}

/// The status of a pod.
#[derive(Debug, Clone)]
pub struct PodStatus {
    pub phase: String,
    pub conditions: Option<Vec<PodCondition>>,
    pub container_statuses: Option<Vec<ContainerStatus>>,
}

/// One condition of a pod. Times are milliseconds since the Unix epoch.
#[derive(Debug, Clone)]
pub struct PodCondition {
    pub type_: String,
    pub status: String,
    pub last_transition_time: Option<i64>,
    pub reason: Option<String>,
    pub message: Option<String>,
}

/// The status of one container of a pod.
#[derive(Debug, Clone)]
pub struct ContainerStatus {
    pub name: String,
    pub ready: bool,
    pub restart_count: u32,
    pub state: ContainerState,
}

/// The state of a container: at most one of the three is set.
#[derive(Debug, Clone)]
pub struct ContainerState {
    pub running: Option<ContainerStateRunning>,
    pub waiting: Option<ContainerStateWaiting>,
    pub terminated: Option<ContainerStateTerminated>,
}

/// A running container. Times are milliseconds since the Unix epoch.
#[derive(Debug, Clone)]
pub struct ContainerStateRunning {
    pub started_at: Option<i64>,
}

/// A container that waits to start.
#[derive(Debug, Clone)]
pub struct ContainerStateWaiting {
    pub reason: Option<String>,
    pub message: Option<String>,
}

/// A container that has ended. Times are milliseconds since the Unix epoch.
#[derive(Debug, Clone)]
pub struct ContainerStateTerminated {
    pub exit_code: i32,
    pub reason: Option<String>,
    pub message: Option<String>,
    pub started_at: Option<i64>,
    pub finished_at: Option<i64>,
}

/// A service, as the service list shows it.
#[derive(Debug, Clone)]
pub struct Service {
    pub name: String,
    pub namespace: String,
    pub type_: String,
    pub cluster_ip: String,
    pub external_ip: Option<String>,
    pub ports: Vec<ServicePort>,
    pub age: String,
}

impl Named for Service {
    open spec fn spec_name(&self) -> Seq<char> {
        self.name@
    }

    fn name(&self) -> (name: &String) {
        &self.name
    }
}

/// One port of a service.
#[derive(Debug, Clone)]
pub struct ServicePort {
    pub name: Option<String>,
    pub port: u16,
    pub target_port: Option<String>,
    pub protocol: String,
}

/// A namespace.
#[derive(Debug, Clone)]
pub struct Namespace {
    pub name: String,
    pub status: String,
    pub age: String,
}

impl Named for Namespace {
    open spec fn spec_name(&self) -> Seq<char> {
        self.name@
    }

    fn name(&self) -> (name: &String) {
        &self.name
    }
}

/// A node of the cluster.
#[derive(Debug, Clone)]
pub struct Node {
    pub name: String,
    pub status: String,
    pub roles: Vec<String>,
    pub age: String,
    pub version: String,
    pub internal_ip: Option<String>,
    pub external_ip: Option<String>,
    pub os_image: Option<String>,
    pub kernel_version: Option<String>,
    pub container_runtime: Option<String>,
}

impl Named for Node {
    open spec fn spec_name(&self) -> Seq<char> {
        self.name@
    }

    fn name(&self) -> (name: &String) {
        &self.name
    }
}

/// A config map.
#[derive(Debug, Clone)]
pub struct ConfigMap {
    pub name: String,
    pub namespace: String,
    pub data_count: usize,
    pub age: String,
}

impl Named for ConfigMap {
    open spec fn spec_name(&self) -> Seq<char> {
        self.name@
    }

    fn name(&self) -> (name: &String) {
        &self.name
    }
}

/// A secret.
#[derive(Debug, Clone)]
pub struct Secret {
    pub name: String,
    pub namespace: String,
    pub type_: String,
    pub data_count: usize,
    pub age: String,
}

impl Named for Secret {
    open spec fn spec_name(&self) -> Seq<char> {
        self.name@
    }

    fn name(&self) -> (name: &String) {
        &self.name
    }
}

/// A deployment.
#[derive(Debug, Clone)]
pub struct Deployment {
    pub name: String,
    pub namespace: String,
    pub ready: String,
    pub up_to_date: u32,
    pub available: u32,
    pub age: String,
}

impl Named for Deployment {
    open spec fn spec_name(&self) -> Seq<char> {
        self.name@
    }

    fn name(&self) -> (name: &String) {
        &self.name
    }
}

/// A job.
#[derive(Debug, Clone)]
pub struct Job {
    pub name: String,
    pub namespace: String,
    pub completions: Option<u32>,
    pub successful: u32,
    pub age: String,
    pub duration: Option<String>,
    pub status: String,
}

impl Named for Job {
    open spec fn spec_name(&self) -> Seq<char> {
        self.name@
    }

    fn name(&self) -> (name: &String) {
        &self.name
    }
}

/// A daemon set.
#[derive(Debug, Clone)]
pub struct DaemonSet {
    pub name: String,
    pub namespace: String,
    pub desired: u32,
    pub current: u32,
    pub ready: u32,
    pub up_to_date: u32,
    pub available: u32,
    pub age: String,
}

impl Named for DaemonSet {
    open spec fn spec_name(&self) -> Seq<char> {
        self.name@
    }

    fn name(&self) -> (name: &String) {
        &self.name
    }
}

/// A persistent volume.
#[derive(Debug, Clone)]
pub struct PersistentVolume {
    pub name: String,
    pub capacity: String,
    pub access_modes: Vec<String>,
    pub reclaim_policy: String,
    pub status: String,
    pub claim: Option<String>,
    pub storage_class: Option<String>,
    pub age: String,
}

pub type PV = PersistentVolume;

impl Named for PersistentVolume {
    open spec fn spec_name(&self) -> Seq<char> {
        self.name@
    }

    fn name(&self) -> (name: &String) {
        &self.name
    }
}

/// A persistent volume claim.
#[derive(Debug, Clone)]
pub struct PersistentVolumeClaim {
    pub name: String,
    pub namespace: String,
    pub status: String,
    pub volume: Option<String>,
    pub capacity: Option<String>,
    pub access_modes: Vec<String>,
    pub storage_class: Option<String>,
    pub age: String,
}

pub type PVC = PersistentVolumeClaim;

impl Named for PersistentVolumeClaim {
    open spec fn spec_name(&self) -> Seq<char> {
        self.name@
    }

    fn name(&self) -> (name: &String) {
        &self.name
    }
}

/// A stateful set.
#[derive(Debug, Clone)]
pub struct StatefulSet {
    pub name: String,
    pub namespace: String,
    pub ready: String,
    pub age: String,
}

impl Named for StatefulSet {
    open spec fn spec_name(&self) -> Seq<char> {
        self.name@
    }

    fn name(&self) -> (name: &String) {
        &self.name
    }
}

/// An ingress.
#[derive(Debug, Clone)]
pub struct Ingress {
    pub name: String,
    pub namespace: String,
    pub hosts: Vec<String>,
    pub age: String,
}

impl Named for Ingress {
    open spec fn spec_name(&self) -> Seq<char> {
        self.name@
    }

    fn name(&self) -> (name: &String) {
        &self.name
    }
}

/// A network policy.
#[derive(Debug, Clone)]
pub struct NetworkPolicy {
    pub name: String,
    pub namespace: String,
    pub age: String,
}

impl Named for NetworkPolicy {
    open spec fn spec_name(&self) -> Seq<char> {
        self.name@
    }

    fn name(&self) -> (name: &String) {
        &self.name
    }
}

/// A role.
#[derive(Debug, Clone)]
pub struct Role {
    pub name: String,
    pub namespace: String,
    pub age: String,
}

impl Named for Role {
    open spec fn spec_name(&self) -> Seq<char> {
        self.name@
    }

    fn name(&self) -> (name: &String) {
        &self.name
    }
}

/// A role binding.
#[derive(Debug, Clone)]
pub struct RoleBinding {
    pub name: String,
    pub namespace: String,
    pub age: String,
}

impl Named for RoleBinding {
    open spec fn spec_name(&self) -> Seq<char> {
        self.name@
    }

    fn name(&self) -> (name: &String) {
        &self.name
    }
}

/// A cluster role.
#[derive(Debug, Clone)]
pub struct ClusterRole {
    pub name: String,
    pub age: String,
}

impl Named for ClusterRole {
    open spec fn spec_name(&self) -> Seq<char> {
        self.name@
    }

    fn name(&self) -> (name: &String) {
        &self.name
    }
}

/// A cluster role binding.
#[derive(Debug, Clone)]
pub struct ClusterRoleBinding {
    pub name: String,
    pub age: String,
}

impl Named for ClusterRoleBinding {
    open spec fn spec_name(&self) -> Seq<char> {
        self.name@
    }

    fn name(&self) -> (name: &String) {
        &self.name
    }
}

/// A service account.
#[derive(Debug, Clone)]
pub struct ServiceAccount {
    pub name: String,
    pub namespace: String,
    pub age: String,
}

impl Named for ServiceAccount {
    open spec fn spec_name(&self) -> Seq<char> {
        self.name@
    }

    fn name(&self) -> (name: &String) {
        &self.name
    }
}

/// Resource usage of one pod, as the metrics service reports it: the
/// amounts as text, and the usage of each container.
#[derive(Debug, Clone)]
pub struct ResourceMetrics {
    pub name: String,
    pub namespace: String,
    pub cpu: String,
    pub memory: String,
    pub containers: Vec<ContainerMetrics>,
}

pub type PodMetrics = ResourceMetrics;

/// Resource usage of one container.
#[derive(Debug, Clone)]
pub struct ContainerMetrics {
    pub name: String,
    pub cpu: String,
    pub memory: String,
}

} // verus!
