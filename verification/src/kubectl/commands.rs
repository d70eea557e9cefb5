//! The command lines of the cluster tool, as argument lists.
//!
//! Nothing here starts a process. Every function gives the arguments that
//! the tool is to be started with; starting it, and reading what it prints,
//! is left to the caller.

use vstd::prelude::*;
use vstd::string::StringExecFns;
use crate::confirm::ConfirmAction;
use crate::mode::ResourceKind;
use crate::text::{decimal, decimal_text, strings_of, texts};

verus! {

/// Arguments that list the objects called `resource` in `namespace`, as
/// JSON.
pub open spec fn list_in(resource: Seq<char>, namespace: Seq<char>) -> Seq<Seq<char>> {
    seq!["get"@, resource, "-n"@, namespace, "-o"@, "json"@]
}

/// Arguments that list the objects called `resource` of the whole cluster,
/// as JSON.
pub open spec fn list_all(resource: Seq<char>) -> Seq<Seq<char>> {
    seq!["get"@, resource, "-o"@, "json"@]
}

/// Arguments that describe the object `name` of the kind `resource` in
/// `namespace`.
pub open spec fn describe_in(resource: Seq<char>, namespace: Seq<char>, name: Seq<char>) -> Seq<
    Seq<char>,
> {
    seq!["describe"@, resource, "-n"@, namespace, name]
}

/// Arguments that describe the object `name` of the cluster-wide kind
/// `resource`.
pub open spec fn describe_global(resource: Seq<char>, name: Seq<char>) -> Seq<Seq<char>> {
    seq!["describe"@, resource, name]
}

/// Arguments that print the manifest of the object `name` of the kind
/// `resource` in `namespace`.
pub open spec fn yaml_in(resource: Seq<char>, namespace: Seq<char>, name: Seq<char>) -> Seq<
    Seq<char>,
> {
    seq!["get"@, resource, "-n"@, namespace, name, "-o"@, "yaml"@]
}

/// Arguments that print the manifest of the object `name` of the
/// cluster-wide kind `resource`.
pub open spec fn yaml_global(resource: Seq<char>, name: Seq<char>) -> Seq<Seq<char>> {
    seq!["get"@, resource, name, "-o"@, "yaml"@]
}

/// Arguments that list the namespaces of the cluster, one name per line,
/// each behind the prefix `namespace/`.
pub fn get_namespaces() -> (args: Vec<String>)
    ensures
        texts(args@) == seq!["get"@, "namespaces"@, "-o"@, "name"@],
{
    let args = strings_of(&["get", "namespaces", "-o", "name"]);
    assert(texts(args@) =~= seq!["get"@, "namespaces"@, "-o"@, "name"@]);
    args
}

/// Arguments that list the pods of `namespace`, as JSON.
pub fn get_pods(namespace: &str) -> (args: Vec<String>)
    ensures
        texts(args@) == list_in("pods"@, namespace@),
{
    let args = strings_of(&["get", "pods", "-n", namespace, "-o", "json"]);
    assert(texts(args@) =~= list_in("pods"@, namespace@));
    args
}

/// Arguments that list the services of `namespace`, as JSON.
pub fn get_services(namespace: &str) -> (args: Vec<String>)
    ensures
        texts(args@) == list_in("services"@, namespace@),
{
    let args = strings_of(&["get", "services", "-n", namespace, "-o", "json"]);
    assert(texts(args@) =~= list_in("services"@, namespace@));
    args
}

/// Arguments that list the config maps of `namespace`, as JSON.
pub fn get_configmaps(namespace: &str) -> (args: Vec<String>)
    ensures
        texts(args@) == list_in("configmaps"@, namespace@),
{
    let args = strings_of(&["get", "configmaps", "-n", namespace, "-o", "json"]);
    assert(texts(args@) =~= list_in("configmaps"@, namespace@));
    args
}

/// Arguments that list the secrets of `namespace`, as JSON.
pub fn get_secrets(namespace: &str) -> (args: Vec<String>)
    ensures
        texts(args@) == list_in("secrets"@, namespace@),
{
    let args = strings_of(&["get", "secrets", "-n", namespace, "-o", "json"]);
    assert(texts(args@) =~= list_in("secrets"@, namespace@));
    args
}

/// Arguments that list the deployments of `namespace`, as JSON.
pub fn get_deployments(namespace: &str) -> (args: Vec<String>)
    ensures
        texts(args@) == list_in("deployments"@, namespace@),
{
    let args = strings_of(&["get", "deployments", "-n", namespace, "-o", "json"]);
    assert(texts(args@) =~= list_in("deployments"@, namespace@));
    args
}

/// Arguments that list the jobs of `namespace`, as JSON.
pub fn get_jobs(namespace: &str) -> (args: Vec<String>)
    ensures
        texts(args@) == list_in("jobs"@, namespace@),
{
    let args = strings_of(&["get", "jobs", "-n", namespace, "-o", "json"]);
    assert(texts(args@) =~= list_in("jobs"@, namespace@));
    args
}

/// Arguments that list the daemon sets of `namespace`, as JSON.
pub fn get_daemonsets(namespace: &str) -> (args: Vec<String>)
    ensures
        texts(args@) == list_in("daemonsets"@, namespace@),
{
    let args = strings_of(&["get", "daemonsets", "-n", namespace, "-o", "json"]);
    assert(texts(args@) =~= list_in("daemonsets"@, namespace@));
    args
}

/// Arguments that list the persistent volume claims of `namespace`, as JSON.
pub fn get_pvcs(namespace: &str) -> (args: Vec<String>)
    ensures
        texts(args@) == list_in("pvc"@, namespace@),
{
    let args = strings_of(&["get", "pvc", "-n", namespace, "-o", "json"]);
    assert(texts(args@) =~= list_in("pvc"@, namespace@));
    args
}

/// Arguments that list the stateful sets of `namespace`, as JSON.
pub fn get_statefulsets(namespace: &str) -> (args: Vec<String>)
    ensures
        texts(args@) == list_in("statefulsets"@, namespace@),
{
    let args = strings_of(&["get", "statefulsets", "-n", namespace, "-o", "json"]);
    assert(texts(args@) =~= list_in("statefulsets"@, namespace@));
    args
}

/// Arguments that list the ingresses of `namespace`, as JSON.
pub fn get_ingresses(namespace: &str) -> (args: Vec<String>)
    ensures
        texts(args@) == list_in("ingresses"@, namespace@),
{
    let args = strings_of(&["get", "ingresses", "-n", namespace, "-o", "json"]);
    assert(texts(args@) =~= list_in("ingresses"@, namespace@));
    args
}

/// Arguments that list the network policies of `namespace`, as JSON.
pub fn get_network_policies(namespace: &str) -> (args: Vec<String>)
    ensures
        texts(args@) == list_in("networkpolicies"@, namespace@),
{
    let args = strings_of(&["get", "networkpolicies", "-n", namespace, "-o", "json"]);
    assert(texts(args@) =~= list_in("networkpolicies"@, namespace@));
    args
}

/// Arguments that list the roles of `namespace`, as JSON.
pub fn get_roles(namespace: &str) -> (args: Vec<String>)
    ensures
        texts(args@) == list_in("roles"@, namespace@),
{
    let args = strings_of(&["get", "roles", "-n", namespace, "-o", "json"]);
    assert(texts(args@) =~= list_in("roles"@, namespace@));
    args
}

/// Arguments that list the role bindings of `namespace`, as JSON.
pub fn get_role_bindings(namespace: &str) -> (args: Vec<String>)
    ensures
        texts(args@) == list_in("rolebindings"@, namespace@),
{
    let args = strings_of(&["get", "rolebindings", "-n", namespace, "-o", "json"]);
    assert(texts(args@) =~= list_in("rolebindings"@, namespace@));
    args
}

/// Arguments that list the service accounts of `namespace`, as JSON.
pub fn get_service_accounts(namespace: &str) -> (args: Vec<String>)
    ensures
        texts(args@) == list_in("serviceaccounts"@, namespace@),
{
    let args = strings_of(&["get", "serviceaccounts", "-n", namespace, "-o", "json"]);
    assert(texts(args@) =~= list_in("serviceaccounts"@, namespace@));
    args
}

/// Arguments that list the nodes of the cluster, as JSON.
pub fn get_nodes() -> (args: Vec<String>)
    ensures
        texts(args@) == list_all("nodes"@),
{
    let args = strings_of(&["get", "nodes", "-o", "json"]);
    assert(texts(args@) =~= list_all("nodes"@));
    args
}

/// Arguments that list the persistent volumes of the cluster, as JSON.
pub fn get_pvs() -> (args: Vec<String>)
    ensures
        texts(args@) == list_all("pv"@),
{
    let args = strings_of(&["get", "pv", "-o", "json"]);
    assert(texts(args@) =~= list_all("pv"@));
    args
}

/// Arguments that list the cluster roles of the cluster, as JSON.
pub fn get_cluster_roles() -> (args: Vec<String>)
    ensures
        texts(args@) == list_all("clusterroles"@),
{
    let args = strings_of(&["get", "clusterroles", "-o", "json"]);
    assert(texts(args@) =~= list_all("clusterroles"@));
    args
}

/// Arguments that list the cluster role bindings of the cluster, as JSON.
pub fn get_cluster_role_bindings() -> (args: Vec<String>)
    ensures
        texts(args@) == list_all("clusterrolebindings"@),
{
    let args = strings_of(&["get", "clusterrolebindings", "-o", "json"]);
    assert(texts(args@) =~= list_all("clusterrolebindings"@));
    args
}

/// Arguments that describe the pod `name` of `namespace`.
pub fn describe_pod(namespace: &str, name: &str) -> (args: Vec<String>)
    ensures
        texts(args@) == describe_in("pod"@, namespace@, name@),
{
    let args = strings_of(&["describe", "pod", "-n", namespace, name]);
    assert(texts(args@) =~= describe_in("pod"@, namespace@, name@));
    args
}

/// Arguments that describe the service `name` of `namespace`.
pub fn describe_service(namespace: &str, name: &str) -> (args: Vec<String>)
    ensures
        texts(args@) == describe_in("service"@, namespace@, name@),
{
    let args = strings_of(&["describe", "service", "-n", namespace, name]);
    assert(texts(args@) =~= describe_in("service"@, namespace@, name@));
    args
}

/// Arguments that describe the deployment `name` of `namespace`.
pub fn describe_deployment(namespace: &str, name: &str) -> (args: Vec<String>)
    ensures
        texts(args@) == describe_in("deployment"@, namespace@, name@),
{
    let args = strings_of(&["describe", "deployment", "-n", namespace, name]);
    assert(texts(args@) =~= describe_in("deployment"@, namespace@, name@));
    args
}

/// Arguments that describe the job `name` of `namespace`.
pub fn describe_job(namespace: &str, name: &str) -> (args: Vec<String>)
    ensures
        texts(args@) == describe_in("job"@, namespace@, name@),
{
    let args = strings_of(&["describe", "job", "-n", namespace, name]);
    assert(texts(args@) =~= describe_in("job"@, namespace@, name@));
    args
}

/// Arguments that describe the daemon set `name` of `namespace`.
pub fn describe_daemonset(namespace: &str, name: &str) -> (args: Vec<String>)
    ensures
        texts(args@) == describe_in("daemonset"@, namespace@, name@),
{
    let args = strings_of(&["describe", "daemonset", "-n", namespace, name]);
    assert(texts(args@) =~= describe_in("daemonset"@, namespace@, name@));
    args
}

/// Arguments that describe the config map `name` of `namespace`.
pub fn describe_configmap(namespace: &str, name: &str) -> (args: Vec<String>)
    ensures
        texts(args@) == describe_in("configmap"@, namespace@, name@),
{
    let args = strings_of(&["describe", "configmap", "-n", namespace, name]);
    assert(texts(args@) =~= describe_in("configmap"@, namespace@, name@));
    args
}

/// Arguments that describe the secret `name` of `namespace`.
pub fn describe_secret(namespace: &str, name: &str) -> (args: Vec<String>)
    ensures
        texts(args@) == describe_in("secret"@, namespace@, name@),
{
    let args = strings_of(&["describe", "secret", "-n", namespace, name]);
    assert(texts(args@) =~= describe_in("secret"@, namespace@, name@));
    args
}

/// Arguments that describe the persistent volume claim `name` of `namespace`.
pub fn describe_pvc(namespace: &str, name: &str) -> (args: Vec<String>)
    ensures
        texts(args@) == describe_in("pvc"@, namespace@, name@),
{
    let args = strings_of(&["describe", "pvc", "-n", namespace, name]);
    assert(texts(args@) =~= describe_in("pvc"@, namespace@, name@));
    args
}

/// Arguments that describe the stateful set `name` of `namespace`.
pub fn describe_statefulset(namespace: &str, name: &str) -> (args: Vec<String>)
    ensures
        texts(args@) == describe_in("statefulset"@, namespace@, name@),
{
    let args = strings_of(&["describe", "statefulset", "-n", namespace, name]);
    assert(texts(args@) =~= describe_in("statefulset"@, namespace@, name@));
    args
}

/// Arguments that describe the ingress `name` of `namespace`.
pub fn describe_ingress(namespace: &str, name: &str) -> (args: Vec<String>)
    ensures
        texts(args@) == describe_in("ingress"@, namespace@, name@),
{
    let args = strings_of(&["describe", "ingress", "-n", namespace, name]);
    assert(texts(args@) =~= describe_in("ingress"@, namespace@, name@));
    args
}

/// Arguments that describe the network policy `name` of `namespace`.
pub fn describe_network_policy(namespace: &str, name: &str) -> (args: Vec<String>)
    ensures
        texts(args@) == describe_in("networkpolicy"@, namespace@, name@),
{
    let args = strings_of(&["describe", "networkpolicy", "-n", namespace, name]);
    assert(texts(args@) =~= describe_in("networkpolicy"@, namespace@, name@));
    args
}

/// Arguments that describe the role `name` of `namespace`.
pub fn describe_role(namespace: &str, name: &str) -> (args: Vec<String>)
    ensures
        texts(args@) == describe_in("role"@, namespace@, name@),
{
    let args = strings_of(&["describe", "role", "-n", namespace, name]);
    assert(texts(args@) =~= describe_in("role"@, namespace@, name@));
    args
}

/// Arguments that describe the role binding `name` of `namespace`.
pub fn describe_role_binding(namespace: &str, name: &str) -> (args: Vec<String>)
    ensures
        texts(args@) == describe_in("rolebinding"@, namespace@, name@),
{
    let args = strings_of(&["describe", "rolebinding", "-n", namespace, name]);
    assert(texts(args@) =~= describe_in("rolebinding"@, namespace@, name@));
    args
}

/// Arguments that describe the service account `name` of `namespace`.
pub fn describe_service_account(namespace: &str, name: &str) -> (args: Vec<String>)
    ensures
        texts(args@) == describe_in("serviceaccount"@, namespace@, name@),
{
    let args = strings_of(&["describe", "serviceaccount", "-n", namespace, name]);
    assert(texts(args@) =~= describe_in("serviceaccount"@, namespace@, name@));
    args
}

/// Arguments that describe the node `name`.
pub fn describe_node(name: &str) -> (args: Vec<String>)
    ensures
        texts(args@) == describe_global("node"@, name@),
{
    let args = strings_of(&["describe", "node", name]);
    assert(texts(args@) =~= describe_global("node"@, name@));
    args
}

/// Arguments that describe the persistent volume `name`.
pub fn describe_pv(name: &str) -> (args: Vec<String>)
    ensures
        texts(args@) == describe_global("pv"@, name@),
{
    let args = strings_of(&["describe", "pv", name]);
    assert(texts(args@) =~= describe_global("pv"@, name@));
    args
}

/// Arguments that describe the cluster role `name`.
pub fn describe_cluster_role(name: &str) -> (args: Vec<String>)
    ensures
        texts(args@) == describe_global("clusterrole"@, name@),
{
    let args = strings_of(&["describe", "clusterrole", name]);
    assert(texts(args@) =~= describe_global("clusterrole"@, name@));
    args
}

/// Arguments that describe the cluster role binding `name`.
pub fn describe_cluster_role_binding(name: &str) -> (args: Vec<String>)
    ensures
        texts(args@) == describe_global("clusterrolebinding"@, name@),
{
    let args = strings_of(&["describe", "clusterrolebinding", name]);
    assert(texts(args@) =~= describe_global("clusterrolebinding"@, name@));
    args
}

/// Arguments that print the manifest of the pod `name` of `namespace`.
pub fn get_pod_yaml(namespace: &str, name: &str) -> (args: Vec<String>)
    ensures
        texts(args@) == yaml_in("pod"@, namespace@, name@),
{
    let args = strings_of(&["get", "pod", "-n", namespace, name, "-o", "yaml"]);
    assert(texts(args@) =~= yaml_in("pod"@, namespace@, name@));
    args
}

/// Arguments that print the manifest of the service `name` of `namespace`.
pub fn get_service_yaml(namespace: &str, name: &str) -> (args: Vec<String>)
    ensures
        texts(args@) == yaml_in("service"@, namespace@, name@),
{
    let args = strings_of(&["get", "service", "-n", namespace, name, "-o", "yaml"]);
    assert(texts(args@) =~= yaml_in("service"@, namespace@, name@));
    args
}

/// Arguments that print the manifest of the deployment `name` of `namespace`.
pub fn get_deployment_yaml(namespace: &str, name: &str) -> (args: Vec<String>)
    ensures
        texts(args@) == yaml_in("deployment"@, namespace@, name@),
{
    let args = strings_of(&["get", "deployment", "-n", namespace, name, "-o", "yaml"]);
    assert(texts(args@) =~= yaml_in("deployment"@, namespace@, name@));
    args
}

/// Arguments that print the manifest of the job `name` of `namespace`.
pub fn get_job_yaml(namespace: &str, name: &str) -> (args: Vec<String>)
    ensures
        texts(args@) == yaml_in("job"@, namespace@, name@),
{
    let args = strings_of(&["get", "job", "-n", namespace, name, "-o", "yaml"]);
    assert(texts(args@) =~= yaml_in("job"@, namespace@, name@));
    args
}

/// Arguments that print the manifest of the daemon set `name` of `namespace`.
pub fn get_daemonset_yaml(namespace: &str, name: &str) -> (args: Vec<String>)
    ensures
        texts(args@) == yaml_in("daemonset"@, namespace@, name@),
{
    let args = strings_of(&["get", "daemonset", "-n", namespace, name, "-o", "yaml"]);
    assert(texts(args@) =~= yaml_in("daemonset"@, namespace@, name@));
    args
}

/// Arguments that print the manifest of the config map `name` of `namespace`.
pub fn get_configmap_yaml(namespace: &str, name: &str) -> (args: Vec<String>)
    ensures
        texts(args@) == yaml_in("configmap"@, namespace@, name@),
{
    let args = strings_of(&["get", "configmap", "-n", namespace, name, "-o", "yaml"]);
    assert(texts(args@) =~= yaml_in("configmap"@, namespace@, name@));
    args
}

/// Arguments that print the manifest of the secret `name` of `namespace`.
pub fn get_secret_yaml(namespace: &str, name: &str) -> (args: Vec<String>)
    ensures
        texts(args@) == yaml_in("secret"@, namespace@, name@),
{
    let args = strings_of(&["get", "secret", "-n", namespace, name, "-o", "yaml"]);
    assert(texts(args@) =~= yaml_in("secret"@, namespace@, name@));
    args
}

/// Arguments that print the manifest of the persistent volume claim `name` of `namespace`.
pub fn get_pvc_yaml(namespace: &str, name: &str) -> (args: Vec<String>)
    ensures
        texts(args@) == yaml_in("pvc"@, namespace@, name@),
{
    let args = strings_of(&["get", "pvc", "-n", namespace, name, "-o", "yaml"]);
    assert(texts(args@) =~= yaml_in("pvc"@, namespace@, name@));
    args
}

/// Arguments that print the manifest of the stateful set `name` of `namespace`.
pub fn get_statefulset_yaml(namespace: &str, name: &str) -> (args: Vec<String>)
    ensures
        texts(args@) == yaml_in("statefulset"@, namespace@, name@),
{
    let args = strings_of(&["get", "statefulset", "-n", namespace, name, "-o", "yaml"]);
    assert(texts(args@) =~= yaml_in("statefulset"@, namespace@, name@));
    args
}

/// Arguments that print the manifest of the ingress `name` of `namespace`.
pub fn get_ingress_yaml(namespace: &str, name: &str) -> (args: Vec<String>)
    ensures
        texts(args@) == yaml_in("ingress"@, namespace@, name@),
{
    let args = strings_of(&["get", "ingress", "-n", namespace, name, "-o", "yaml"]);
    assert(texts(args@) =~= yaml_in("ingress"@, namespace@, name@));
    args
}

/// Arguments that print the manifest of the network policy `name` of `namespace`.
pub fn get_network_policy_yaml(namespace: &str, name: &str) -> (args: Vec<String>)
    ensures
        texts(args@) == yaml_in("networkpolicy"@, namespace@, name@),
{
    let args = strings_of(&["get", "networkpolicy", "-n", namespace, name, "-o", "yaml"]);
    assert(texts(args@) =~= yaml_in("networkpolicy"@, namespace@, name@));
    args
}

/// Arguments that print the manifest of the role `name` of `namespace`.
pub fn get_role_yaml(namespace: &str, name: &str) -> (args: Vec<String>)
    ensures
        texts(args@) == yaml_in("role"@, namespace@, name@),
{
    let args = strings_of(&["get", "role", "-n", namespace, name, "-o", "yaml"]);
    assert(texts(args@) =~= yaml_in("role"@, namespace@, name@));
    args
}

/// Arguments that print the manifest of the role binding `name` of `namespace`.
pub fn get_role_binding_yaml(namespace: &str, name: &str) -> (args: Vec<String>)
    ensures
        texts(args@) == yaml_in("rolebinding"@, namespace@, name@),
{
    let args = strings_of(&["get", "rolebinding", "-n", namespace, name, "-o", "yaml"]);
    assert(texts(args@) =~= yaml_in("rolebinding"@, namespace@, name@));
    args
}

/// Arguments that print the manifest of the service account `name` of `namespace`.
pub fn get_service_account_yaml(namespace: &str, name: &str) -> (args: Vec<String>)
    ensures
        texts(args@) == yaml_in("serviceaccount"@, namespace@, name@),
{
    let args = strings_of(&["get", "serviceaccount", "-n", namespace, name, "-o", "yaml"]);
    assert(texts(args@) =~= yaml_in("serviceaccount"@, namespace@, name@));
    args
}

/// Arguments that print the manifest of the node `name`.
pub fn get_node_yaml(name: &str) -> (args: Vec<String>)
    ensures
        texts(args@) == yaml_global("node"@, name@),
{
    let args = strings_of(&["get", "node", name, "-o", "yaml"]);
    assert(texts(args@) =~= yaml_global("node"@, name@));
    args
}

/// Arguments that print the manifest of the persistent volume `name`.
pub fn get_pv_yaml(name: &str) -> (args: Vec<String>)
    ensures
        texts(args@) == yaml_global("pv"@, name@),
{
    let args = strings_of(&["get", "pv", name, "-o", "yaml"]);
    assert(texts(args@) =~= yaml_global("pv"@, name@));
    args
}

/// Arguments that print the manifest of the cluster role `name`.
pub fn get_cluster_role_yaml(name: &str) -> (args: Vec<String>)
    ensures
        texts(args@) == yaml_global("clusterrole"@, name@),
{
    let args = strings_of(&["get", "clusterrole", name, "-o", "yaml"]);
    assert(texts(args@) =~= yaml_global("clusterrole"@, name@));
    args
}

/// Arguments that print the manifest of the cluster role binding `name`.
pub fn get_cluster_role_binding_yaml(name: &str) -> (args: Vec<String>)
    ensures
        texts(args@) == yaml_global("clusterrolebinding"@, name@),
{
    let args = strings_of(&["get", "clusterrolebinding", name, "-o", "yaml"]);
    assert(texts(args@) =~= yaml_global("clusterrolebinding"@, name@));
    args
}

/// Arguments that delete the pod `pod_name` of `namespace`.
pub fn delete_pod(namespace: &str, pod_name: &str) -> (args: Vec<String>)
    ensures
        texts(args@) == seq!["delete"@, "pod"@, "-n"@, namespace@, pod_name@],
{
    let args = strings_of(&["delete", "pod", "-n", namespace, pod_name]);
    assert(texts(args@) =~= seq!["delete"@, "pod"@, "-n"@, namespace@, pod_name@]);
    args
}

/// Arguments that print the resource usage of the pods of `namespace`,
/// one pod per line, without a header.
pub fn get_top_pods(namespace: &str) -> (args: Vec<String>)
    ensures
        texts(args@) == seq!["top"@, "pods"@, "-n"@, namespace@, "--no-headers"@],
{
    let args = strings_of(&["top", "pods", "-n", namespace, "--no-headers"]);
    assert(texts(args@) =~= seq!["top"@, "pods"@, "-n"@, namespace@, "--no-headers"@]);
    args
}

/// Arguments that print the resource usage of the containers of the pod
/// `pod_name` of `namespace`, one container per line, without a header.
pub fn get_top_pod(namespace: &str, pod_name: &str) -> (args: Vec<String>)
    ensures
        texts(args@) == seq!["top"@, "pod"@, "-n"@, namespace@, pod_name@, "--containers"@, "--no-headers"@],
{
    let args = strings_of(&["top", "pod", "-n", namespace, pod_name, "--containers", "--no-headers"]);
    assert(texts(args@) =~= seq!["top"@, "pod"@, "-n"@, namespace@, pod_name@, "--containers"@, "--no-headers"@]);
    args
}

/// Arguments that print the last `lines` lines of the log of the pod
/// `pod_name` of `namespace`.
pub fn get_pod_logs(namespace: &str, pod_name: &str, lines: u32) -> (args: Vec<String>)
    ensures
        texts(args@) == seq![
            "logs"@,
            "-n"@,
            namespace@,
            pod_name@,
            "--tail"@,
            decimal(lines as nat),
        ],
{
    let count = decimal_text(lines as u64);
    let args = strings_of(&["logs", "-n", namespace, pod_name, "--tail", count.as_str()]);
    assert(texts(args@) =~= seq![
        "logs"@,
        "-n"@,
        namespace@,
        pod_name@,
        "--tail"@,
        decimal(lines as nat),
    ]);
    args
}

/// Arguments that run `command` through a shell inside the pod `pod_name`
/// of `namespace`, on an interactive terminal.
pub fn exec_pod(namespace: &str, pod_name: &str, command: &str) -> (args: Vec<String>)
    ensures
        texts(args@) == seq![
            "exec"@,
            "-it"@,
            "-n"@,
            namespace@,
            pod_name@,
            "--"@,
            "sh"@,
            "-c"@,
            command@,
        ],
{
    let args = strings_of(&["exec", "-it", "-n", namespace, pod_name, "--", "sh", "-c", command]);
    assert(texts(args@) =~= seq![
        "exec"@,
        "-it"@,
        "-n"@,
        namespace@,
        pod_name@,
        "--"@,
        "sh"@,
        "-c"@,
        command@,
    ]);
    args
}

/// How the cluster tool is started on this machine.
#[derive(Debug, Clone, Copy, PartialEq, Eq, Structural)]
pub enum KubectlCommand {
    /// As `kubectl`.
    Direct,
    /// As `minikube kubectl --`.
    Minikube,
}

impl KubectlCommand {
    /// The program to start.
    pub fn program(self) -> (name: &'static str)
        ensures
            name@ == match self {
                KubectlCommand::Direct => "kubectl"@,
                KubectlCommand::Minikube => "minikube"@,
            },
    {
        match self {
            KubectlCommand::Direct => "kubectl",
            KubectlCommand::Minikube => "minikube",
        }
    }

    /// The arguments to start the program with so that the tool sees
    /// `args`.
    pub open spec fn spec_arguments(self, args: Seq<Seq<char>>) -> Seq<Seq<char>> {
        match self {
            KubectlCommand::Direct => args,
            KubectlCommand::Minikube => seq!["kubectl"@, "--"@] + args,
        }
    }

    /// The arguments to start the program with so that the tool sees
    /// `args`: `args` themselves, behind `kubectl --` where the tool is
    /// reached through minikube.
    pub fn arguments(self, args: &Vec<String>) -> (full: Vec<String>)
        ensures
            texts(full@) == self.spec_arguments(texts(args@)),
    {
        let mut full: Vec<String> = match self {
            KubectlCommand::Direct => Vec::new(),
            KubectlCommand::Minikube => strings_of(&["kubectl", "--"]),
        };
        let ghost prefix = texts(full@);
        assert(prefix =~= self.spec_arguments(Seq::empty()));
        let mut i: usize = 0;
        while i < args.len()
            invariant
                i <= args.len(),
                prefix == self.spec_arguments(Seq::empty()),
                full@.len() == prefix.len() + i,
                forall|k: int| 0 <= k < prefix.len() ==> (#[trigger] full@[k])@ == prefix[k],
                forall|k: int| 0 <= k < i ==> (#[trigger] full@[prefix.len() + k])@ == args@[k]@,
            decreases args.len() - i,
        {
            full.push(args[i].clone());
            i = i + 1;
        }
        assert forall|k: int| 0 <= k < full@.len() implies texts(full@)[k] == (prefix + texts(
            args@,
        ))[k] by {
            if k >= prefix.len() {
                let j = k - prefix.len();
                assert(full@[prefix.len() + j]@ == args@[j]@);
            }
        }
        assert(texts(full@) =~= prefix + texts(args@));
        assert(prefix + texts(args@) =~= self.spec_arguments(texts(args@)));
        full
    }
}

/// How one attempt to run the tool ended.
#[derive(Debug, Clone, Copy, PartialEq, Eq, Structural)]
pub enum ProbeOutcome {
    /// The program could not be started.
    Unstartable,
    /// The program ran and reported failure.
    Failed,
    /// The program ran and reported success.
    Succeeded,
}

/// What to do next while finding out whether the tool can be run.
#[derive(Debug, Clone, Copy, PartialEq, Eq, Structural)]
pub enum ProbeDecision {
    /// Run the probe with this index and report its outcome.
    Try(usize),
    /// The tool can be run.
    Available,
    /// The tool cannot be run.
    Unavailable,
}

/// Number of probes that are tried at most.
pub const PROBE_COUNT: usize = 3;

/// Whether one of the first `n` outcomes is a success.
pub open spec fn any_succeeded(outcomes: Seq<ProbeOutcome>, n: int) -> bool {
    exists|i: int| 0 <= i < n && i < outcomes.len() && outcomes[i] == ProbeOutcome::Succeeded
}

/// The decision after the probes so far ended as `outcomes` say: the tool
/// is available as soon as one probe succeeded, the next probe is tried
/// while there is one, and the tool is unavailable when all failed.
pub open spec fn probe_decision(outcomes: Seq<ProbeOutcome>) -> ProbeDecision {
    if any_succeeded(outcomes, PROBE_COUNT as int) {
        ProbeDecision::Available
    } else if outcomes.len() < PROBE_COUNT {
        ProbeDecision::Try(outcomes.len() as usize)
    } else {
        ProbeDecision::Unavailable
    }
}

/// The arguments of the probe with the given index: the client version,
/// the version, the help text.
pub fn probe_arguments(index: usize) -> (args: Option<Vec<String>>)
    ensures
        index >= PROBE_COUNT ==> args is None,
        index == 0 ==> args is Some && texts(args.unwrap()@) == seq!["version"@, "--client"@],
        index == 1 ==> args is Some && texts(args.unwrap()@) == seq!["version"@],
        index == 2 ==> args is Some && texts(args.unwrap()@) == seq!["--help"@],
{
    if index == 0 {
        let args = strings_of(&["version", "--client"]);
        assert(texts(args@) =~= seq!["version"@, "--client"@]);
        Some(args)
    } else if index == 1 {
        let args = strings_of(&["version"]);
        assert(texts(args@) =~= seq!["version"@]);
        Some(args)
    } else if index == 2 {
        let args = strings_of(&["--help"]);
        assert(texts(args@) =~= seq!["--help"@]);
        Some(args)
    } else {
        None
    }
}

/// Decides, from the outcomes of the probes run so far, whether the tool
/// can be run under one name, or which probe to run next.
pub fn check_kubectl_command(outcomes: &Vec<ProbeOutcome>) -> (decision: ProbeDecision)
    ensures
        decision == probe_decision(outcomes@),
{
    let mut i: usize = 0;
    while i < outcomes.len() && i < PROBE_COUNT
        invariant
            i <= outcomes.len(),
            i <= PROBE_COUNT,
            !any_succeeded(outcomes@, i as int),
        decreases outcomes.len() - i,
    {
        if outcomes[i] == ProbeOutcome::Succeeded {
            assert(any_succeeded(outcomes@, PROBE_COUNT as int));
            return ProbeDecision::Available;
        }
        i = i + 1;
    }
    if outcomes.len() < PROBE_COUNT {
        ProbeDecision::Try(outcomes.len())
    } else {
        ProbeDecision::Unavailable
    }
}

/// Arguments that ask minikube for its status.
pub fn minikube_status_arguments() -> (args: Vec<String>)
    ensures
        texts(args@) == seq!["status"@],
{
    let args = strings_of(&["status"]);
    assert(texts(args@) =~= seq!["status"@]);
    args
}

/// Decides whether the tool can be run through minikube: never unless
/// minikube itself reported a good status, and then by the probes as for
/// the tool itself.
pub fn check_minikube_kubectl(status: ProbeOutcome, outcomes: &Vec<ProbeOutcome>) -> (decision:
    ProbeDecision)
    ensures
        decision == if status == ProbeOutcome::Succeeded {
            probe_decision(outcomes@)
        } else {
            ProbeDecision::Unavailable
        },
{
    if status == ProbeOutcome::Succeeded {
        check_kubectl_command(outcomes)
    } else {
        ProbeDecision::Unavailable
    }
}

/// Whether the tool can be reached at all: directly or through minikube.
pub fn check_kubectl_available(direct: bool, minikube: bool) -> (available: bool)
    ensures
        available == (direct || minikube),
{
    direct || minikube
}

/// How to start the tool: directly where that works, through minikube
/// where only that works, and directly where nothing works, so that the
/// failure shows.
pub fn get_kubectl_command(direct: bool, minikube: bool) -> (command: KubectlCommand)
    ensures
        command == if !direct && minikube {
            KubectlCommand::Minikube
        } else {
            KubectlCommand::Direct
        },
{
    if direct {
        KubectlCommand::Direct
    } else if minikube {
        KubectlCommand::Minikube
    } else {
        KubectlCommand::Direct
    }
}

/// Why a run of the tool gave no output to work with.
#[derive(Debug)]
pub enum KubectlError {
    /// The program could not be started.
    Spawn { command: KubectlCommand, reason: String },
    /// The tool ran and reported failure; this is what it wrote to its
    /// error stream.
    Failed { stderr: String },
    /// The output was not valid UTF-8.
    InvalidUtf8 { reason: String },
}

/// The message of an error.
pub open spec fn error_message(e: KubectlError) -> Seq<char> {
    match e {
        KubectlError::Spawn { command, reason } => match command {
            KubectlCommand::Direct => "Failed to execute kubectl: "@ + reason@,
            KubectlCommand::Minikube => "Failed to execute minikube kubectl: "@ + reason@,
        },
        KubectlError::Failed { stderr } => "kubectl command failed: "@ + stderr@,
        KubectlError::InvalidUtf8 { reason } => "Invalid UTF-8 output: "@ + reason@,
    }
}

/// The message of a failed query for resource usage, whose cause has the
/// message `cause`.
pub open spec fn top_error_message(cause: Seq<char>) -> Seq<char> {
    "kubectl top failed: "@ + cause + ". Note: metrics-server might not be installed."@
}

impl KubectlError {
    /// The message of the error.
    pub fn message(&self) -> (text: String)
        ensures
            text@ == error_message(*self),
    {
        match self {
            KubectlError::Spawn { command, reason } => {
                let mut text = match command {
                    KubectlCommand::Direct => String::from_str("Failed to execute kubectl: "),
                    KubectlCommand::Minikube => String::from_str(
                        "Failed to execute minikube kubectl: ",
                    ),
                };
                text.append(reason.as_str());
                text
            },
            KubectlError::Failed { stderr } => {
                let mut text = String::from_str("kubectl command failed: ");
                text.append(stderr.as_str());
                text
            },
            KubectlError::InvalidUtf8 { reason } => {
                let mut text = String::from_str("Invalid UTF-8 output: ");
                text.append(reason.as_str());
                text
            },
        }
    }

    /// The message of the error for a query for resource usage, which
    /// hints at the metrics service.
    pub fn top_message(&self) -> (text: String)
        ensures
            text@ == top_error_message(error_message(*self)),
    {
        let mut text = String::from_str("kubectl top failed: ");
        let cause = self.message();
        text.append(cause.as_str());
        text.append(". Note: metrics-server might not be installed.");
        text
    }
}

/// What a finished run of the tool gives: its output if it reported
/// success, and else what it wrote to its error stream, as an error.
pub fn execute_kubectl(success: bool, stdout: String, stderr: String) -> (result: Result<
    String,
    KubectlError,
>)
    ensures
        success ==> result == Ok::<String, KubectlError>(stdout),
        !success ==> result == Err::<String, KubectlError>(KubectlError::Failed { stderr }),
{
    if success {
        Ok(stdout)
    } else {
        Err(KubectlError::Failed { stderr })
    }
}

/// The word by which the tool lists the objects of `kind`.
pub open spec fn plural_word(kind: ResourceKind) -> Seq<char> {
    match kind {
        ResourceKind::Namespace => "namespaces"@,
        ResourceKind::Pod => "pods"@,
        ResourceKind::Service => "services"@,
        ResourceKind::Deployment => "deployments"@,
        ResourceKind::Job => "jobs"@,
        ResourceKind::DaemonSet => "daemonsets"@,
        ResourceKind::PVC => "pvc"@,
        ResourceKind::PV => "pv"@,
        ResourceKind::Node => "nodes"@,
        ResourceKind::ConfigMap => "configmaps"@,
        ResourceKind::Secret => "secrets"@,
        ResourceKind::StatefulSet => "statefulsets"@,
        ResourceKind::Ingress => "ingresses"@,
        ResourceKind::NetworkPolicy => "networkpolicies"@,
        ResourceKind::Role => "roles"@,
        ResourceKind::RoleBinding => "rolebindings"@,
        ResourceKind::ClusterRole => "clusterroles"@,
        ResourceKind::ClusterRoleBinding => "clusterrolebindings"@,
        ResourceKind::ServiceAccount => "serviceaccounts"@,
    }
}

/// The word by which the tool addresses one object of `kind`.
pub open spec fn singular_word(kind: ResourceKind) -> Seq<char> {
    match kind {
        ResourceKind::Namespace => "namespace"@,
        ResourceKind::Pod => "pod"@,
        ResourceKind::Service => "service"@,
        ResourceKind::Deployment => "deployment"@,
        ResourceKind::Job => "job"@,
        ResourceKind::DaemonSet => "daemonset"@,
        ResourceKind::PVC => "pvc"@,
        ResourceKind::PV => "pv"@,
        ResourceKind::Node => "node"@,
        ResourceKind::ConfigMap => "configmap"@,
        ResourceKind::Secret => "secret"@,
        ResourceKind::StatefulSet => "statefulset"@,
        ResourceKind::Ingress => "ingress"@,
        ResourceKind::NetworkPolicy => "networkpolicy"@,
        ResourceKind::Role => "role"@,
        ResourceKind::RoleBinding => "rolebinding"@,
        ResourceKind::ClusterRole => "clusterrole"@,
        ResourceKind::ClusterRoleBinding => "clusterrolebinding"@,
        ResourceKind::ServiceAccount => "serviceaccount"@,
    }
}

/// Arguments that list the objects of `kind`: those of `namespace` for a
/// kind that lives in namespaces, those of the cluster for any other; as
/// JSON, but for the namespaces, which are listed by name.
pub open spec fn list_arguments(kind: ResourceKind, namespace: Seq<char>) -> Seq<Seq<char>> {
    if kind == ResourceKind::Namespace {
        seq!["get"@, "namespaces"@, "-o"@, "name"@]
    } else if kind.spec_is_namespaced() {
        list_in(plural_word(kind), namespace)
    } else {
        list_all(plural_word(kind))
    }
}

/// Arguments that describe the object `name` of `kind`.
pub open spec fn describe_arguments(kind: ResourceKind, namespace: Seq<char>, name: Seq<char>)
    -> Seq<Seq<char>> {
    if kind.spec_is_namespaced() {
        describe_in(singular_word(kind), namespace, name)
    } else {
        describe_global(singular_word(kind), name)
    }
}

/// Arguments that print the manifest of the object `name` of `kind`.
pub open spec fn yaml_arguments(kind: ResourceKind, namespace: Seq<char>, name: Seq<char>) -> Seq<
    Seq<char>,
> {
    if kind.spec_is_namespaced() {
        yaml_in(singular_word(kind), namespace, name)
    } else {
        yaml_global(singular_word(kind), name)
    }
}

/// Arguments that delete the object `name` of `kind`.
pub open spec fn delete_arguments(kind: ResourceKind, namespace: Option<Seq<char>>, name: Seq<char>)
    -> Seq<Seq<char>> {
    match namespace {
        Some(ns) => seq!["delete"@, singular_word(kind), "-n"@, ns, name],
        None => seq!["delete"@, singular_word(kind), name],
    }
}

/// The word by which the tool addresses one object of `kind`.
pub fn resource_word(kind: ResourceKind) -> (word: &'static str)
    ensures
        word@ == singular_word(kind),
{
    match kind {
        ResourceKind::Namespace => "namespace",
        ResourceKind::Pod => "pod",
        ResourceKind::Service => "service",
        ResourceKind::Deployment => "deployment",
        ResourceKind::Job => "job",
        ResourceKind::DaemonSet => "daemonset",
        ResourceKind::PVC => "pvc",
        ResourceKind::PV => "pv",
        ResourceKind::Node => "node",
        ResourceKind::ConfigMap => "configmap",
        ResourceKind::Secret => "secret",
        ResourceKind::StatefulSet => "statefulset",
        ResourceKind::Ingress => "ingress",
        ResourceKind::NetworkPolicy => "networkpolicy",
        ResourceKind::Role => "role",
        ResourceKind::RoleBinding => "rolebinding",
        ResourceKind::ClusterRole => "clusterrole",
        ResourceKind::ClusterRoleBinding => "clusterrolebinding",
        ResourceKind::ServiceAccount => "serviceaccount",
    }
}

/// Arguments that list the objects of `kind`, in `namespace` where the
/// kind lives in namespaces.
pub fn list_resources(kind: ResourceKind, namespace: &str) -> (args: Vec<String>)
    ensures
        texts(args@) == list_arguments(kind, namespace@),
{
    match kind {
        ResourceKind::Namespace => get_namespaces(),
        ResourceKind::Pod => get_pods(namespace),
        ResourceKind::Service => get_services(namespace),
        ResourceKind::Deployment => get_deployments(namespace),
        ResourceKind::Job => get_jobs(namespace),
        ResourceKind::DaemonSet => get_daemonsets(namespace),
        ResourceKind::PVC => get_pvcs(namespace),
        ResourceKind::PV => get_pvs(),
        ResourceKind::Node => get_nodes(),
        ResourceKind::ConfigMap => get_configmaps(namespace),
        ResourceKind::Secret => get_secrets(namespace),
        ResourceKind::StatefulSet => get_statefulsets(namespace),
        ResourceKind::Ingress => get_ingresses(namespace),
        ResourceKind::NetworkPolicy => get_network_policies(namespace),
        ResourceKind::Role => get_roles(namespace),
        ResourceKind::RoleBinding => get_role_bindings(namespace),
        ResourceKind::ClusterRole => get_cluster_roles(),
        ResourceKind::ClusterRoleBinding => get_cluster_role_bindings(),
        ResourceKind::ServiceAccount => get_service_accounts(namespace),
    }
}

/// Arguments that describe the object `name` of `kind`, in `namespace`
/// where the kind lives in namespaces.
pub fn describe_resource(kind: ResourceKind, namespace: &str, name: &str) -> (args: Vec<String>)
    ensures
        texts(args@) == describe_arguments(kind, namespace@, name@),
{
    match kind {
        ResourceKind::Namespace => {
            let args = strings_of(&["describe", "namespace", name]);
            assert(texts(args@) =~= describe_global("namespace"@, name@));
            args
        },
        ResourceKind::Pod => describe_pod(namespace, name),
        ResourceKind::Service => describe_service(namespace, name),
        ResourceKind::Deployment => describe_deployment(namespace, name),
        ResourceKind::Job => describe_job(namespace, name),
        ResourceKind::DaemonSet => describe_daemonset(namespace, name),
        ResourceKind::PVC => describe_pvc(namespace, name),
        ResourceKind::PV => describe_pv(name),
        ResourceKind::Node => describe_node(name),
        ResourceKind::ConfigMap => describe_configmap(namespace, name),
        ResourceKind::Secret => describe_secret(namespace, name),
        ResourceKind::StatefulSet => describe_statefulset(namespace, name),
        ResourceKind::Ingress => describe_ingress(namespace, name),
        ResourceKind::NetworkPolicy => describe_network_policy(namespace, name),
        ResourceKind::Role => describe_role(namespace, name),
        ResourceKind::RoleBinding => describe_role_binding(namespace, name),
        ResourceKind::ClusterRole => describe_cluster_role(name),
        ResourceKind::ClusterRoleBinding => describe_cluster_role_binding(name),
        ResourceKind::ServiceAccount => describe_service_account(namespace, name),
    }
}

/// Arguments that print the manifest of the object `name` of `kind`, in
/// `namespace` where the kind lives in namespaces.
pub fn resource_yaml(kind: ResourceKind, namespace: &str, name: &str) -> (args: Vec<String>)
    ensures
        texts(args@) == yaml_arguments(kind, namespace@, name@),
{
    match kind {
        ResourceKind::Namespace => {
            let args = strings_of(&["get", "namespace", name, "-o", "yaml"]);
            assert(texts(args@) =~= yaml_global("namespace"@, name@));
            args
        },
        ResourceKind::Pod => get_pod_yaml(namespace, name),
        ResourceKind::Service => get_service_yaml(namespace, name),
        ResourceKind::Deployment => get_deployment_yaml(namespace, name),
        ResourceKind::Job => get_job_yaml(namespace, name),
        ResourceKind::DaemonSet => get_daemonset_yaml(namespace, name),
        ResourceKind::PVC => get_pvc_yaml(namespace, name),
        ResourceKind::PV => get_pv_yaml(name),
        ResourceKind::Node => get_node_yaml(name),
        ResourceKind::ConfigMap => get_configmap_yaml(namespace, name),
        ResourceKind::Secret => get_secret_yaml(namespace, name),
        ResourceKind::StatefulSet => get_statefulset_yaml(namespace, name),
        ResourceKind::Ingress => get_ingress_yaml(namespace, name),
        ResourceKind::NetworkPolicy => get_network_policy_yaml(namespace, name),
        ResourceKind::Role => get_role_yaml(namespace, name),
        ResourceKind::RoleBinding => get_role_binding_yaml(namespace, name),
        ResourceKind::ClusterRole => get_cluster_role_yaml(name),
        ResourceKind::ClusterRoleBinding => get_cluster_role_binding_yaml(name),
        ResourceKind::ServiceAccount => get_service_account_yaml(namespace, name),
    }
}

/// Arguments that perform the confirmed destructive `action`.
pub fn delete_resource(action: &ConfirmAction) -> (args: Vec<String>)
    ensures
        texts(args@) == delete_arguments(action@.kind, action@.namespace, action@.name),
{
    let word = resource_word(action.kind());
    match action.namespace() {
        Some(namespace) => {
            let args = strings_of(&["delete", word, "-n", namespace.as_str(), action.name().as_str()]);
            assert(texts(args@) =~= delete_arguments(
                action@.kind,
                action@.namespace,
                action@.name,
            ));
            args
        },
        None => {
            let args = strings_of(&["delete", word, action.name().as_str()]);
            assert(texts(args@) =~= delete_arguments(
                action@.kind,
                action@.namespace,
                action@.name,
            ));
            args
        },
    }
}

/// Deleting a pod through `delete_resource` gives the arguments of
/// `delete_pod`.
pub proof fn lemma_delete_pod_arguments(namespace: Seq<char>, name: Seq<char>)
    ensures
        delete_arguments(ResourceKind::Pod, Some(namespace), name) == seq![
            "delete"@,
            "pod"@,
            "-n"@,
            namespace,
            name,
        ],
{
}

} // verus!
