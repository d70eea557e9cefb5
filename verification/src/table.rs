//! The tables of the list views: titles, columns and the cells of every
//! row.

use vstd::prelude::*;
use vstd::string::StringExecFns;
use crate::app::{AppState, AppView};
use crate::kubectl::types::{
    ClusterRole, ClusterRoleBinding, ConfigMap, DaemonSet, Deployment, Ingress, Job, Namespace,
    NetworkPolicy, Node, PersistentVolume, PersistentVolumeClaim, Pod, Role, RoleBinding, Secret,
    Service, ServiceAccount, ServicePort, StatefulSet,
};
use crate::mode::ResourceKind;
use crate::text::{decimal, decimal_text, strings_of, texts};

verus! {

/// `parts` one after the other, with `separator` between every two.
pub open spec fn joined(parts: Seq<Seq<char>>, separator: Seq<char>) -> Seq<char>
    decreases parts.len(),
{
    if parts.len() == 0 {
        Seq::empty()
    } else if parts.len() == 1 {
        parts[0]
    } else {
        joined(parts.drop_last(), separator) + separator + parts.last()
    }
}

/// `parts` one after the other, with `separator` between every two.
pub fn join_texts(parts: &Vec<String>, separator: &str) -> (text: String)
    ensures
        text@ == joined(texts(parts@), separator@),
{
    let mut text = String::new();
    let mut i: usize = 0;
    while i < parts.len()
        invariant
            i <= parts.len(),
            text@ == joined(texts(parts@).take(i as int), separator@),
        decreases parts.len() - i,
    {
        proof {
            let next = texts(parts@).take(i + 1);
            assert(next.drop_last() =~= texts(parts@).take(i as int));
            assert(next.last() == parts@[i as int]@);
        }
        if i > 0 {
            text.append(separator);
        }
        text.append(parts[i].as_str());
        i = i + 1;
    }
    assert(texts(parts@).take(parts.len() as int) =~= texts(parts@));
    text
}

/// The text of an optional value: the value, or `<none>` where there is
/// none.
pub open spec fn text_or_none(value: Option<String>) -> Seq<char> {
    match value {
        Some(text) => text@,
        None => "<none>"@,
    }
}

/// The text of an optional value.
pub fn or_none(value: &Option<String>) -> (text: String)
    ensures
        text@ == text_or_none(*value),
{
    match value {
        Some(text) => text.clone(),
        None => String::from_str("<none>"),
    }
}

/// How a port of a service is shown: its number and protocol, behind its
/// name where it has one.
pub open spec fn port_text(port: ServicePort) -> Seq<char> {
    match port.name {
        Some(name) => name@ + ":"@ + decimal(port.port as nat) + "/"@ + port.protocol@,
        None => decimal(port.port as nat) + "/"@ + port.protocol@,
    }
}

/// How the ports of a service are shown, one by one.
pub open spec fn port_texts(ports: Seq<ServicePort>) -> Seq<Seq<char>> {
    Seq::new(ports.len(), |i: int| port_text(ports[i]))
}

/// How the ports of a service are shown: one after the other, with commas
/// between them.
pub fn ports_text(ports: &Vec<ServicePort>) -> (text: String)
    ensures
        text@ == joined(port_texts(ports@), ","@),
{
    let mut shown: Vec<String> = Vec::new();
    let mut i: usize = 0;
    while i < ports.len()
        invariant
            i <= ports.len(),
            shown@.len() == i,
            forall|k: int| 0 <= k < i ==> (#[trigger] shown@[k])@ == port_text(ports@[k]),
        decreases ports.len() - i,
    {
        let port = &ports[i];
        let mut text = match &port.name {
            Some(name) => {
                let mut text = name.clone();
                text.append(":");
                text
            },
            None => String::new(),
        };
        let number = decimal_text(port.port as u64);
        text.append(number.as_str());
        text.append("/");
        text.append(port.protocol.as_str());
        assert(text@ =~= port_text(*port));
        shown.push(text);
        i = i + 1;
    }
    assert(texts(shown@) =~= port_texts(ports@));
    join_texts(&shown, ",")
}

/// How the completions of a job are shown: those that succeeded of those
/// asked for, which are one where nothing is said.
pub open spec fn completions_text(successful: u32, completions: Option<u32>) -> Seq<char> {
    decimal(successful as nat) + "/"@ + decimal(
        match completions {
            Some(c) => c as nat,
            None => 1,
        },
    )
}

/// How the completions of a job are shown.
pub fn completions(successful: u32, wanted: Option<u32>) -> (text: String)
    ensures
        text@ == completions_text(successful, wanted),
{
    let mut text = decimal_text(successful as u64);
    text.append("/");
    let of = decimal_text(
        match wanted {
            Some(c) => c as u64,
            None => 1,
        },
    );
    text.append(of.as_str());
    text
}

/// The texts of the rows of a table.
pub open spec fn grid(rows: Seq<Vec<String>>) -> Seq<Seq<Seq<char>>> {
    Seq::new(rows.len(), |i: int| texts(rows[i]@))
}

/// One row of cells for each of `items`, in order.
pub open spec fn rows_for<T>(items: Seq<T>, cells: spec_fn(T) -> Seq<Seq<char>>) -> Seq<
    Seq<Seq<char>>,
> {
    Seq::new(items.len(), |i: int| cells(items[i]))
}

/// Makes one row for each of `items` by `row`.
fn map_rows<T, F: Fn(&T) -> Vec<String>>(
    items: &Vec<T>,
    row: F,
    Ghost(cells): Ghost<spec_fn(T) -> Seq<Seq<char>>>,
) -> (rows: Vec<Vec<String>>)
    requires
        forall|item: &T| call_requires(row, (item,)),
        forall|item: &T, made: Vec<String>| #[trigger]
            call_ensures(row, (item,), made) ==> texts(made@) == cells(*item),
    ensures
        grid(rows@) == rows_for(items@, cells),
{
    let mut rows: Vec<Vec<String>> = Vec::new();
    let mut i: usize = 0;
    while i < items.len()
        invariant
            i <= items.len(),
            forall|item: &T| call_requires(row, (item,)),
            forall|item: &T, made: Vec<String>| #[trigger]
                call_ensures(row, (item,), made) ==> texts(made@) == cells(*item),
            rows@.len() == i,
            forall|k: int| 0 <= k < i ==> texts((#[trigger] rows@[k])@) == cells(items@[k]),
        decreases items.len() - i,
    {
        rows.push(row(&items[i]));
        i = i + 1;
    }
    assert(grid(rows@) =~= rows_for(items@, cells));
    rows
}

/// The cells of the row for `item`.
pub open spec fn pods_cells(item: Pod) -> Seq<Seq<char>> {
    seq![
        item.name@,
        item.ready@,
        item.status.phase@,
        decimal(item.restarts as nat),
        item.age@,
        text_or_none(item.node),
    ]
}

/// The cells of the row for `item`.
pub fn pods_row(item: &Pod) -> (row: Vec<String>)
    ensures
        texts(row@) == pods_cells(*item),
{
    let mut row: Vec<String> = Vec::new();
    row.push(item.name.clone());
    row.push(item.ready.clone());
    row.push(item.status.phase.clone());
    row.push(decimal_text(item.restarts as u64));
    row.push(item.age.clone());
    row.push(or_none(&item.node));
    assert(texts(row@) =~= pods_cells(*item));
    row
}

/// The cells of the row for `item`.
pub open spec fn services_cells(item: Service) -> Seq<Seq<char>> {
    seq![
        item.name@,
        item.type_@,
        item.cluster_ip@,
        text_or_none(item.external_ip),
        joined(port_texts(item.ports@), ","@),
        item.age@,
    ]
}

/// The cells of the row for `item`.
pub fn services_row(item: &Service) -> (row: Vec<String>)
    ensures
        texts(row@) == services_cells(*item),
{
    let mut row: Vec<String> = Vec::new();
    row.push(item.name.clone());
    row.push(item.type_.clone());
    row.push(item.cluster_ip.clone());
    row.push(or_none(&item.external_ip));
    row.push(ports_text(&item.ports));
    row.push(item.age.clone());
    assert(texts(row@) =~= services_cells(*item));
    row
}

/// The cells of the row for `item`.
pub open spec fn deployments_cells(item: Deployment) -> Seq<Seq<char>> {
    seq![
        item.name@,
        item.ready@,
        decimal(item.up_to_date as nat),
        decimal(item.available as nat),
        item.age@,
    ]
}

/// The cells of the row for `item`.
pub fn deployments_row(item: &Deployment) -> (row: Vec<String>)
    ensures
        texts(row@) == deployments_cells(*item),
{
    let mut row: Vec<String> = Vec::new();
    row.push(item.name.clone());
    row.push(item.ready.clone());
    row.push(decimal_text(item.up_to_date as u64));
    row.push(decimal_text(item.available as u64));
    row.push(item.age.clone());
    assert(texts(row@) =~= deployments_cells(*item));
    row
}

/// The cells of the row for `item`.
pub open spec fn jobs_cells(item: Job) -> Seq<Seq<char>> {
    seq![
        item.name@,
        completions_text(item.successful, item.completions),
        text_or_none(item.duration),
        item.status@,
        item.age@,
    ]
}

/// The cells of the row for `item`.
pub fn jobs_row(item: &Job) -> (row: Vec<String>)
    ensures
        texts(row@) == jobs_cells(*item),
{
    let mut row: Vec<String> = Vec::new();
    row.push(item.name.clone());
    row.push(completions(item.successful, item.completions));
    row.push(or_none(&item.duration));
    row.push(item.status.clone());
    row.push(item.age.clone());
    assert(texts(row@) =~= jobs_cells(*item));
    row
}

/// The cells of the row for `item`.
pub open spec fn daemonsets_cells(item: DaemonSet) -> Seq<Seq<char>> {
    seq![
        item.name@,
        decimal(item.desired as nat),
        decimal(item.current as nat),
        decimal(item.ready as nat),
        decimal(item.up_to_date as nat),
        decimal(item.available as nat),
        item.age@,
    ]
}

/// The cells of the row for `item`.
pub fn daemonsets_row(item: &DaemonSet) -> (row: Vec<String>)
    ensures
        texts(row@) == daemonsets_cells(*item),
{
    let mut row: Vec<String> = Vec::new();
    row.push(item.name.clone());
    row.push(decimal_text(item.desired as u64));
    row.push(decimal_text(item.current as u64));
    row.push(decimal_text(item.ready as u64));
    row.push(decimal_text(item.up_to_date as u64));
    row.push(decimal_text(item.available as u64));
    row.push(item.age.clone());
    assert(texts(row@) =~= daemonsets_cells(*item));
    row
}

/// The cells of the row for `item`.
pub open spec fn pvcs_cells(item: PersistentVolumeClaim) -> Seq<Seq<char>> {
    seq![
        item.name@,
        item.status@,
        text_or_none(item.volume),
        text_or_none(item.capacity),
        joined(texts(item.access_modes@), ","@),
        text_or_none(item.storage_class),
        item.age@,
    ]
}

/// The cells of the row for `item`.
pub fn pvcs_row(item: &PersistentVolumeClaim) -> (row: Vec<String>)
    ensures
        texts(row@) == pvcs_cells(*item),
{
    let mut row: Vec<String> = Vec::new();
    row.push(item.name.clone());
    row.push(item.status.clone());
    row.push(or_none(&item.volume));
    row.push(or_none(&item.capacity));
    row.push(join_texts(&item.access_modes, ","));
    row.push(or_none(&item.storage_class));
    row.push(item.age.clone());
    assert(texts(row@) =~= pvcs_cells(*item));
    row
}

/// The cells of the row for `item`.
pub open spec fn pvs_cells(item: PersistentVolume) -> Seq<Seq<char>> {
    seq![
        item.name@,
        item.capacity@,
        joined(texts(item.access_modes@), ","@),
        item.reclaim_policy@,
        item.status@,
        text_or_none(item.claim),
        text_or_none(item.storage_class),
        item.age@,
    ]
}

/// The cells of the row for `item`.
pub fn pvs_row(item: &PersistentVolume) -> (row: Vec<String>)
    ensures
        texts(row@) == pvs_cells(*item),
{
    let mut row: Vec<String> = Vec::new();
    row.push(item.name.clone());
    row.push(item.capacity.clone());
    row.push(join_texts(&item.access_modes, ","));
    row.push(item.reclaim_policy.clone());
    row.push(item.status.clone());
    row.push(or_none(&item.claim));
    row.push(or_none(&item.storage_class));
    row.push(item.age.clone());
    assert(texts(row@) =~= pvs_cells(*item));
    row
}

/// The cells of the row for `item`.
pub open spec fn nodes_cells(item: Node) -> Seq<Seq<char>> {
    seq![
        item.name@,
        item.status@,
        joined(texts(item.roles@), ","@),
        item.age@,
        item.version@,
        text_or_none(item.internal_ip),
        text_or_none(item.external_ip),
        text_or_none(item.os_image),
        text_or_none(item.kernel_version),
        text_or_none(item.container_runtime),
    ]
}

/// The cells of the row for `item`.
pub fn nodes_row(item: &Node) -> (row: Vec<String>)
    ensures
        texts(row@) == nodes_cells(*item),
{
    let mut row: Vec<String> = Vec::new();
    row.push(item.name.clone());
    row.push(item.status.clone());
    row.push(join_texts(&item.roles, ","));
    row.push(item.age.clone());
    row.push(item.version.clone());
    row.push(or_none(&item.internal_ip));
    row.push(or_none(&item.external_ip));
    row.push(or_none(&item.os_image));
    row.push(or_none(&item.kernel_version));
    row.push(or_none(&item.container_runtime));
    assert(texts(row@) =~= nodes_cells(*item));
    row
}

/// The cells of the row for `item`.
pub open spec fn configmaps_cells(item: ConfigMap) -> Seq<Seq<char>> {
    seq![
        item.name@,
        decimal(item.data_count as nat),
        item.age@,
    ]
}

/// The cells of the row for `item`.
pub fn configmaps_row(item: &ConfigMap) -> (row: Vec<String>)
    ensures
        texts(row@) == configmaps_cells(*item),
{
    let mut row: Vec<String> = Vec::new();
    row.push(item.name.clone());
    row.push(decimal_text(item.data_count as u64));
    row.push(item.age.clone());
    assert(texts(row@) =~= configmaps_cells(*item));
    row
}

/// The cells of the row for `item`.
pub open spec fn secrets_cells(item: Secret) -> Seq<Seq<char>> {
    seq![
        item.name@,
        item.type_@,
        decimal(item.data_count as nat),
        item.age@,
    ]
}

/// The cells of the row for `item`.
pub fn secrets_row(item: &Secret) -> (row: Vec<String>)
    ensures
        texts(row@) == secrets_cells(*item),
{
    let mut row: Vec<String> = Vec::new();
    row.push(item.name.clone());
    row.push(item.type_.clone());
    row.push(decimal_text(item.data_count as u64));
    row.push(item.age.clone());
    assert(texts(row@) =~= secrets_cells(*item));
    row
}

/// The cells of the row for `item`.
pub open spec fn statefulsets_cells(item: StatefulSet) -> Seq<Seq<char>> {
    seq![
        item.name@,
        item.namespace@,
        item.ready@,
        item.age@,
    ]
}

/// The cells of the row for `item`.
pub fn statefulsets_row(item: &StatefulSet) -> (row: Vec<String>)
    ensures
        texts(row@) == statefulsets_cells(*item),
{
    let mut row: Vec<String> = Vec::new();
    row.push(item.name.clone());
    row.push(item.namespace.clone());
    row.push(item.ready.clone());
    row.push(item.age.clone());
    assert(texts(row@) =~= statefulsets_cells(*item));
    row
}

/// The cells of the row for `item`.
pub open spec fn ingresses_cells(item: Ingress) -> Seq<Seq<char>> {
    seq![
        item.name@,
        item.namespace@,
        joined(texts(item.hosts@), ","@),
        item.age@,
    ]
}

/// The cells of the row for `item`.
pub fn ingresses_row(item: &Ingress) -> (row: Vec<String>)
    ensures
        texts(row@) == ingresses_cells(*item),
{
    let mut row: Vec<String> = Vec::new();
    row.push(item.name.clone());
    row.push(item.namespace.clone());
    row.push(join_texts(&item.hosts, ","));
    row.push(item.age.clone());
    assert(texts(row@) =~= ingresses_cells(*item));
    row
}

/// The cells of the row for `item`.
pub open spec fn network_policies_cells(item: NetworkPolicy) -> Seq<Seq<char>> {
    seq![
        item.name@,
        item.namespace@,
        item.age@,
    ]
}

/// The cells of the row for `item`.
pub fn network_policies_row(item: &NetworkPolicy) -> (row: Vec<String>)
    ensures
        texts(row@) == network_policies_cells(*item),
{
    let mut row: Vec<String> = Vec::new();
    row.push(item.name.clone());
    row.push(item.namespace.clone());
    row.push(item.age.clone());
    assert(texts(row@) =~= network_policies_cells(*item));
    row
}

/// The cells of the row for `item`.
pub open spec fn roles_cells(item: Role) -> Seq<Seq<char>> {
    seq![
        item.name@,
        item.namespace@,
        item.age@,
    ]
}

/// The cells of the row for `item`.
pub fn roles_row(item: &Role) -> (row: Vec<String>)
    ensures
        texts(row@) == roles_cells(*item),
{
    let mut row: Vec<String> = Vec::new();
    row.push(item.name.clone());
    row.push(item.namespace.clone());
    row.push(item.age.clone());
    assert(texts(row@) =~= roles_cells(*item));
    row
}

/// The cells of the row for `item`.
pub open spec fn role_bindings_cells(item: RoleBinding) -> Seq<Seq<char>> {
    seq![
        item.name@,
        item.namespace@,
        item.age@,
    ]
}

/// The cells of the row for `item`.
pub fn role_bindings_row(item: &RoleBinding) -> (row: Vec<String>)
    ensures
        texts(row@) == role_bindings_cells(*item),
{
    let mut row: Vec<String> = Vec::new();
    row.push(item.name.clone());
    row.push(item.namespace.clone());
    row.push(item.age.clone());
    assert(texts(row@) =~= role_bindings_cells(*item));
    row
}

/// The cells of the row for `item`.
pub open spec fn cluster_roles_cells(item: ClusterRole) -> Seq<Seq<char>> {
    seq![
        item.name@,
        item.age@,
    ]
}

/// The cells of the row for `item`.
pub fn cluster_roles_row(item: &ClusterRole) -> (row: Vec<String>)
    ensures
        texts(row@) == cluster_roles_cells(*item),
{
    let mut row: Vec<String> = Vec::new();
    row.push(item.name.clone());
    row.push(item.age.clone());
    assert(texts(row@) =~= cluster_roles_cells(*item));
    row
}

/// The cells of the row for `item`.
pub open spec fn cluster_role_bindings_cells(item: ClusterRoleBinding) -> Seq<Seq<char>> {
    seq![
        item.name@,
        item.age@,
    ]
}

/// The cells of the row for `item`.
pub fn cluster_role_bindings_row(item: &ClusterRoleBinding) -> (row: Vec<String>)
    ensures
        texts(row@) == cluster_role_bindings_cells(*item),
{
    let mut row: Vec<String> = Vec::new();
    row.push(item.name.clone());
    row.push(item.age.clone());
    assert(texts(row@) =~= cluster_role_bindings_cells(*item));
    row
}

/// The cells of the row for `item`.
pub open spec fn service_accounts_cells(item: ServiceAccount) -> Seq<Seq<char>> {
    seq![
        item.name@,
        item.namespace@,
        item.age@,
    ]
}

/// The cells of the row for `item`.
pub fn service_accounts_row(item: &ServiceAccount) -> (row: Vec<String>)
    ensures
        texts(row@) == service_accounts_cells(*item),
{
    let mut row: Vec<String> = Vec::new();
    row.push(item.name.clone());
    row.push(item.namespace.clone());
    row.push(item.age.clone());
    assert(texts(row@) =~= service_accounts_cells(*item));
    row
}

/// The headers of the table of `kind`. The namespaces are shown as a plain
/// list, under the single header of their names.
pub open spec fn headers_of(kind: ResourceKind) -> Seq<Seq<char>> {
    match kind {
        ResourceKind::Namespace => seq!["Name"@],
        ResourceKind::Pod => seq!["Name"@, "Ready"@, "Status"@, "Restarts"@, "Age"@, "Node"@],
        ResourceKind::Service => seq!["Name"@, "Type"@, "Cluster-IP"@, "External-IP"@, "Ports"@, "Age"@],
        ResourceKind::Deployment => seq!["Name"@, "Ready"@, "Up-to-date"@, "Available"@, "Age"@],
        ResourceKind::Job => seq!["Name"@, "Completions"@, "Duration"@, "Status"@, "Age"@],
        ResourceKind::DaemonSet => seq!["Name"@, "Desired"@, "Current"@, "Ready"@, "Up-to-date"@, "Available"@, "Age"@],
        ResourceKind::PVC => seq!["Name"@, "Status"@, "Volume"@, "Capacity"@, "Access Modes"@, "Storage Class"@, "Age"@],
        ResourceKind::PV => seq!["Name"@, "Capacity"@, "Access Modes"@, "Reclaim Policy"@, "Status"@, "Claim"@, "Storage Class"@, "Age"@],
        ResourceKind::Node => seq!["Name"@, "Status"@, "Roles"@, "Age"@, "Version"@, "Internal-IP"@, "External-IP"@, "OS Image"@, "Kernel Version"@, "Container Runtime"@],
        ResourceKind::ConfigMap => seq!["Name"@, "Data"@, "Age"@],
        ResourceKind::Secret => seq!["Name"@, "Type"@, "Data"@, "Age"@],
        ResourceKind::StatefulSet => seq!["Name"@, "Namespace"@, "Ready"@, "Age"@],
        ResourceKind::Ingress => seq!["Name"@, "Namespace"@, "Hosts"@, "Age"@],
        ResourceKind::NetworkPolicy => seq!["Name"@, "Namespace"@, "Age"@],
        ResourceKind::Role => seq!["Name"@, "Namespace"@, "Age"@],
        ResourceKind::RoleBinding => seq!["Name"@, "Namespace"@, "Age"@],
        ResourceKind::ClusterRole => seq!["Name"@, "Age"@],
        ResourceKind::ClusterRoleBinding => seq!["Name"@, "Age"@],
        ResourceKind::ServiceAccount => seq!["Name"@, "Namespace"@, "Age"@],
    }
}

/// The share of the width, in hundredths, that each column of the table
/// of `kind` takes.
pub open spec fn widths_of(kind: ResourceKind) -> Seq<u16> {
    match kind {
        ResourceKind::Namespace => seq![100u16],
        ResourceKind::Pod => seq![30u16, 10u16, 15u16, 10u16, 10u16, 25u16],
        ResourceKind::Service => seq![25u16, 15u16, 15u16, 15u16, 20u16, 10u16],
        ResourceKind::Deployment => seq![35u16, 15u16, 15u16, 15u16, 20u16],
        ResourceKind::Job => seq![30u16, 15u16, 15u16, 20u16, 20u16],
        ResourceKind::DaemonSet => seq![25u16, 10u16, 10u16, 10u16, 15u16, 15u16, 15u16],
        ResourceKind::PVC => seq![20u16, 10u16, 15u16, 10u16, 15u16, 15u16, 15u16],
        ResourceKind::PV => seq![20u16, 10u16, 15u16, 10u16, 10u16, 15u16, 10u16, 10u16],
        ResourceKind::Node => seq![15u16, 10u16, 10u16, 5u16, 10u16, 10u16, 10u16, 10u16, 10u16, 10u16],
        ResourceKind::ConfigMap => seq![60u16, 20u16, 20u16],
        ResourceKind::Secret => seq![40u16, 30u16, 15u16, 15u16],
        ResourceKind::StatefulSet => seq![30u16, 30u16, 20u16, 20u16],
        ResourceKind::Ingress => seq![30u16, 30u16, 25u16, 15u16],
        ResourceKind::NetworkPolicy => seq![40u16, 40u16, 20u16],
        ResourceKind::Role => seq![40u16, 40u16, 20u16],
        ResourceKind::RoleBinding => seq![40u16, 40u16, 20u16],
        ResourceKind::ClusterRole => seq![60u16, 40u16],
        ResourceKind::ClusterRoleBinding => seq![60u16, 40u16],
        ResourceKind::ServiceAccount => seq![40u16, 40u16, 20u16],
    }
}

/// The column of the table of `kind` that shows a status, if one does.
pub open spec fn status_column_of(kind: ResourceKind) -> Option<usize> {
    match kind {
        ResourceKind::Namespace => None,
        ResourceKind::Pod => Some(2usize),
        ResourceKind::Service => None,
        ResourceKind::Deployment => None,
        ResourceKind::Job => Some(3usize),
        ResourceKind::DaemonSet => None,
        ResourceKind::PVC => Some(1usize),
        ResourceKind::PV => Some(4usize),
        ResourceKind::Node => Some(1usize),
        ResourceKind::ConfigMap => None,
        ResourceKind::Secret => None,
        ResourceKind::StatefulSet => None,
        ResourceKind::Ingress => None,
        ResourceKind::NetworkPolicy => None,
        ResourceKind::Role => None,
        ResourceKind::RoleBinding => None,
        ResourceKind::ClusterRole => None,
        ResourceKind::ClusterRoleBinding => None,
        ResourceKind::ServiceAccount => None,
    }
}

/// How the table of `kind` is called.
pub open spec fn table_name(kind: ResourceKind) -> Seq<char> {
    match kind {
        ResourceKind::Namespace => "Namespaces"@,
        ResourceKind::Pod => "Pods"@,
        ResourceKind::Service => "Services"@,
        ResourceKind::Deployment => "Deployments"@,
        ResourceKind::Job => "Jobs"@,
        ResourceKind::DaemonSet => "DaemonSets"@,
        ResourceKind::PVC => "PersistentVolumeClaims"@,
        ResourceKind::PV => "PersistentVolumes"@,
        ResourceKind::Node => "Nodes"@,
        ResourceKind::ConfigMap => "ConfigMaps"@,
        ResourceKind::Secret => "Secrets"@,
        ResourceKind::StatefulSet => "StatefulSets"@,
        ResourceKind::Ingress => "Ingresses"@,
        ResourceKind::NetworkPolicy => "Network Policies"@,
        ResourceKind::Role => "Roles"@,
        ResourceKind::RoleBinding => "Role Bindings"@,
        ResourceKind::ClusterRole => "Cluster Roles"@,
        ResourceKind::ClusterRoleBinding => "Cluster Role Bindings"@,
        ResourceKind::ServiceAccount => "Service Accounts"@,
    }
}

/// Whether the title of the table of `kind` names the namespace.
pub open spec fn spec_names_namespace(kind: ResourceKind) -> bool {
    kind == ResourceKind::Pod || kind == ResourceKind::Service || kind == ResourceKind::ConfigMap
        || kind == ResourceKind::Secret
}

/// What the list of `kind` says when it is empty.
pub open spec fn empty_text(kind: ResourceKind) -> Seq<char> {
    match kind {
        ResourceKind::Namespace => "No namespaces found"@,
        ResourceKind::Pod => "No pods found in this namespace"@,
        ResourceKind::Service => "No services found in this namespace"@,
        ResourceKind::Deployment => "No deployments found or loading..."@,
        ResourceKind::Job => "No jobs found or loading..."@,
        ResourceKind::DaemonSet => "No daemonsets found or loading..."@,
        ResourceKind::PVC => "No PVCs found or loading..."@,
        ResourceKind::PV => "No PVs found or loading..."@,
        ResourceKind::Node => "No nodes found or loading..."@,
        ResourceKind::ConfigMap => "No configmaps found in this namespace"@,
        ResourceKind::Secret => "No secrets found in this namespace"@,
        ResourceKind::StatefulSet => "No statefulsets found or loading..."@,
        ResourceKind::Ingress => "No ingresses found or loading..."@,
        ResourceKind::NetworkPolicy => "No network policies found or loading..."@,
        ResourceKind::Role => "No roles found or loading..."@,
        ResourceKind::RoleBinding => "No role bindings found or loading..."@,
        ResourceKind::ClusterRole => "No cluster roles found or loading..."@,
        ResourceKind::ClusterRoleBinding => "No cluster role bindings found or loading..."@,
        ResourceKind::ServiceAccount => "No service accounts found or loading..."@,
    }
}

impl AppView {
    /// The rows of the table of `kind`: the cells of every item, in
    /// order. The namespaces have the single cell of their name.
    pub open spec fn table_rows(self, kind: ResourceKind) -> Seq<Seq<Seq<char>>> {
        match kind {
            ResourceKind::Namespace => rows_for(
                self.resources.namespaces.items,
                |item: Namespace| seq![item.name@],
            ),
            ResourceKind::Pod => rows_for(
                self.resources.pods.items,
                |item: Pod| pods_cells(item),
            ),
            ResourceKind::Service => rows_for(
                self.resources.services.items,
                |item: Service| services_cells(item),
            ),
            ResourceKind::Deployment => rows_for(
                self.resources.deployments.items,
                |item: Deployment| deployments_cells(item),
            ),
            ResourceKind::Job => rows_for(
                self.resources.jobs.items,
                |item: Job| jobs_cells(item),
            ),
            ResourceKind::DaemonSet => rows_for(
                self.resources.daemonsets.items,
                |item: DaemonSet| daemonsets_cells(item),
            ),
            ResourceKind::PVC => rows_for(
                self.resources.pvcs.items,
                |item: PersistentVolumeClaim| pvcs_cells(item),
            ),
            ResourceKind::PV => rows_for(
                self.resources.pvs.items,
                |item: PersistentVolume| pvs_cells(item),
            ),
            ResourceKind::Node => rows_for(
                self.resources.nodes.items,
                |item: Node| nodes_cells(item),
            ),
            ResourceKind::ConfigMap => rows_for(
                self.resources.configmaps.items,
                |item: ConfigMap| configmaps_cells(item),
            ),
            ResourceKind::Secret => rows_for(
                self.resources.secrets.items,
                |item: Secret| secrets_cells(item),
            ),
            ResourceKind::StatefulSet => rows_for(
                self.resources.statefulsets.items,
                |item: StatefulSet| statefulsets_cells(item),
            ),
            ResourceKind::Ingress => rows_for(
                self.resources.ingresses.items,
                |item: Ingress| ingresses_cells(item),
            ),
            ResourceKind::NetworkPolicy => rows_for(
                self.resources.network_policies.items,
                |item: NetworkPolicy| network_policies_cells(item),
            ),
            ResourceKind::Role => rows_for(
                self.resources.roles.items,
                |item: Role| roles_cells(item),
            ),
            ResourceKind::RoleBinding => rows_for(
                self.resources.role_bindings.items,
                |item: RoleBinding| role_bindings_cells(item),
            ),
            ResourceKind::ClusterRole => rows_for(
                self.resources.cluster_roles.items,
                |item: ClusterRole| cluster_roles_cells(item),
            ),
            ResourceKind::ClusterRoleBinding => rows_for(
                self.resources.cluster_role_bindings.items,
                |item: ClusterRoleBinding| cluster_role_bindings_cells(item),
            ),
            ResourceKind::ServiceAccount => rows_for(
                self.resources.service_accounts.items,
                |item: ServiceAccount| service_accounts_cells(item),
            ),
        }
    }

    /// The title of the table of `kind`: its name, behind it the namespace
    /// where the title names it, and last the number of items unless there
    /// is none.
    pub open spec fn table_title(self, kind: ResourceKind) -> Seq<char> {
        let name = if spec_names_namespace(kind) {
            table_name(kind) + " in namespace: "@ + self.current_namespace
        } else {
            table_name(kind)
        };
        if self.resources.len(kind) == 0 && kind != ResourceKind::Namespace {
            name
        } else {
            name + " ("@ + decimal(self.resources.len(kind)) + ")"@
        }
    }

    /// The lines of the list of namespaces: every name behind a mark, which
    /// is a dot for the current namespace and blank for every other.
    pub open spec fn namespace_lines(self) -> Seq<Seq<char>> {
        Seq::new(
            self.resources.namespaces.items.len(),
            |i: int|
                if self.resources.namespaces.items[i].name@ == self.current_namespace {
                    "● "@ + self.resources.namespaces.items[i].name@
                } else {
                    "  "@ + self.resources.namespaces.items[i].name@
                },
        )
    }
}

/// The headers of the table of `kind`.
pub fn table_headers(kind: ResourceKind) -> (headers: Vec<String>)
    ensures
        texts(headers@) == headers_of(kind),
{
    let headers = match kind {
        ResourceKind::Namespace => strings_of(&["Name"]),
        ResourceKind::Pod => strings_of(&["Name", "Ready", "Status", "Restarts", "Age", "Node"]),
        ResourceKind::Service => strings_of(&["Name", "Type", "Cluster-IP", "External-IP", "Ports", "Age"]),
        ResourceKind::Deployment => strings_of(&["Name", "Ready", "Up-to-date", "Available", "Age"]),
        ResourceKind::Job => strings_of(&["Name", "Completions", "Duration", "Status", "Age"]),
        ResourceKind::DaemonSet => strings_of(&["Name", "Desired", "Current", "Ready", "Up-to-date", "Available", "Age"]),
        ResourceKind::PVC => strings_of(&["Name", "Status", "Volume", "Capacity", "Access Modes", "Storage Class", "Age"]),
        ResourceKind::PV => strings_of(&["Name", "Capacity", "Access Modes", "Reclaim Policy", "Status", "Claim", "Storage Class", "Age"]),
        ResourceKind::Node => strings_of(&["Name", "Status", "Roles", "Age", "Version", "Internal-IP", "External-IP", "OS Image", "Kernel Version", "Container Runtime"]),
        ResourceKind::ConfigMap => strings_of(&["Name", "Data", "Age"]),
        ResourceKind::Secret => strings_of(&["Name", "Type", "Data", "Age"]),
        ResourceKind::StatefulSet => strings_of(&["Name", "Namespace", "Ready", "Age"]),
        ResourceKind::Ingress => strings_of(&["Name", "Namespace", "Hosts", "Age"]),
        ResourceKind::NetworkPolicy => strings_of(&["Name", "Namespace", "Age"]),
        ResourceKind::Role => strings_of(&["Name", "Namespace", "Age"]),
        ResourceKind::RoleBinding => strings_of(&["Name", "Namespace", "Age"]),
        ResourceKind::ClusterRole => strings_of(&["Name", "Age"]),
        ResourceKind::ClusterRoleBinding => strings_of(&["Name", "Age"]),
        ResourceKind::ServiceAccount => strings_of(&["Name", "Namespace", "Age"]),
    };
    assert(texts(headers@) =~= headers_of(kind));
    headers
}

/// The share of the width, in hundredths, that each column of the table of
/// `kind` takes.
pub fn table_widths(kind: ResourceKind) -> (widths: Vec<u16>)
    ensures
        widths@ == widths_of(kind),
        widths@.len() == headers_of(kind).len(),
{
    let widths = match kind {
        ResourceKind::Namespace => vec![100u16],
        ResourceKind::Pod => vec![30u16, 10u16, 15u16, 10u16, 10u16, 25u16],
        ResourceKind::Service => vec![25u16, 15u16, 15u16, 15u16, 20u16, 10u16],
        ResourceKind::Deployment => vec![35u16, 15u16, 15u16, 15u16, 20u16],
        ResourceKind::Job => vec![30u16, 15u16, 15u16, 20u16, 20u16],
        ResourceKind::DaemonSet => vec![25u16, 10u16, 10u16, 10u16, 15u16, 15u16, 15u16],
        ResourceKind::PVC => vec![20u16, 10u16, 15u16, 10u16, 15u16, 15u16, 15u16],
        ResourceKind::PV => vec![20u16, 10u16, 15u16, 10u16, 10u16, 15u16, 10u16, 10u16],
        ResourceKind::Node => vec![15u16, 10u16, 10u16, 5u16, 10u16, 10u16, 10u16, 10u16, 10u16, 10u16],
        ResourceKind::ConfigMap => vec![60u16, 20u16, 20u16],
        ResourceKind::Secret => vec![40u16, 30u16, 15u16, 15u16],
        ResourceKind::StatefulSet => vec![30u16, 30u16, 20u16, 20u16],
        ResourceKind::Ingress => vec![30u16, 30u16, 25u16, 15u16],
        ResourceKind::NetworkPolicy => vec![40u16, 40u16, 20u16],
        ResourceKind::Role => vec![40u16, 40u16, 20u16],
        ResourceKind::RoleBinding => vec![40u16, 40u16, 20u16],
        ResourceKind::ClusterRole => vec![60u16, 40u16],
        ResourceKind::ClusterRoleBinding => vec![60u16, 40u16],
        ResourceKind::ServiceAccount => vec![40u16, 40u16, 20u16],
    };
    assert(widths@ =~= widths_of(kind));
    widths
}

/// The column of the table of `kind` that shows a status, if one does.
pub fn status_column(kind: ResourceKind) -> (column: Option<usize>)
    ensures
        column == status_column_of(kind),
        column is Some ==> column.unwrap() < headers_of(kind).len(),
{
    match kind {
        ResourceKind::Pod => Some(2),
        ResourceKind::Job => Some(3),
        ResourceKind::PVC => Some(1),
        ResourceKind::PV => Some(4),
        ResourceKind::Node => Some(1),
        _ => None,
    }
}

/// What the list of `kind` says when it is empty.
pub fn empty_message(kind: ResourceKind) -> (text: &'static str)
    ensures
        text@ == empty_text(kind),
{
    match kind {
        ResourceKind::Namespace => "No namespaces found",
        ResourceKind::Pod => "No pods found in this namespace",
        ResourceKind::Service => "No services found in this namespace",
        ResourceKind::Deployment => "No deployments found or loading...",
        ResourceKind::Job => "No jobs found or loading...",
        ResourceKind::DaemonSet => "No daemonsets found or loading...",
        ResourceKind::PVC => "No PVCs found or loading...",
        ResourceKind::PV => "No PVs found or loading...",
        ResourceKind::Node => "No nodes found or loading...",
        ResourceKind::ConfigMap => "No configmaps found in this namespace",
        ResourceKind::Secret => "No secrets found in this namespace",
        ResourceKind::StatefulSet => "No statefulsets found or loading...",
        ResourceKind::Ingress => "No ingresses found or loading...",
        ResourceKind::NetworkPolicy => "No network policies found or loading...",
        ResourceKind::Role => "No roles found or loading...",
        ResourceKind::RoleBinding => "No role bindings found or loading...",
        ResourceKind::ClusterRole => "No cluster roles found or loading...",
        ResourceKind::ClusterRoleBinding => "No cluster role bindings found or loading...",
        ResourceKind::ServiceAccount => "No service accounts found or loading...",
    }
}

/// How the table of `kind` is called.
fn name_of_table(kind: ResourceKind) -> (name: &'static str)
    ensures
        name@ == table_name(kind),
{
    match kind {
        ResourceKind::Namespace => "Namespaces",
        ResourceKind::Pod => "Pods",
        ResourceKind::Service => "Services",
        ResourceKind::Deployment => "Deployments",
        ResourceKind::Job => "Jobs",
        ResourceKind::DaemonSet => "DaemonSets",
        ResourceKind::PVC => "PersistentVolumeClaims",
        ResourceKind::PV => "PersistentVolumes",
        ResourceKind::Node => "Nodes",
        ResourceKind::ConfigMap => "ConfigMaps",
        ResourceKind::Secret => "Secrets",
        ResourceKind::StatefulSet => "StatefulSets",
        ResourceKind::Ingress => "Ingresses",
        ResourceKind::NetworkPolicy => "Network Policies",
        ResourceKind::Role => "Roles",
        ResourceKind::RoleBinding => "Role Bindings",
        ResourceKind::ClusterRole => "Cluster Roles",
        ResourceKind::ClusterRoleBinding => "Cluster Role Bindings",
        ResourceKind::ServiceAccount => "Service Accounts",
    }
}

/// The single cell of the row for a namespace.
fn namespaces_row(item: &Namespace) -> (row: Vec<String>)
    ensures
        texts(row@) == seq![item.name@],
{
    let mut row: Vec<String> = Vec::new();
    row.push(item.name.clone());
    assert(texts(row@) =~= seq![item.name@]);
    row
}

impl AppState {
    /// The rows of the table of `kind`: the cells of every item, in
    /// order.
    pub fn table_rows(&self, kind: ResourceKind) -> (rows: Vec<Vec<String>>)
        ensures
            grid(rows@) == self@.table_rows(kind),
    {
        match kind {
            ResourceKind::Namespace => map_rows(
                self.resources.namespaces.items(),
                namespaces_row,
                Ghost(|item: Namespace| seq![item.name@]),
            ),
            ResourceKind::Pod => map_rows(
                self.resources.pods.items(),
                pods_row,
                Ghost(|item: Pod| pods_cells(item)),
            ),
            ResourceKind::Service => map_rows(
                self.resources.services.items(),
                services_row,
                Ghost(|item: Service| services_cells(item)),
            ),
            ResourceKind::Deployment => map_rows(
                self.resources.deployments.items(),
                deployments_row,
                Ghost(|item: Deployment| deployments_cells(item)),
            ),
            ResourceKind::Job => map_rows(
                self.resources.jobs.items(),
                jobs_row,
                Ghost(|item: Job| jobs_cells(item)),
            ),
            ResourceKind::DaemonSet => map_rows(
                self.resources.daemonsets.items(),
                daemonsets_row,
                Ghost(|item: DaemonSet| daemonsets_cells(item)),
            ),
            ResourceKind::PVC => map_rows(
                self.resources.pvcs.items(),
                pvcs_row,
                Ghost(|item: PersistentVolumeClaim| pvcs_cells(item)),
            ),
            ResourceKind::PV => map_rows(
                self.resources.pvs.items(),
                pvs_row,
                Ghost(|item: PersistentVolume| pvs_cells(item)),
            ),
            ResourceKind::Node => map_rows(
                self.resources.nodes.items(),
                nodes_row,
                Ghost(|item: Node| nodes_cells(item)),
            ),
            ResourceKind::ConfigMap => map_rows(
                self.resources.configmaps.items(),
                configmaps_row,
                Ghost(|item: ConfigMap| configmaps_cells(item)),
            ),
            ResourceKind::Secret => map_rows(
                self.resources.secrets.items(),
                secrets_row,
                Ghost(|item: Secret| secrets_cells(item)),
            ),
            ResourceKind::StatefulSet => map_rows(
                self.resources.statefulsets.items(),
                statefulsets_row,
                Ghost(|item: StatefulSet| statefulsets_cells(item)),
            ),
            ResourceKind::Ingress => map_rows(
                self.resources.ingresses.items(),
                ingresses_row,
                Ghost(|item: Ingress| ingresses_cells(item)),
            ),
            ResourceKind::NetworkPolicy => map_rows(
                self.resources.network_policies.items(),
                network_policies_row,
                Ghost(|item: NetworkPolicy| network_policies_cells(item)),
            ),
            ResourceKind::Role => map_rows(
                self.resources.roles.items(),
                roles_row,
                Ghost(|item: Role| roles_cells(item)),
            ),
            ResourceKind::RoleBinding => map_rows(
                self.resources.role_bindings.items(),
                role_bindings_row,
                Ghost(|item: RoleBinding| role_bindings_cells(item)),
            ),
            ResourceKind::ClusterRole => map_rows(
                self.resources.cluster_roles.items(),
                cluster_roles_row,
                Ghost(|item: ClusterRole| cluster_roles_cells(item)),
            ),
            ResourceKind::ClusterRoleBinding => map_rows(
                self.resources.cluster_role_bindings.items(),
                cluster_role_bindings_row,
                Ghost(|item: ClusterRoleBinding| cluster_role_bindings_cells(item)),
            ),
            ResourceKind::ServiceAccount => map_rows(
                self.resources.service_accounts.items(),
                service_accounts_row,
                Ghost(|item: ServiceAccount| service_accounts_cells(item)),
            ),
        }
    }

    /// The title of the table of `kind`.
    pub fn table_title(&self, kind: ResourceKind) -> (title: String)
        ensures
            title@ == self@.table_title(kind),
    {
        let mut title = String::from_str(name_of_table(kind));
        let names_namespace = match kind {
            ResourceKind::Pod
            | ResourceKind::Service
            | ResourceKind::ConfigMap
            | ResourceKind::Secret => true,
            _ => false,
        };
        if names_namespace {
            title.append(" in namespace: ");
            title.append(self.current_namespace.as_str());
        }
        let count = self.resources.len(kind);
        let counted = match kind {
            ResourceKind::Namespace => true,
            _ => count > 0,
        };
        if counted {
            title.append(" (");
            let number = decimal_text(count as u64);
            title.append(number.as_str());
            title.append(")");
        }
        title
    }

    /// The lines of the list of namespaces, the current one marked.
    pub fn namespace_lines(&self) -> (lines: Vec<String>)
        ensures
            texts(lines@) == self@.namespace_lines(),
    {
        let items = self.resources.namespaces.items();
        let mut lines: Vec<String> = Vec::new();
        let mut i: usize = 0;
        while i < items.len()
            invariant
                i <= items.len(),
                items@ == self@.resources.namespaces.items,
                lines@.len() == i,
                forall|k: int| 0 <= k < i ==> (#[trigger] lines@[k])@ == self@.namespace_lines()[k],
            decreases items.len() - i,
        {
            let mut line = if items[i].name == self.current_namespace {
                String::from_str("● ")
            } else {
                String::from_str("  ")
            };
            line.append(items[i].name.as_str());
            lines.push(line);
            i = i + 1;
        }
        assert(texts(lines@) =~= self@.namespace_lines());
        lines
    }
}

} // verus!
