//! The client: what the dashboard makes of the output of the cluster tool.

use std::time::Duration;
use vstd::prelude::*;
use vstd::string::StringExecFns;
use crate::kubectl::commands;
use crate::kubectl::commands::{
    check_kubectl_available, describe_global, describe_in, resource_yaml, yaml_arguments,
};
use crate::kubectl::json::{
    as_array, as_bool, as_number, as_object, as_text, bool_of, deref_json, elements_of, get,
    member, members_of, number_of, parse_json, parsed_json, text_of, Json, JsonError,
};
use crate::kubectl::types::{
    ClusterRole, ClusterRoleBinding, ConfigMap, DaemonSet, Deployment, Ingress, Job,
    ContainerMetrics, Namespace, NetworkPolicy, Node, PersistentVolume, PersistentVolumeClaim,
    Pod, PodStatus, ResourceMetrics, Role, RoleBinding, Secret, Service, ServiceAccount,
    ServicePort, StatefulSet,
};
use crate::text::{
    chars_of, decimal, decimal_text, lines_of, remove_all, same_text, slice_text, split_lines,
    split_words, texts, without_all, words_of,
};
use crate::mode::ResourceKind;

verus! {

/// Seconds after which a run of the tool is given up, unless said
/// otherwise.
pub const DEFAULT_TIMEOUT_SECS: u64 = 30;

/// The number of whole seconds that a duration holds: what
/// `Duration::as_secs` gives.
pub uninterp spec fn whole_seconds(d: Duration) -> u64;

/// `Duration::from_secs` makes a duration of the given number of whole
/// seconds.
pub assume_specification[ Duration::from_secs ](secs: u64) -> (d: Duration)
    ensures
        whole_seconds(d) == secs,
;

/// `Duration::as_secs` gives the number of whole seconds that a duration
/// holds.
pub assume_specification[ Duration::as_secs ](d: &Duration) -> (secs: u64)
    ensures
        secs == whole_seconds(*d),
;

/// The client of the cluster tool.
#[derive(Debug)]
pub struct KubectlClient {
    timeout: Duration,
}

impl KubectlClient {
    /// The time after which a run of the tool is given up.
    pub closed spec fn spec_timeout(&self) -> Duration {
        self.timeout
    }

    /// A client with the default timeout of 30 seconds.
    pub fn new() -> (client: Self)
        ensures
            whole_seconds(client.spec_timeout()) == DEFAULT_TIMEOUT_SECS,
    {
        KubectlClient { timeout: Duration::from_secs(DEFAULT_TIMEOUT_SECS) }
    }

    /// A client with the given timeout.
    pub fn with_timeout(timeout: Duration) -> (client: Self)
        ensures
            client.spec_timeout() == timeout,
    {
        KubectlClient { timeout }
    }

    /// The time after which a run of the tool is given up.
    #[verifier::when_used_as_spec(spec_timeout)]
    pub fn timeout(&self) -> (timeout: Duration)
        ensures
            timeout == self.spec_timeout(),
    {
        self.timeout
    }

    /// The timeout in whole seconds.
    pub fn timeout_secs(&self) -> (secs: u64)
        ensures
            secs == whole_seconds(self.spec_timeout()),
    {
        self.timeout.as_secs()
    }

    /// Whether the tool can be reached, given whether it could be run
    /// directly and whether it could be run through minikube.
    pub fn check_available(&self, direct: bool, minikube: bool) -> (available: bool)
        ensures
            available == (direct || minikube),
    {
        check_kubectl_available(direct, minikube)
    }
}

/// A moment: seconds and nanoseconds since the Unix epoch.
#[derive(Debug, Clone, Copy, PartialEq, Eq, Structural)]
pub struct UnixTime {
    pub secs: i64,
    pub nanos: u32,
}

/// The whole seconds from the moment that `timestamp` names, in the format
/// of RFC 3339, to the moment `now_secs` seconds and `now_nanos`
/// nanoseconds after the Unix epoch, as the date library counts them;
/// `None` where it can make no moment of the one or of the other.
pub uninterp spec fn seconds_between(timestamp: Seq<char>, now_secs: i64, now_nanos: u32) -> Option<
    i64,
>;

/// The whole seconds from the moment that `timestamp` names to the moment
/// `now_secs`, `now_nanos`: what `chrono::DateTime::parse_from_rfc3339`
/// makes of the first and `chrono::DateTime::from_timestamp` of the second,
/// subtracted by `signed_duration_since` and counted by `num_seconds`. The
/// claim is only that the outcome is a function of the three arguments.
#[verifier::external_body]
fn elapsed_seconds(timestamp: &str, now_secs: i64, now_nanos: u32) -> (seconds: Option<i64>)
    ensures
        seconds == seconds_between(timestamp@, now_secs, now_nanos),
{
    let created = chrono::DateTime::parse_from_rfc3339(timestamp).ok()?;
    let now = chrono::DateTime::from_timestamp(now_secs, now_nanos)?;
    Some(now.signed_duration_since(created).num_seconds())
}

/// Seconds of a minute, an hour, a day.
pub const SECS_PER_MINUTE: i64 = 60;

pub const SECS_PER_HOUR: i64 = 3600;

pub const SECS_PER_DAY: i64 = 86400;

/// The age to show for an object that was created `seconds` ago: whole
/// days from one day on, else whole hours from one hour on, else whole
/// minutes. For an object from the future the minutes beyond the last
/// whole hour are shown, with a minus sign unless they are none.
pub open spec fn age_text(seconds: int) -> Seq<char> {
    if seconds >= SECS_PER_DAY {
        decimal((seconds / SECS_PER_DAY as int) as nat) + "d"@
    } else if seconds >= SECS_PER_HOUR {
        decimal((seconds / SECS_PER_HOUR as int) as nat) + "h"@
    } else if seconds >= 0 {
        decimal((seconds / SECS_PER_MINUTE as int) as nat) + "m"@
    } else if ((-seconds) / SECS_PER_MINUTE as int) % 60 == 0 {
        "0m"@
    } else {
        "-"@ + decimal((((-seconds) / SECS_PER_MINUTE as int) % 60) as nat) + "m"@
    }
}

/// The age to show at the moment `now` for an object with the creation
/// time `timestamp`: "Unknown" where the seconds between the two cannot be
/// told.
pub open spec fn age_at(timestamp: Option<Seq<char>>, now: UnixTime) -> Seq<char> {
    match timestamp {
        Some(t) => match seconds_between(t, now.secs, now.nanos) {
            Some(seconds) => age_text(seconds as int),
            None => "Unknown"@,
        },
        None => "Unknown"@,
    }
}

/// The age to show for an object that was created `seconds` ago.
pub fn age_after(seconds: i64) -> (age: String)
    ensures
        age@ == age_text(seconds as int),
{
    if seconds >= SECS_PER_DAY {
        let mut age = decimal_text((seconds / SECS_PER_DAY) as u64);
        age.append("d");
        age
    } else if seconds >= SECS_PER_HOUR {
        let mut age = decimal_text((seconds / SECS_PER_HOUR) as u64);
        age.append("h");
        age
    } else if seconds >= 0 {
        let mut age = decimal_text((seconds / SECS_PER_MINUTE) as u64);
        age.append("m");
        age
    } else {
        let ahead: u64 = if seconds == i64::MIN {
            9223372036854775808u64
        } else {
            (-seconds) as u64
        };
        let minutes: u64 = (ahead / 60) % 60;
        if minutes == 0 {
            String::from_str("0m")
        } else {
            let mut age = String::from_str("-");
            let digits = decimal_text(minutes);
            age.append(digits.as_str());
            age.append("m");
            age
        }
    }
}

/// The age to show at the moment `now` for an object with the creation
/// time `timestamp`: "Unknown" without a time in the format of RFC 3339.
pub fn calculate_age(timestamp: Option<&String>, now: UnixTime) -> (age: String)
    ensures
        age@ == age_at(
            match timestamp {
                Some(t) => Some(t@),
                None => None,
            },
            now,
        ),
{
    let seconds = match timestamp {
        Some(t) => elapsed_seconds(t.as_str(), now.secs, now.nanos),
        None => None,
    };
    match seconds {
        Some(s) => age_after(s),
        None => String::from_str("Unknown"),
    }
}

/// The text of the member `key` of `section`, if there is one.
pub open spec fn text_at(section: Option<Json>, key: Seq<char>) -> Option<String> {
    text_of(member(section, key))
}

/// The characters of an optional text.
pub open spec fn chars_at(text: Option<String>) -> Option<Seq<char>> {
    match text {
        Some(t) => Some(t@),
        None => None,
    }
}

/// The text of the member `key` of `section`, or `default` if there is
/// none.
pub open spec fn text_or(section: Option<Json>, key: Seq<char>, default: Seq<char>) -> Seq<char> {
    match text_at(section, key) {
        Some(t) => t@,
        None => default,
    }
}

/// The number of the member `key` of `section`, if there is one.
pub open spec fn number_at(section: Option<Json>, key: Seq<char>) -> Option<u64> {
    number_of(member(section, key))
}

/// The lower 32 bits of `n`.
pub open spec fn low32(n: u64) -> u32 {
    (n % 0x1_0000_0000) as u32
}

/// The number of the member `key` of `section`, cut to 32 bits, or 0 if
/// there is none.
pub open spec fn count_at(section: Option<Json>, key: Seq<char>) -> u32 {
    match number_at(section, key) {
        Some(n) => low32(n),
        None => 0,
    }
}

/// The text of the member `key` of `section`, if there is one.
pub fn text_in<'a>(section: Option<&'a Json>, key: &str) -> (text: Option<&'a String>)
    ensures
        match text {
            Some(t) => text_at(deref_json(section), key@) == Some(*t),
            None => text_at(deref_json(section), key@) is None,
        },
{
    as_text(get(section, key))
}

/// A copy of the text of the member `key` of `section`, if there is one.
pub fn owned_text_in(section: Option<&Json>, key: &str) -> (text: Option<String>)
    ensures
        text == text_at(deref_json(section), key@),
{
    match text_in(section, key) {
        Some(t) => Some(t.clone()),
        None => None,
    }
}

/// The text of the member `key` of `section`, or `default` if there is
/// none.
pub fn text_in_or(section: Option<&Json>, key: &str, default: &str) -> (text: String)
    ensures
        text@ == text_or(deref_json(section), key@, default@),
{
    match text_in(section, key) {
        Some(t) => t.clone(),
        None => String::from_str(default),
    }
}

/// The number of the member `key` of `section`, if there is one.
pub fn number_in(section: Option<&Json>, key: &str) -> (n: Option<u64>)
    ensures
        n == number_at(deref_json(section), key@),
{
    as_number(get(section, key))
}

/// The number of the member `key` of `section`, cut to 32 bits, or 0 if
/// there is none.
pub fn count_in(section: Option<&Json>, key: &str) -> (n: u32)
    ensures
        n == count_at(deref_json(section), key@),
{
    match number_in(section, key) {
        Some(n) => (n % 0x1_0000_0000) as u32,
        None => 0,
    }
}

/// `a`, a slash, `b`: both in decimal.
pub open spec fn ratio_text(a: nat, b: nat) -> Seq<char> {
    decimal(a) + "/"@ + decimal(b)
}

/// `a`, a slash, `b`: both in decimal.
pub fn ratio(a: u64, b: u64) -> (text: String)
    ensures
        text@ == ratio_text(a as nat, b as nat),
{
    let mut text = decimal_text(a);
    text.append("/");
    let right = decimal_text(b);
    text.append(right.as_str());
    text
}

/// The indices, in order, of those among the first `n` of `items` that
/// `keep` holds of.
pub open spec fn indices_where<A>(items: Seq<A>, keep: spec_fn(A) -> bool, n: nat) -> Seq<int>
    recommends
        n <= items.len(),
    decreases n,
{
    if n == 0 {
        Seq::empty()
    } else {
        let before = indices_where(items, keep, (n - 1) as nat);
        if keep(items[n - 1]) {
            before.push(n - 1)
        } else {
            before
        }
    }
}

/// Whether `found` holds, in order, one value for each of `items` that
/// `keep` holds of, each standing to its item as `describes` says.
pub open spec fn is_selection<A, T>(
    items: Seq<A>,
    found: Seq<T>,
    keep: spec_fn(A) -> bool,
    describes: spec_fn(A, T) -> bool,
) -> bool {
    let kept = indices_where(items, keep, items.len());
    &&& found.len() == kept.len()
    &&& forall|k: int| 0 <= k < found.len() ==> describes(items[kept[k]], #[trigger] found[k])
}

/// The indices that `indices_where` lists are indices of `items`.
pub proof fn lemma_indices_where_in_range<A>(items: Seq<A>, keep: spec_fn(A) -> bool, n: nat)
    requires
        n <= items.len(),
    ensures
        indices_where(items, keep, n).len() <= n,
        forall|k: int|
            0 <= k < indices_where(items, keep, n).len() ==> 0 <= #[trigger] indices_where(
                items,
                keep,
                n,
            )[k] < n,
    decreases n,
{
    if n > 0 {
        lemma_indices_where_in_range(items, keep, (n - 1) as nat);
    }
}

/// Applies `parse` to each of `items` and keeps what it could parse, in
/// order.
fn collect_parsed<A, T, E, F: Fn(&A) -> Result<T, E>>(
    items: &Vec<A>,
    parse: F,
    Ghost(keep): Ghost<spec_fn(A) -> bool>,
    Ghost(describes): Ghost<spec_fn(A, T) -> bool>,
) -> (found: Vec<T>)
    requires
        forall|item: &A| call_requires(parse, (item,)),
        forall|item: &A, result: Result<T, E>| #[trigger]
            call_ensures(parse, (item,), result) ==> (result is Ok <==> keep(*item)) && (result is Ok
                ==> describes(*item, result->Ok_0)),
    ensures
        is_selection(items@, found@, keep, describes),
{
    let mut found: Vec<T> = Vec::new();
    let mut i: usize = 0;
    while i < items.len()
        invariant
            i <= items.len(),
            forall|item: &A| call_requires(parse, (item,)),
            forall|item: &A, result: Result<T, E>| #[trigger]
                call_ensures(parse, (item,), result) ==> (result is Ok <==> keep(*item)) && (result
                    is Ok ==> describes(*item, result->Ok_0)),
            found@.len() == indices_where(items@, keep, i as nat).len(),
            forall|k: int|
                0 <= k < found@.len() ==> describes(
                    items@[indices_where(items@, keep, i as nat)[k]],
                    #[trigger] found@[k],
                ),
        decreases items.len() - i,
    {
        match parse(&items[i]) {
            Ok(value) => {
                found.push(value);
            },
            Err(_) => {},
        }
        i = i + 1;
    }
    found
}

/// Applies `parse` with the moment `now` to each of `items` and keeps what
/// it could parse, in order.
fn collect_dated<A, T, E, F: Fn(&A, UnixTime) -> Result<T, E>>(
    items: &Vec<A>,
    now: UnixTime,
    parse: F,
    Ghost(keep): Ghost<spec_fn(A) -> bool>,
    Ghost(describes): Ghost<spec_fn(A, T) -> bool>,
) -> (found: Vec<T>)
    requires
        forall|item: &A| call_requires(parse, (item, now)),
        forall|item: &A, result: Result<T, E>| #[trigger]
            call_ensures(parse, (item, now), result) ==> (result is Ok <==> keep(*item)) && (result
                is Ok ==> describes(*item, result->Ok_0)),
    ensures
        is_selection(items@, found@, keep, describes),
{
    let mut found: Vec<T> = Vec::new();
    let mut i: usize = 0;
    while i < items.len()
        invariant
            i <= items.len(),
            forall|item: &A| call_requires(parse, (item, now)),
            forall|item: &A, result: Result<T, E>| #[trigger]
                call_ensures(parse, (item, now), result) ==> (result is Ok <==> keep(*item)) && (
                result is Ok ==> describes(*item, result->Ok_0)),
            found@.len() == indices_where(items@, keep, i as nat).len(),
            forall|k: int|
                0 <= k < found@.len() ==> describes(
                    items@[indices_where(items@, keep, i as nat)[k]],
                    #[trigger] found@[k],
                ),
        decreases items.len() - i,
    {
        match parse(&items[i], now) {
            Ok(value) => {
                found.push(value);
            },
            Err(_) => {},
        }
        i = i + 1;
    }
    found
}

/// Why the output of the tool could not be turned into a list of
/// objects.
#[derive(Debug)]
pub enum ClientError {
    /// The output is no JSON document.
    InvalidJson(JsonError),
    /// The document has no array called `items`.
    MissingItems,
}

/// Which piece of an object was missing.
#[derive(Debug, Clone, Copy, PartialEq, Eq, Structural)]
pub enum MissingField {
    Name,
    Namespace,
}

/// Why an object could not be read from its JSON form.
#[derive(Debug, Clone, Copy, PartialEq, Eq, Structural)]
pub struct ParseError {
    /// The kind of object that was read.
    pub kind: ResourceKind,
    /// What was missing.
    pub field: MissingField,
}

/// The items of the list that the tool printed as `output`: the elements
/// of the array `items` of the document.
pub open spec fn listed_items(output: Seq<char>) -> Option<Seq<Json>> {
    elements_of(member(parsed_json(output), "items"@))
}

/// The section `key` of `item`.
pub open spec fn section(item: Json, key: Seq<char>) -> Option<Json> {
    member(Some(item), key)
}

/// The creation time of `item`, as its metadata gives it.
pub open spec fn created_at(item: Json) -> Option<Seq<char>> {
    chars_at(text_at(section(item, "metadata"@), "creationTimestamp"@))
}

/// The age to show for `item` at the moment `now`.
pub fn age_of(item: &Json, now: UnixTime) -> (age: String)
    ensures
        age@ == age_at(created_at(*item), now),
{
    calculate_age(text_in(get(Some(item), "metadata"), "creationTimestamp"), now)
}

/// The name of `item` as its metadata gives it.
pub open spec fn name_at(item: Json) -> Option<String> {
    text_at(section(item, "metadata"@), "name"@)
}

/// The namespace of `item` as its metadata gives it.
pub open spec fn namespace_at(item: Json) -> Option<String> {
    text_at(section(item, "metadata"@), "namespace"@)
}

/// A copy of the name of `item`, or the error that says it is missing.
pub fn required_name(item: &Json, kind: ResourceKind) -> (name: Result<
    String,
    ParseError,
>)
    ensures
        match name {
            Ok(n) => name_at(*item) == Some(n),
            Err(e) => name_at(*item) is None && e == (ParseError {
                kind,
                field: MissingField::Name,
            }),
        },
{
    match owned_text_in(get(Some(item), "metadata"), "name") {
        Some(n) => Ok(n),
        None => Err(ParseError { kind, field: MissingField::Name }),
    }
}

/// A copy of the namespace of `item`, or the error that says it is
/// missing.
pub fn required_namespace(item: &Json, kind: ResourceKind) -> (namespace: Result<
    String,
    ParseError,
>)
    ensures
        match namespace {
            Ok(n) => namespace_at(*item) == Some(n),
            Err(e) => namespace_at(*item) is None && e == (ParseError {
                kind,
                field: MissingField::Namespace,
            }),
        },
{
    match owned_text_in(get(Some(item), "metadata"), "namespace") {
        Some(n) => Ok(n),
        None => Err(ParseError { kind, field: MissingField::Namespace }),
    }
}

/// Reads the array `items` from the output of the tool.
pub fn parse_items(output: &str) -> (items: Result<Json, ClientError>)
    ensures
        match items {
            Ok(document) => parsed_json(output@) == Some(document) && listed_items(output@)
                is Some,
            Err(ClientError::InvalidJson(_)) => parsed_json(output@) is None,
            Err(ClientError::MissingItems) => parsed_json(output@) is Some && listed_items(
                output@,
            ) is None,
        },
{
    match parse_json(output) {
        Ok(document) => {
            if as_array(get(Some(&document), "items")).is_some() {
                Ok(document)
            } else {
                Err(ClientError::MissingItems)
            }
        },
        Err(e) => Err(ClientError::InvalidJson(e)),
    }
}

/// Number of those among the first `n` of `statuses` that are marked
/// ready.
pub open spec fn ready_count(statuses: Seq<Json>, n: nat) -> nat
    recommends
        n <= statuses.len(),
    decreases n,
{
    if n == 0 {
        0
    } else {
        ready_count(statuses, (n - 1) as nat) + if bool_of(
            member(Some(statuses[n - 1]), "ready"@),
        ) == Some(true) {
            1nat
        } else {
            0nat
        }
    }
}

/// Sum of the restart counts of the first `n` of `statuses`, each cut to
/// 32 bits, and the sum kept in 32 bits.
pub open spec fn restart_sum(statuses: Seq<Json>, n: nat) -> u32
    recommends
        n <= statuses.len(),
    decreases n,
{
    if n == 0 {
        0
    } else {
        ((restart_sum(statuses, (n - 1) as nat) + count_at(
            Some(statuses[n - 1]),
            "restartCount"@,
        )) % 0x1_0000_0000) as u32
    }
}

/// The elements of the array `key` of `section`; none if there is no such
/// array.
pub open spec fn elements_at(section: Option<Json>, key: Seq<char>) -> Seq<Json> {
    match elements_of(member(section, key)) {
        Some(elements) => elements,
        None => Seq::empty(),
    }
}

/// Number of elements of `list`, or 0 without a list.
fn length_of(list: Option<&Vec<Json>>) -> (n: usize)
    ensures
        n == match list {
            Some(l) => l@.len(),
            None => 0,
        },
{
    match list {
        Some(l) => l.len(),
        None => 0,
    }
}

/// Number of container statuses that are marked ready.
fn count_ready(statuses: Option<&Vec<Json>>) -> (n: usize)
    ensures
        n == match statuses {
            Some(s) => ready_count(s@, s@.len()),
            None => 0,
        },
{
    match statuses {
        Some(list) => {
            let mut n: usize = 0;
            let mut i: usize = 0;
            while i < list.len()
                invariant
                    i <= list.len(),
                    n <= i,
                    n == ready_count(list@, i as nat),
                decreases list.len() - i,
            {
                match as_bool(get(Some(&list[i]), "ready")) {
                    Some(true) => {
                        n = n + 1;
                    },
                    _ => {},
                }
                i = i + 1;
            }
            n
        },
        None => 0,
    }
}

/// Sum of the restart counts of the container statuses, kept in 32 bits.
fn sum_restarts(statuses: Option<&Vec<Json>>) -> (n: u32)
    ensures
        n == match statuses {
            Some(s) => restart_sum(s@, s@.len()),
            None => 0,
        },
{
    match statuses {
        Some(list) => {
            let mut n: u32 = 0;
            let mut i: usize = 0;
            while i < list.len()
                invariant
                    i <= list.len(),
                    n == restart_sum(list@, i as nat),
                decreases list.len() - i,
            {
                let count = count_in(Some(&list[i]), "restartCount");
                n = (((n as u64) + (count as u64)) % 0x1_0000_0000) as u32;
                i = i + 1;
            }
            n
        },
        None => 0,
    }
}

/// The error of reading `item` as an object of `kind`: its name is
/// missing, or its namespace where the kind needs one.
pub open spec fn parse_failure(item: Json, kind: ResourceKind, needs_namespace: bool) -> Option<
    ParseError,
> {
    if name_at(item) is None {
        Some(ParseError { kind, field: MissingField::Name })
    } else if needs_namespace && namespace_at(item) is None {
        Some(ParseError { kind, field: MissingField::Namespace })
    } else {
        None
    }
}

/// The container statuses of the pod `item`, if it lists any.
pub open spec fn container_statuses(item: Json) -> Option<Seq<Json>> {
    elements_of(member(section(item, "status"@), "containerStatuses"@))
}

/// Whether `pod` is what the JSON object `item` describes.
pub open spec fn describes_pod(item: Json, pod: Pod, now: UnixTime) -> bool {
    &&& name_at(item) == Some(pod.name)
    &&& namespace_at(item) == Some(pod.namespace)
    &&& pod.status.phase@ == text_or(section(item, "status"@), "phase"@, "Unknown"@)
    &&& pod.status.conditions is None
    &&& pod.status.container_statuses is None
    &&& pod.ready@ == ratio_text(
        match container_statuses(item) {
            Some(s) => ready_count(s, s.len()),
            None => 0,
        },
        elements_at(section(item, "spec"@), "containers"@).len(),
    )
    &&& pod.restarts == match container_statuses(item) {
        Some(s) => restart_sum(s, s.len()),
        None => 0,
    }
    &&& pod.age@ == age_at(created_at(item), now)
    &&& pod.node == text_at(section(item, "spec"@), "nodeName"@)
    &&& pod.ip == text_at(section(item, "status"@), "podIP"@)
}

/// Reads a pod from its JSON form. Fails exactly when the name or the
/// namespace is missing.
pub fn parse_pod(item: &Json, now: UnixTime) -> (result: Result<Pod, ParseError>)
    ensures
        match result {
            Ok(pod) => parse_failure(*item, ResourceKind::Pod, true) is None && describes_pod(
                *item,
                pod,
                now,
            ),
            Err(e) => parse_failure(*item, ResourceKind::Pod, true) == Some(e),
        },
{
    let spec = get(Some(item), "spec");
    let status = get(Some(item), "status");
    let name = match required_name(item, ResourceKind::Pod) {
        Ok(n) => n,
        Err(e) => {
            return Err(e);
        },
    };
    let namespace = match required_namespace(item, ResourceKind::Pod) {
        Ok(n) => n,
        Err(e) => {
            return Err(e);
        },
    };
    let phase = text_in_or(status, "phase", "Unknown");
    let statuses = as_array(get(status, "containerStatuses"));
    let ready_count = count_ready(statuses);
    let total_count = length_of(as_array(get(spec, "containers")));
    let ready = ratio(ready_count as u64, total_count as u64);
    let restarts = sum_restarts(statuses);
    let age = age_of(item, now);
    let node = owned_text_in(spec, "nodeName");
    let ip = owned_text_in(status, "podIP");
    Ok(
        Pod {
            name,
            namespace,
            status: PodStatus { phase, conditions: None, container_statuses: None },
            ready,
            restarts,
            age,
            node,
            ip,
        },
    )
}

impl KubectlClient {
    /// Reads the pods from the output of the tool. Items that cannot be
    /// read as pods are left out.
    pub fn get_pods(&self, output: &str, now: UnixTime) -> (result: Result<Vec<Pod>, ClientError>)
        ensures
            match result {
                Ok(pods) => listed_items(output@) is Some && is_selection(
                    listed_items(output@).unwrap(),
                    pods@,
                    |item: Json| parse_failure(item, ResourceKind::Pod, true) is None,
                    |item: Json, pod: Pod| describes_pod(item, pod, now),
                ),
                Err(ClientError::InvalidJson(_)) => parsed_json(output@) is None,
                Err(ClientError::MissingItems) => parsed_json(output@) is Some && listed_items(
                    output@,
                ) is None,
            },
    {
        let document = match parse_items(output) {
            Ok(document) => document,
            Err(e) => {
                return Err(e);
            },
        };
        match as_array(get(Some(&document), "items")) {
            Some(items) => Ok(
                collect_dated(
                    items,
                    now,
                    parse_pod,
                    Ghost(|item: Json| parse_failure(item, ResourceKind::Pod, true) is None),
                    Ghost(|item: Json, pod: Pod| describes_pod(item, pod, now)),
                ),
            ),
            None => Err(ClientError::MissingItems),
        }
    }
}

/// The texts, in order, among the first `n` of `elements`.
pub open spec fn texts_among(elements: Seq<Json>, n: nat) -> Seq<String>
    recommends
        n <= elements.len(),
    decreases n,
{
    if n == 0 {
        Seq::empty()
    } else {
        let before = texts_among(elements, (n - 1) as nat);
        match text_of(Some(elements[n - 1])) {
            Some(t) => before.push(t),
            None => before,
        }
    }
}

/// The texts, in order, of the members `key` of the first `n` of
/// `elements`.
pub open spec fn member_texts_among(elements: Seq<Json>, key: Seq<char>, n: nat) -> Seq<String>
    recommends
        n <= elements.len(),
    decreases n,
{
    if n == 0 {
        Seq::empty()
    } else {
        let before = member_texts_among(elements, key, (n - 1) as nat);
        match text_at(Some(elements[n - 1]), key) {
            Some(t) => before.push(t),
            None => before,
        }
    }
}

/// The texts among the elements of the array `key` of `section`.
pub open spec fn texts_at(section: Option<Json>, key: Seq<char>) -> Seq<String> {
    texts_among(elements_at(section, key), elements_at(section, key).len())
}

/// Copies of the texts among the elements of the array `key` of
/// `section`, in order; none if there is no such array.
pub fn texts_in(section: Option<&Json>, key: &str) -> (texts: Vec<String>)
    ensures
        texts@ == texts_at(deref_json(section), key@),
{
    let mut texts: Vec<String> = Vec::new();
    match as_array(get(section, key)) {
        Some(list) => {
            let mut i: usize = 0;
            while i < list.len()
                invariant
                    i <= list.len(),
                    texts@ == texts_among(list@, i as nat),
                decreases list.len() - i,
            {
                match as_text(Some(&list[i])) {
                    Some(t) => {
                        texts.push(t.clone());
                    },
                    None => {},
                }
                i = i + 1;
            }
        },
        None => {},
    }
    texts
}

/// Copies of the texts of the members `inner` of the elements of the array
/// `key` of `section`, in order.
pub fn member_texts_in(section: Option<&Json>, key: &str, inner: &str) -> (texts: Vec<String>)
    ensures
        texts@ == member_texts_among(
            elements_at(deref_json(section), key@),
            inner@,
            elements_at(deref_json(section), key@).len(),
        ),
{
    let mut texts: Vec<String> = Vec::new();
    match as_array(get(section, key)) {
        Some(list) => {
            let mut i: usize = 0;
            while i < list.len()
                invariant
                    i <= list.len(),
                    texts@ == member_texts_among(list@, inner@, i as nat),
                decreases list.len() - i,
            {
                match text_in(Some(&list[i]), inner) {
                    Some(t) => {
                        texts.push(t.clone());
                    },
                    None => {},
                }
                i = i + 1;
            }
        },
        None => {},
    }
    texts
}

/// Number of members of the object `key` of `section`, or 0 if there is
/// no such object.
pub open spec fn member_count_at(section: Option<Json>, key: Seq<char>) -> nat {
    match members_of(member(section, key)) {
        Some(members) => members.len(),
        None => 0,
    }
}

/// Number of members of the object `key` of `section`, or 0 if there is
/// no such object.
pub fn member_count_in(section: Option<&Json>, key: &str) -> (n: usize)
    ensures
        n == member_count_at(deref_json(section), key@),
{
    match as_object(get(section, key)) {
        Some(members) => members.len(),
        None => 0,
    }
}

/// The lower 16 bits of `n`.
pub open spec fn low16(n: u64) -> u16 {
    (n % 0x1_0000) as u16
}

/// Whether `port` is what the JSON object `item` describes.
pub open spec fn describes_port(item: Json, port: ServicePort) -> bool {
    &&& port.name == text_at(Some(item), "name"@)
    &&& number_at(Some(item), "port"@) is Some
    &&& port.port == low16(number_at(Some(item), "port"@).unwrap())
    &&& port.target_port == text_at(Some(item), "targetPort"@)
    &&& port.protocol@ == text_or(Some(item), "protocol"@, "TCP"@)
}

/// Reads a port of a service. There is none without a port number.
pub fn parse_port(item: &Json) -> (result: Result<ServicePort, ()>)
    ensures
        result is Ok <==> number_at(Some(*item), "port"@) is Some,
        result is Ok ==> describes_port(*item, result->Ok_0),
{
    match number_in(Some(item), "port") {
        Some(n) => Ok(
            ServicePort {
                name: owned_text_in(Some(item), "name"),
                port: (n % 0x1_0000) as u16,
                target_port: owned_text_in(Some(item), "targetPort"),
                protocol: text_in_or(Some(item), "protocol", "TCP"),
            },
        ),
        None => Err(()),
    }
}

/// The first external address of the service `item`, if it is a text.
pub open spec fn first_external_ip(item: Json) -> Option<String> {
    let ips = elements_at(section(item, "spec"@), "externalIPs"@);
    if ips.len() > 0 {
        text_of(Some(ips[0]))
    } else {
        None
    }
}

/// Whether `service` is what the JSON object `item` describes.
pub open spec fn describes_service(item: Json, service: Service, now: UnixTime) -> bool {
    &&& name_at(item) == Some(service.name)
    &&& namespace_at(item) == Some(service.namespace)
    &&& service.type_@ == text_or(section(item, "spec"@), "type"@, "ClusterIP"@)
    &&& service.cluster_ip@ == text_or(section(item, "spec"@), "clusterIP"@, "None"@)
    &&& service.external_ip == first_external_ip(item)
    &&& is_selection(
        elements_at(section(item, "spec"@), "ports"@),
        service.ports@,
        |port: Json| number_at(Some(port), "port"@) is Some,
        |port: Json, read: ServicePort| describes_port(port, read),
    )
    &&& service.age@ == age_at(created_at(item), now)
}

/// Reads a service from its JSON form. Fails exactly when the name or the
/// namespace is missing.
pub fn parse_service(item: &Json, now: UnixTime) -> (result: Result<Service, ParseError>)
    ensures
        match result {
            Ok(service) => parse_failure(*item, ResourceKind::Service, true) is None
                && describes_service(*item, service, now),
            Err(e) => parse_failure(*item, ResourceKind::Service, true) == Some(e),
        },
{
    let spec = get(Some(item), "spec");
    let name = match required_name(item, ResourceKind::Service) {
        Ok(n) => n,
        Err(e) => {
            return Err(e);
        },
    };
    let namespace = match required_namespace(item, ResourceKind::Service) {
        Ok(n) => n,
        Err(e) => {
            return Err(e);
        },
    };
    let type_ = text_in_or(spec, "type", "ClusterIP");
    let cluster_ip = text_in_or(spec, "clusterIP", "None");
    let external_ip = match as_array(get(spec, "externalIPs")) {
        Some(ips) => if ips.len() > 0 {
            match as_text(Some(&ips[0])) {
                Some(t) => Some(t.clone()),
                None => None,
            }
        } else {
            None
        },
        None => None,
    };
    let ports = match as_array(get(spec, "ports")) {
        Some(list) => collect_parsed(
            list,
            parse_port,
            Ghost(|port: Json| number_at(Some(port), "port"@) is Some),
            Ghost(|port: Json, read: ServicePort| describes_port(port, read)),
        ),
        None => {
            let none: Vec<ServicePort> = Vec::new();
            assert(is_selection(
                Seq::<Json>::empty(),
                none@,
                |port: Json| number_at(Some(port), "port"@) is Some,
                |port: Json, read: ServicePort| describes_port(port, read),
            ));
            none
        },
    };
    let age = age_of(item, now);
    Ok(Service { name, namespace, type_, cluster_ip, external_ip, ports, age })
}

/// The first among `conditions`, from position `from` on, whose type is
/// "Ready".
pub open spec fn ready_condition(conditions: Seq<Json>, from: int) -> Option<Json>
    decreases conditions.len() - from,
{
    if from < 0 || from >= conditions.len() {
        None
    } else if chars_at(text_at(Some(conditions[from]), "type"@)) == Some("Ready"@) {
        Some(conditions[from])
    } else {
        ready_condition(conditions, from + 1)
    }
}

/// The status to show for the node `item`: "Ready" or "NotReady" as its
/// first condition of the type "Ready" says, and "Unknown" without such a
/// condition.
pub open spec fn node_status(item: Json) -> Seq<char> {
    match elements_of(member(section(item, "status"@), "conditions"@)) {
        Some(conditions) => match ready_condition(conditions, 0) {
            Some(condition) => if chars_at(text_at(Some(condition), "status"@)) == Some("True"@) {
                "Ready"@
            } else {
                "NotReady"@
            },
            None => "Unknown"@,
        },
        None => "Unknown"@,
    }
}

/// Whether the member `key` of `section` is the text `expected`.
fn text_is(section: Option<&Json>, key: &str, expected: &str) -> (same: bool)
    ensures
        same == (chars_at(text_at(deref_json(section), key@)) == Some(expected@)),
{
    match text_in(section, key) {
        Some(t) => same_text(t.as_str(), expected),
        None => false,
    }
}

/// The status to show for the node `item`.
fn read_node_status(item: &Json) -> (status: String)
    ensures
        status@ == node_status(*item),
{
    match as_array(get(get(Some(item), "status"), "conditions")) {
        Some(conditions) => {
            let mut i: usize = 0;
            while i < conditions.len()
                invariant
                    i <= conditions.len(),
                    elements_of(member(section(*item, "status"@), "conditions"@)) == Some(
                        conditions@,
                    ),
                    ready_condition(conditions@, 0) == ready_condition(conditions@, i as int),
                decreases conditions.len() - i,
            {
                if text_is(Some(&conditions[i]), "type", "Ready") {
                    return if text_is(Some(&conditions[i]), "status", "True") {
                        String::from_str("Ready")
                    } else {
                        String::from_str("NotReady")
                    };
                }
                i = i + 1;
            }
            String::from_str("Unknown")
        },
        None => String::from_str("Unknown"),
    }
}

/// Whether `key` begins with the characters of `prefix`.
pub open spec fn has_prefix(key: Seq<char>, prefix: Seq<char>) -> bool {
    prefix.len() <= key.len() && key.subrange(0, prefix.len() as int) == prefix
}

/// The roles that the first `n` labels name: what follows `prefix` in the
/// keys that begin with it, in the order of the labels.
pub open spec fn role_names(labels: Seq<(String, Json)>, prefix: Seq<char>, n: nat) -> Seq<
    Seq<char>,
>
    recommends
        n <= labels.len(),
    decreases n,
{
    if n == 0 {
        Seq::empty()
    } else {
        let before = role_names(labels, prefix, (n - 1) as nat);
        let key = labels[n - 1].0@;
        if has_prefix(key, prefix) {
            before.push(key.subrange(prefix.len() as int, key.len() as int))
        } else {
            before
        }
    }
}

/// The roles to show for the node `item`: those that its labels name,
/// "worker" if they name none, and "unknown" if it has no labels.
pub open spec fn node_roles(item: Json) -> Seq<Seq<char>> {
    match members_of(member(section(item, "metadata"@), "labels"@)) {
        Some(labels) => {
            let roles = role_names(labels, "node-role.kubernetes.io/"@, labels.len());
            if roles.len() == 0 {
                seq!["worker"@]
            } else {
                roles
            }
        },
        None => seq!["unknown"@],
    }
}

/// What follows `prefix` in `key`, if `key` begins with it.
fn strip_prefix(key: &str, prefix: &str) -> (rest: Option<String>)
    ensures
        match rest {
            Some(r) => has_prefix(key@, prefix@) && r@ == key@.subrange(
                prefix@.len() as int,
                key@.len() as int,
            ),
            None => !has_prefix(key@, prefix@),
        },
{
    let k = chars_of(key);
    let p = chars_of(prefix);
    if p.len() > k.len() {
        return None;
    }
    let mut i: usize = 0;
    while i < p.len()
        invariant
            i <= p.len(),
            p.len() <= k.len(),
            k@ == key@,
            p@ == prefix@,
            forall|j: int| 0 <= j < i ==> k@[j] == p@[j],
        decreases p.len() - i,
    {
        if k[i] != p[i] {
            assert(key@.subrange(0, prefix@.len() as int)[i as int] != prefix@[i as int]);
            return None;
        }
        i = i + 1;
    }
    assert(key@.subrange(0, prefix@.len() as int) =~= prefix@);
    Some(slice_text(key, p.len(), k.len()))
}

/// The roles to show for the node `item`.
fn read_node_roles(item: &Json) -> (roles: Vec<String>)
    ensures
        texts(roles@) == node_roles(*item),
{
    match as_object(get(get(Some(item), "metadata"), "labels")) {
        Some(labels) => {
            let mut roles: Vec<String> = Vec::new();
            let mut i: usize = 0;
            proof {
                assert(texts(roles@) =~= role_names(labels@, "node-role.kubernetes.io/"@, 0));
            }
            while i < labels.len()
                invariant
                    i <= labels.len(),
                    texts(roles@) == role_names(labels@, "node-role.kubernetes.io/"@, i as nat),
                decreases labels.len() - i,
            {
                match strip_prefix(labels[i].0.as_str(), "node-role.kubernetes.io/") {
                    Some(role) => {
                        let ghost before = texts(roles@);
                        roles.push(role);
                        assert(texts(roles@) =~= before.push(role@));
                    },
                    None => {},
                }
                i = i + 1;
            }
            if roles.len() == 0 {
                roles.push(String::from_str("worker"));
                assert(texts(roles@) =~= seq!["worker"@]);
            }
            roles
        },
        None => {
            let mut roles: Vec<String> = Vec::new();
            roles.push(String::from_str("unknown"));
            assert(texts(roles@) =~= seq!["unknown"@]);
            roles
        },
    }
}

/// The address that the last among the first `n` of `addresses` with the
/// type `kind` gives; it gives none if it holds no text as its address.
pub open spec fn last_address(addresses: Seq<Json>, kind: Seq<char>, n: nat) -> Option<String>
    recommends
        n <= addresses.len(),
    decreases n,
{
    if n == 0 {
        None
    } else if chars_at(text_at(Some(addresses[n - 1]), "type"@)) == Some(kind) {
        text_at(Some(addresses[n - 1]), "address"@)
    } else {
        last_address(addresses, kind, (n - 1) as nat)
    }
}

/// The address of the type `kind` of the node `item`.
pub open spec fn node_address(item: Json, kind: Seq<char>) -> Option<String> {
    let addresses = elements_at(section(item, "status"@), "addresses"@);
    last_address(addresses, kind, addresses.len())
}

/// The address of the type `kind` of the node `item`.
fn read_node_address(item: &Json, kind: &str) -> (address: Option<String>)
    ensures
        address == node_address(*item, kind@),
{
    let mut address: Option<String> = None;
    match as_array(get(get(Some(item), "status"), "addresses")) {
        Some(list) => {
            let mut i: usize = 0;
            while i < list.len()
                invariant
                    i <= list.len(),
                    address == last_address(list@, kind@, i as nat),
                decreases list.len() - i,
            {
                if text_is(Some(&list[i]), "type", kind) {
                    address = owned_text_in(Some(&list[i]), "address");
                }
                i = i + 1;
            }
        },
        None => {},
    }
    address
}

/// The section `nodeInfo` of the status of the node `item`.
pub open spec fn node_info(item: Json) -> Option<Json> {
    member(section(item, "status"@), "nodeInfo"@)
}

/// Whether `node` is what the JSON object `item` describes.
pub open spec fn describes_node(item: Json, node: Node, now: UnixTime) -> bool {
    &&& name_at(item) == Some(node.name)
    &&& node.status@ == node_status(item)
    &&& texts(node.roles@) == node_roles(item)
    &&& node.age@ == age_at(created_at(item), now)
    &&& node.version@ == text_or(node_info(item), "kubeletVersion"@, "unknown"@)
    &&& node.internal_ip == node_address(item, "InternalIP"@)
    &&& node.external_ip == node_address(item, "ExternalIP"@)
    &&& node.os_image == text_at(node_info(item), "osImage"@)
    &&& node.kernel_version == text_at(node_info(item), "kernelVersion"@)
    &&& node.container_runtime == text_at(node_info(item), "containerRuntimeVersion"@)
}

/// Reads a node from its JSON form. Fails exactly when the name is
/// missing.
pub fn parse_node(item: &Json, now: UnixTime) -> (result: Result<Node, ParseError>)
    ensures
        match result {
            Ok(node) => parse_failure(*item, ResourceKind::Node, false) is None && describes_node(
                *item,
                node,
                now,
            ),
            Err(e) => parse_failure(*item, ResourceKind::Node, false) == Some(e),
        },
{
    let info = get(get(Some(item), "status"), "nodeInfo");
    let name = match required_name(item, ResourceKind::Node) {
        Ok(n) => n,
        Err(e) => {
            return Err(e);
        },
    };
    let status = read_node_status(item);
    let roles = read_node_roles(item);
    let age = age_of(item, now);
    let version = text_in_or(info, "kubeletVersion", "unknown");
    let internal_ip = read_node_address(item, "InternalIP");
    let external_ip = read_node_address(item, "ExternalIP");
    let os_image = owned_text_in(info, "osImage");
    let kernel_version = owned_text_in(info, "kernelVersion");
    let container_runtime = owned_text_in(info, "containerRuntimeVersion");
    Ok(
        Node {
            name,
            status,
            roles,
            age,
            version,
            internal_ip,
            external_ip,
            os_image,
            kernel_version,
            container_runtime,
        },
    )
}

/// Whether `configmap` is what the JSON object `item` describes.
pub open spec fn describes_configmap(item: Json, configmap: ConfigMap, now: UnixTime) -> bool {
    &&& name_at(item) == Some(configmap.name)
    &&& namespace_at(item) == Some(configmap.namespace)
    &&& configmap.data_count == member_count_at(Some(item), "data"@)
    &&& configmap.age@ == age_at(created_at(item), now)
}
/// Reads a config map from its JSON form. Fails exactly when the name or the
/// namespace is missing.
pub fn parse_configmap(item: &Json, now: UnixTime) -> (result: Result<ConfigMap, ParseError>)
    ensures
        match result {
            Ok(configmap) => parse_failure(*item, ResourceKind::ConfigMap, true) is None
                && describes_configmap(*item, configmap, now),
            Err(e) => parse_failure(*item, ResourceKind::ConfigMap, true) == Some(e),
        },
{
    let name = match required_name(item, ResourceKind::ConfigMap) {
        Ok(n) => n,
        Err(e) => {
            return Err(e);
        },
    };
    let namespace = match required_namespace(item, ResourceKind::ConfigMap) {
        Ok(n) => n,
        Err(e) => {
            return Err(e);
        },
    };
    let data_count = member_count_in(Some(item), "data");
    let age = age_of(item, now);
    Ok(ConfigMap { name, namespace, data_count, age })
}

/// Whether `secret` is what the JSON object `item` describes.
pub open spec fn describes_secret(item: Json, secret: Secret, now: UnixTime) -> bool {
    &&& name_at(item) == Some(secret.name)
    &&& namespace_at(item) == Some(secret.namespace)
    &&& secret.type_@ == text_or(Some(item), "type"@, "Opaque"@)
    &&& secret.data_count == member_count_at(Some(item), "data"@)
    &&& secret.age@ == age_at(created_at(item), now)
}
/// Reads a secret from its JSON form. Fails exactly when the name or the
/// namespace is missing.
pub fn parse_secret(item: &Json, now: UnixTime) -> (result: Result<Secret, ParseError>)
    ensures
        match result {
            Ok(secret) => parse_failure(*item, ResourceKind::Secret, true) is None
                && describes_secret(*item, secret, now),
            Err(e) => parse_failure(*item, ResourceKind::Secret, true) == Some(e),
        },
{
    let name = match required_name(item, ResourceKind::Secret) {
        Ok(n) => n,
        Err(e) => {
            return Err(e);
        },
    };
    let namespace = match required_namespace(item, ResourceKind::Secret) {
        Ok(n) => n,
        Err(e) => {
            return Err(e);
        },
    };
    let type_ = text_in_or(Some(item), "type", "Opaque");
    let data_count = member_count_in(Some(item), "data");
    let age = age_of(item, now);
    Ok(Secret { name, namespace, type_, data_count, age })
}

/// Whether `deployment` is what the JSON object `item` describes.
pub open spec fn describes_deployment(item: Json, deployment: Deployment, now: UnixTime) -> bool {
    &&& name_at(item) == Some(deployment.name)
    &&& namespace_at(item) == Some(deployment.namespace)
    &&& deployment.ready@ == ratio_text(count_at(section(item, "status"@), "readyReplicas"@) as nat, count_at(section(item, "spec"@), "replicas"@) as nat)
    &&& deployment.up_to_date == count_at(section(item, "status"@), "updatedReplicas"@)
    &&& deployment.available == count_at(section(item, "status"@), "availableReplicas"@)
    &&& deployment.age@ == age_at(created_at(item), now)
}
/// Reads a deployment from its JSON form. Fails exactly when the name or the
/// namespace is missing.
pub fn parse_deployment(item: &Json, now: UnixTime) -> (result: Result<Deployment, ParseError>)
    ensures
        match result {
            Ok(deployment) => parse_failure(*item, ResourceKind::Deployment, true) is None
                && describes_deployment(*item, deployment, now),
            Err(e) => parse_failure(*item, ResourceKind::Deployment, true) == Some(e),
        },
{
    let spec = get(Some(item), "spec");
    let status = get(Some(item), "status");
    let name = match required_name(item, ResourceKind::Deployment) {
        Ok(n) => n,
        Err(e) => {
            return Err(e);
        },
    };
    let namespace = match required_namespace(item, ResourceKind::Deployment) {
        Ok(n) => n,
        Err(e) => {
            return Err(e);
        },
    };
    let ready = ratio(count_in(status, "readyReplicas") as u64, count_in(spec, "replicas") as u64);
    let up_to_date = count_in(status, "updatedReplicas");
    let available = count_in(status, "availableReplicas");
    let age = age_of(item, now);
    Ok(Deployment { name, namespace, ready, up_to_date, available, age })
}

/// The number of the member `key` of `section`, or 0 if there is none.
pub open spec fn number_or_zero(section: Option<Json>, key: Seq<char>) -> u64 {
    match number_at(section, key) {
        Some(n) => n,
        None => 0,
    }
}

/// The number of the member `key` of `section`, or 0 if there is none.
pub fn number_in_or_zero(section: Option<&Json>, key: &str) -> (n: u64)
    ensures
        n == number_or_zero(deref_json(section), key@),
{
    match number_in(section, key) {
        Some(n) => n,
        None => 0,
    }
}

/// The status to show for the job `item`: complete once a pod succeeded,
/// else failed once a pod failed, else running while a pod is active, and
/// else pending.
pub open spec fn job_status(item: Json) -> Seq<char> {
    let status = section(item, "status"@);
    if number_or_zero(status, "succeeded"@) > 0 {
        "Complete"@
    } else if number_or_zero(status, "failed"@) > 0 {
        "Failed"@
    } else if number_or_zero(status, "active"@) > 0 {
        "Running"@
    } else {
        "Pending"@
    }
}

/// The duration to show for the job `item`: a placeholder once the job
/// has both started and completed, and nothing before.
pub open spec fn job_duration(item: Json) -> Option<Seq<char>> {
    let status = section(item, "status"@);
    if text_at(status, "startTime"@) is Some && text_at(status, "completionTime"@) is Some {
        Some("<calculated>"@)
    } else {
        None
    }
}

/// The number of completions that the job `item` asks for, cut to 32
/// bits.
pub open spec fn job_completions(item: Json) -> Option<u32> {
    match number_at(section(item, "spec"@), "completions"@) {
        Some(n) => Some(low32(n)),
        None => None,
    }
}

/// The status to show for the job `item`.
fn read_job_status(item: &Json) -> (status: String)
    ensures
        status@ == job_status(*item),
{
    let section = get(Some(item), "status");
    if number_in_or_zero(section, "succeeded") > 0 {
        String::from_str("Complete")
    } else if number_in_or_zero(section, "failed") > 0 {
        String::from_str("Failed")
    } else if number_in_or_zero(section, "active") > 0 {
        String::from_str("Running")
    } else {
        String::from_str("Pending")
    }
}

/// The duration to show for the job `item`.
fn read_job_duration(item: &Json) -> (duration: Option<String>)
    ensures
        chars_at(duration) == job_duration(*item),
{
    let section = get(Some(item), "status");
    if text_in(section, "startTime").is_some() && text_in(section, "completionTime").is_some() {
        Some(String::from_str("<calculated>"))
    } else {
        None
    }
}

/// The number of completions that the job `item` asks for.
fn read_job_completions(item: &Json) -> (completions: Option<u32>)
    ensures
        completions == job_completions(*item),
{
    match number_in(get(Some(item), "spec"), "completions") {
        Some(n) => Some((n % 0x1_0000_0000) as u32),
        None => None,
    }
}

/// Whether `job` is what the JSON object `item` describes.
pub open spec fn describes_job(item: Json, job: Job, now: UnixTime) -> bool {
    &&& name_at(item) == Some(job.name)
    &&& namespace_at(item) == Some(job.namespace)
    &&& job.completions == job_completions(item)
    &&& job.successful == count_at(section(item, "status"@), "succeeded"@)
    &&& chars_at(job.duration) == job_duration(item)
    &&& job.status@ == job_status(item)
    &&& job.age@ == age_at(created_at(item), now)
}
/// Reads a job from its JSON form. Fails exactly when the name or the
/// namespace is missing.
pub fn parse_job(item: &Json, now: UnixTime) -> (result: Result<Job, ParseError>)
    ensures
        match result {
            Ok(job) => parse_failure(*item, ResourceKind::Job, true) is None
                && describes_job(*item, job, now),
            Err(e) => parse_failure(*item, ResourceKind::Job, true) == Some(e),
        },
{
    let status = get(Some(item), "status");
    let name = match required_name(item, ResourceKind::Job) {
        Ok(n) => n,
        Err(e) => {
            return Err(e);
        },
    };
    let namespace = match required_namespace(item, ResourceKind::Job) {
        Ok(n) => n,
        Err(e) => {
            return Err(e);
        },
    };
    let completions = read_job_completions(item);
    let successful = count_in(status, "succeeded");
    let duration = read_job_duration(item);
    let status = read_job_status(item);
    let age = age_of(item, now);
    Ok(Job { name, namespace, completions, successful, age, duration, status })
}

/// Whether `daemonset` is what the JSON object `item` describes.
pub open spec fn describes_daemonset(item: Json, daemonset: DaemonSet, now: UnixTime) -> bool {
    &&& name_at(item) == Some(daemonset.name)
    &&& namespace_at(item) == Some(daemonset.namespace)
    &&& daemonset.desired == count_at(section(item, "status"@), "desiredNumberScheduled"@)
    &&& daemonset.current == count_at(section(item, "status"@), "currentNumberScheduled"@)
    &&& daemonset.ready == count_at(section(item, "status"@), "numberReady"@)
    &&& daemonset.up_to_date == count_at(section(item, "status"@), "updatedNumberScheduled"@)
    &&& daemonset.available == count_at(section(item, "status"@), "numberAvailable"@)
    &&& daemonset.age@ == age_at(created_at(item), now)
}
/// Reads a daemon set from its JSON form. Fails exactly when the name or the
/// namespace is missing.
pub fn parse_daemonset(item: &Json, now: UnixTime) -> (result: Result<DaemonSet, ParseError>)
    ensures
        match result {
            Ok(daemonset) => parse_failure(*item, ResourceKind::DaemonSet, true) is None
                && describes_daemonset(*item, daemonset, now),
            Err(e) => parse_failure(*item, ResourceKind::DaemonSet, true) == Some(e),
        },
{
    let status = get(Some(item), "status");
    let name = match required_name(item, ResourceKind::DaemonSet) {
        Ok(n) => n,
        Err(e) => {
            return Err(e);
        },
    };
    let namespace = match required_namespace(item, ResourceKind::DaemonSet) {
        Ok(n) => n,
        Err(e) => {
            return Err(e);
        },
    };
    let desired = count_in(status, "desiredNumberScheduled");
    let current = count_in(status, "currentNumberScheduled");
    let ready = count_in(status, "numberReady");
    let up_to_date = count_in(status, "updatedNumberScheduled");
    let available = count_in(status, "numberAvailable");
    let age = age_of(item, now);
    Ok(DaemonSet { name, namespace, desired, current, ready, up_to_date, available, age })
}

/// Whether `pvc` is what the JSON object `item` describes.
pub open spec fn describes_pvc(item: Json, pvc: PersistentVolumeClaim, now: UnixTime) -> bool {
    &&& name_at(item) == Some(pvc.name)
    &&& namespace_at(item) == Some(pvc.namespace)
    &&& pvc.status@ == text_or(section(item, "status"@), "phase"@, "Unknown"@)
    &&& pvc.volume == text_at(section(item, "status"@), "volumeName"@)
    &&& pvc.capacity == text_at(member(section(item, "status"@), "capacity"@), "storage"@)
    &&& pvc.access_modes@ == texts_at(section(item, "spec"@), "accessModes"@)
    &&& pvc.storage_class == text_at(section(item, "spec"@), "storageClassName"@)
    &&& pvc.age@ == age_at(created_at(item), now)
}
/// Reads a persistent volume claim from its JSON form. Fails exactly when the name or the
/// namespace is missing.
pub fn parse_pvc(item: &Json, now: UnixTime) -> (result: Result<PersistentVolumeClaim, ParseError>)
    ensures
        match result {
            Ok(pvc) => parse_failure(*item, ResourceKind::PVC, true) is None
                && describes_pvc(*item, pvc, now),
            Err(e) => parse_failure(*item, ResourceKind::PVC, true) == Some(e),
        },
{
    let spec = get(Some(item), "spec");
    let status = get(Some(item), "status");
    let name = match required_name(item, ResourceKind::PVC) {
        Ok(n) => n,
        Err(e) => {
            return Err(e);
        },
    };
    let namespace = match required_namespace(item, ResourceKind::PVC) {
        Ok(n) => n,
        Err(e) => {
            return Err(e);
        },
    };
    let volume = owned_text_in(status, "volumeName");
    let capacity = owned_text_in(get(status, "capacity"), "storage");
    let access_modes = texts_in(spec, "accessModes");
    let storage_class = owned_text_in(spec, "storageClassName");
    let status = text_in_or(status, "phase", "Unknown");
    let age = age_of(item, now);
    Ok(PersistentVolumeClaim { name, namespace, status, volume, capacity, access_modes, storage_class, age })
}

/// The claim to show for the persistent volume `item`: namespace and name
/// of the claim that it is bound to, with a slash between them.
pub open spec fn pv_claim(item: Json) -> Option<Seq<char>> {
    let claim = member(section(item, "spec"@), "claimRef"@);
    if members_of(claim) is Some {
        Some(text_or(claim, "namespace"@, ""@) + "/"@ + text_or(claim, "name"@, ""@))
    } else {
        None
    }
}

/// The claim to show for the persistent volume `item`.
fn read_pv_claim(item: &Json) -> (claim: Option<String>)
    ensures
        chars_at(claim) == pv_claim(*item),
{
    let reference = get(get(Some(item), "spec"), "claimRef");
    if as_object(reference).is_some() {
        let mut text = text_in_or(reference, "namespace", "");
        text.append("/");
        let name = text_in_or(reference, "name", "");
        text.append(name.as_str());
        Some(text)
    } else {
        None
    }
}

/// Whether `pv` is what the JSON object `item` describes.
pub open spec fn describes_pv(item: Json, pv: PersistentVolume, now: UnixTime) -> bool {
    &&& name_at(item) == Some(pv.name)
    &&& pv.capacity@ == text_or(member(section(item, "spec"@), "capacity"@), "storage"@, "Unknown"@)
    &&& pv.access_modes@ == texts_at(section(item, "spec"@), "accessModes"@)
    &&& pv.reclaim_policy@ == text_or(section(item, "spec"@), "persistentVolumeReclaimPolicy"@, "Retain"@)
    &&& pv.status@ == text_or(section(item, "status"@), "phase"@, "Unknown"@)
    &&& chars_at(pv.claim) == pv_claim(item)
    &&& pv.storage_class == text_at(section(item, "spec"@), "storageClassName"@)
    &&& pv.age@ == age_at(created_at(item), now)
}
/// Reads a persistent volume from its JSON form. Fails exactly when the name is
/// missing.
pub fn parse_pv(item: &Json, now: UnixTime) -> (result: Result<PersistentVolume, ParseError>)
    ensures
        match result {
            Ok(pv) => parse_failure(*item, ResourceKind::PV, false) is None
                && describes_pv(*item, pv, now),
            Err(e) => parse_failure(*item, ResourceKind::PV, false) == Some(e),
        },
{
    let spec = get(Some(item), "spec");
    let status = get(Some(item), "status");
    let name = match required_name(item, ResourceKind::PV) {
        Ok(n) => n,
        Err(e) => {
            return Err(e);
        },
    };
    let capacity = text_in_or(get(spec, "capacity"), "storage", "Unknown");
    let access_modes = texts_in(spec, "accessModes");
    let reclaim_policy = text_in_or(spec, "persistentVolumeReclaimPolicy", "Retain");
    let status = text_in_or(status, "phase", "Unknown");
    let claim = read_pv_claim(item);
    let storage_class = owned_text_in(spec, "storageClassName");
    let age = age_of(item, now);
    Ok(PersistentVolume { name, capacity, access_modes, reclaim_policy, status, claim, storage_class, age })
}

/// Whether `statefulset` is what the JSON object `item` describes.
pub open spec fn describes_statefulset(item: Json, statefulset: StatefulSet, now: UnixTime) -> bool {
    &&& statefulset.name@ == text_or(section(item, "metadata"@), "name"@, "Unknown"@)
    &&& statefulset.namespace@ == text_or(section(item, "metadata"@), "namespace"@, "default"@)
    &&& statefulset.ready@ == ratio_text(number_or_zero(section(item, "status"@), "readyReplicas"@) as nat, number_or_zero(section(item, "status"@), "replicas"@) as nat)
    &&& statefulset.age@ == age_at(created_at(item), now)
}
/// Reads a stateful set from its JSON form. A missing name is shown as
/// "Unknown", a missing namespace as "default"; reading never fails.
pub fn parse_statefulset(item: &Json, now: UnixTime) -> (result: Result<StatefulSet, ParseError>)
    ensures
        result is Ok,
        describes_statefulset(*item, result->Ok_0, now),
{
    let status = get(Some(item), "status");
    let metadata = get(Some(item), "metadata");
    let name = text_in_or(metadata, "name", "Unknown");
    let namespace = text_in_or(metadata, "namespace", "default");
    let ready = ratio(number_in_or_zero(status, "readyReplicas"), number_in_or_zero(status, "replicas"));
    let age = age_of(item, now);
    Ok(StatefulSet { name, namespace, ready, age })
}

/// Whether `ingress` is what the JSON object `item` describes.
pub open spec fn describes_ingress(item: Json, ingress: Ingress, now: UnixTime) -> bool {
    &&& ingress.name@ == text_or(section(item, "metadata"@), "name"@, "Unknown"@)
    &&& ingress.namespace@ == text_or(section(item, "metadata"@), "namespace"@, "default"@)
    &&& ingress.hosts@ == member_texts_among(elements_at(section(item, "spec"@), "rules"@), "host"@, elements_at(section(item, "spec"@), "rules"@).len())
    &&& ingress.age@ == age_at(created_at(item), now)
}
/// Reads an ingress from its JSON form. A missing name is shown as
/// "Unknown", a missing namespace as "default"; reading never fails.
pub fn parse_ingress(item: &Json, now: UnixTime) -> (result: Result<Ingress, ParseError>)
    ensures
        result is Ok,
        describes_ingress(*item, result->Ok_0, now),
{
    let spec = get(Some(item), "spec");
    let metadata = get(Some(item), "metadata");
    let name = text_in_or(metadata, "name", "Unknown");
    let namespace = text_in_or(metadata, "namespace", "default");
    let hosts = member_texts_in(spec, "rules", "host");
    let age = age_of(item, now);
    Ok(Ingress { name, namespace, hosts, age })
}

/// Whether `network_policy` is what the JSON object `item` describes.
pub open spec fn describes_network_policy(item: Json, network_policy: NetworkPolicy, now: UnixTime) -> bool {
    &&& network_policy.name@ == text_or(section(item, "metadata"@), "name"@, "Unknown"@)
    &&& network_policy.namespace@ == text_or(section(item, "metadata"@), "namespace"@, "default"@)
    &&& network_policy.age@ == age_at(created_at(item), now)
}
/// Reads a network policy from its JSON form. A missing name is shown as
/// "Unknown", a missing namespace as "default"; reading never fails.
pub fn parse_network_policy(item: &Json, now: UnixTime) -> (result: Result<NetworkPolicy, ParseError>)
    ensures
        result is Ok,
        describes_network_policy(*item, result->Ok_0, now),
{
    let metadata = get(Some(item), "metadata");
    let name = text_in_or(metadata, "name", "Unknown");
    let namespace = text_in_or(metadata, "namespace", "default");
    let age = age_of(item, now);
    Ok(NetworkPolicy { name, namespace, age })
}

/// Whether `role` is what the JSON object `item` describes.
pub open spec fn describes_role(item: Json, role: Role, now: UnixTime) -> bool {
    &&& role.name@ == text_or(section(item, "metadata"@), "name"@, "Unknown"@)
    &&& role.namespace@ == text_or(section(item, "metadata"@), "namespace"@, "default"@)
    &&& role.age@ == age_at(created_at(item), now)
}
/// Reads a role from its JSON form. A missing name is shown as
/// "Unknown", a missing namespace as "default"; reading never fails.
pub fn parse_role(item: &Json, now: UnixTime) -> (result: Result<Role, ParseError>)
    ensures
        result is Ok,
        describes_role(*item, result->Ok_0, now),
{
    let metadata = get(Some(item), "metadata");
    let name = text_in_or(metadata, "name", "Unknown");
    let namespace = text_in_or(metadata, "namespace", "default");
    let age = age_of(item, now);
    Ok(Role { name, namespace, age })
}

/// Whether `role_binding` is what the JSON object `item` describes.
pub open spec fn describes_role_binding(item: Json, role_binding: RoleBinding, now: UnixTime) -> bool {
    &&& role_binding.name@ == text_or(section(item, "metadata"@), "name"@, "Unknown"@)
    &&& role_binding.namespace@ == text_or(section(item, "metadata"@), "namespace"@, "default"@)
    &&& role_binding.age@ == age_at(created_at(item), now)
}
/// Reads a role binding from its JSON form. A missing name is shown as
/// "Unknown", a missing namespace as "default"; reading never fails.
pub fn parse_role_binding(item: &Json, now: UnixTime) -> (result: Result<RoleBinding, ParseError>)
    ensures
        result is Ok,
        describes_role_binding(*item, result->Ok_0, now),
{
    let metadata = get(Some(item), "metadata");
    let name = text_in_or(metadata, "name", "Unknown");
    let namespace = text_in_or(metadata, "namespace", "default");
    let age = age_of(item, now);
    Ok(RoleBinding { name, namespace, age })
}

/// Whether `service_account` is what the JSON object `item` describes.
pub open spec fn describes_service_account(item: Json, service_account: ServiceAccount, now: UnixTime) -> bool {
    &&& service_account.name@ == text_or(section(item, "metadata"@), "name"@, "Unknown"@)
    &&& service_account.namespace@ == text_or(section(item, "metadata"@), "namespace"@, "default"@)
    &&& service_account.age@ == age_at(created_at(item), now)
}
/// Reads a service account from its JSON form. A missing name is shown as
/// "Unknown", a missing namespace as "default"; reading never fails.
pub fn parse_service_account(item: &Json, now: UnixTime) -> (result: Result<ServiceAccount, ParseError>)
    ensures
        result is Ok,
        describes_service_account(*item, result->Ok_0, now),
{
    let metadata = get(Some(item), "metadata");
    let name = text_in_or(metadata, "name", "Unknown");
    let namespace = text_in_or(metadata, "namespace", "default");
    let age = age_of(item, now);
    Ok(ServiceAccount { name, namespace, age })
}

/// Whether `cluster_role` is what the JSON object `item` describes.
pub open spec fn describes_cluster_role(item: Json, cluster_role: ClusterRole, now: UnixTime) -> bool {
    &&& cluster_role.name@ == text_or(section(item, "metadata"@), "name"@, "Unknown"@)
    &&& cluster_role.age@ == age_at(created_at(item), now)
}
/// Reads a cluster role from its JSON form. A missing name is shown as
/// "Unknown"; reading never fails.
pub fn parse_cluster_role(item: &Json, now: UnixTime) -> (result: Result<ClusterRole, ParseError>)
    ensures
        result is Ok,
        describes_cluster_role(*item, result->Ok_0, now),
{
    let metadata = get(Some(item), "metadata");
    let name = text_in_or(metadata, "name", "Unknown");
    let age = age_of(item, now);
    Ok(ClusterRole { name, age })
}

/// Whether `cluster_role_binding` is what the JSON object `item` describes.
pub open spec fn describes_cluster_role_binding(item: Json, cluster_role_binding: ClusterRoleBinding, now: UnixTime) -> bool {
    &&& cluster_role_binding.name@ == text_or(section(item, "metadata"@), "name"@, "Unknown"@)
    &&& cluster_role_binding.age@ == age_at(created_at(item), now)
}
/// Reads a cluster role binding from its JSON form. A missing name is shown as
/// "Unknown"; reading never fails.
pub fn parse_cluster_role_binding(item: &Json, now: UnixTime) -> (result: Result<ClusterRoleBinding, ParseError>)
    ensures
        result is Ok,
        describes_cluster_role_binding(*item, result->Ok_0, now),
{
    let metadata = get(Some(item), "metadata");
    let name = text_in_or(metadata, "name", "Unknown");
    let age = age_of(item, now);
    Ok(ClusterRoleBinding { name, age })
}

impl KubectlClient {
    /// Reads the services from the output of the tool. Items that cannot be
    /// read as services are left out.
    pub fn get_services(&self, output: &str, now: UnixTime) -> (result: Result<Vec<Service>, ClientError>)
        ensures
            match result {
                Ok(found) => listed_items(output@) is Some && is_selection(
                    listed_items(output@).unwrap(),
                    found@,
                    |item: Json| parse_failure(item, ResourceKind::Service, true) is None,
                    |item: Json, read: Service| describes_service(item, read, now),
                ),
                Err(ClientError::InvalidJson(_)) => parsed_json(output@) is None,
                Err(ClientError::MissingItems) => parsed_json(output@) is Some && listed_items(
                    output@,
                ) is None,
            },
    {
        let document = match parse_items(output) {
            Ok(document) => document,
            Err(e) => {
                return Err(e);
            },
        };
        match as_array(get(Some(&document), "items")) {
            Some(items) => Ok(
                collect_dated(
                    items,
                    now,
                    parse_service,
                    Ghost(|item: Json| parse_failure(item, ResourceKind::Service, true) is None),
                    Ghost(|item: Json, read: Service| describes_service(item, read, now)),
                ),
            ),
            None => Err(ClientError::MissingItems),
        }
    }

    /// Reads the nodes from the output of the tool. Items that cannot be
    /// read as nodes are left out.
    pub fn get_nodes(&self, output: &str, now: UnixTime) -> (result: Result<Vec<Node>, ClientError>)
        ensures
            match result {
                Ok(found) => listed_items(output@) is Some && is_selection(
                    listed_items(output@).unwrap(),
                    found@,
                    |item: Json| parse_failure(item, ResourceKind::Node, false) is None,
                    |item: Json, read: Node| describes_node(item, read, now),
                ),
                Err(ClientError::InvalidJson(_)) => parsed_json(output@) is None,
                Err(ClientError::MissingItems) => parsed_json(output@) is Some && listed_items(
                    output@,
                ) is None,
            },
    {
        let document = match parse_items(output) {
            Ok(document) => document,
            Err(e) => {
                return Err(e);
            },
        };
        match as_array(get(Some(&document), "items")) {
            Some(items) => Ok(
                collect_dated(
                    items,
                    now,
                    parse_node,
                    Ghost(|item: Json| parse_failure(item, ResourceKind::Node, false) is None),
                    Ghost(|item: Json, read: Node| describes_node(item, read, now)),
                ),
            ),
            None => Err(ClientError::MissingItems),
        }
    }

    /// Reads the config maps from the output of the tool. Items that cannot be
    /// read as config maps are left out.
    pub fn get_configmaps(&self, output: &str, now: UnixTime) -> (result: Result<Vec<ConfigMap>, ClientError>)
        ensures
            match result {
                Ok(found) => listed_items(output@) is Some && is_selection(
                    listed_items(output@).unwrap(),
                    found@,
                    |item: Json| parse_failure(item, ResourceKind::ConfigMap, true) is None,
                    |item: Json, read: ConfigMap| describes_configmap(item, read, now),
                ),
                Err(ClientError::InvalidJson(_)) => parsed_json(output@) is None,
                Err(ClientError::MissingItems) => parsed_json(output@) is Some && listed_items(
                    output@,
                ) is None,
            },
    {
        let document = match parse_items(output) {
            Ok(document) => document,
            Err(e) => {
                return Err(e);
            },
        };
        match as_array(get(Some(&document), "items")) {
            Some(items) => Ok(
                collect_dated(
                    items,
                    now,
                    parse_configmap,
                    Ghost(|item: Json| parse_failure(item, ResourceKind::ConfigMap, true) is None),
                    Ghost(|item: Json, read: ConfigMap| describes_configmap(item, read, now)),
                ),
            ),
            None => Err(ClientError::MissingItems),
        }
    }

    /// Reads the secrets from the output of the tool. Items that cannot be
    /// read as secrets are left out.
    pub fn get_secrets(&self, output: &str, now: UnixTime) -> (result: Result<Vec<Secret>, ClientError>)
        ensures
            match result {
                Ok(found) => listed_items(output@) is Some && is_selection(
                    listed_items(output@).unwrap(),
                    found@,
                    |item: Json| parse_failure(item, ResourceKind::Secret, true) is None,
                    |item: Json, read: Secret| describes_secret(item, read, now),
                ),
                Err(ClientError::InvalidJson(_)) => parsed_json(output@) is None,
                Err(ClientError::MissingItems) => parsed_json(output@) is Some && listed_items(
                    output@,
                ) is None,
            },
    {
        let document = match parse_items(output) {
            Ok(document) => document,
            Err(e) => {
                return Err(e);
            },
        };
        match as_array(get(Some(&document), "items")) {
            Some(items) => Ok(
                collect_dated(
                    items,
                    now,
                    parse_secret,
                    Ghost(|item: Json| parse_failure(item, ResourceKind::Secret, true) is None),
                    Ghost(|item: Json, read: Secret| describes_secret(item, read, now)),
                ),
            ),
            None => Err(ClientError::MissingItems),
        }
    }

    /// Reads the deployments from the output of the tool. Items that cannot be
    /// read as deployments are left out.
    pub fn get_deployments(&self, output: &str, now: UnixTime) -> (result: Result<Vec<Deployment>, ClientError>)
        ensures
            match result {
                Ok(found) => listed_items(output@) is Some && is_selection(
                    listed_items(output@).unwrap(),
                    found@,
                    |item: Json| parse_failure(item, ResourceKind::Deployment, true) is None,
                    |item: Json, read: Deployment| describes_deployment(item, read, now),
                ),
                Err(ClientError::InvalidJson(_)) => parsed_json(output@) is None,
                Err(ClientError::MissingItems) => parsed_json(output@) is Some && listed_items(
                    output@,
                ) is None,
            },
    {
        let document = match parse_items(output) {
            Ok(document) => document,
            Err(e) => {
                return Err(e);
            },
        };
        match as_array(get(Some(&document), "items")) {
            Some(items) => Ok(
                collect_dated(
                    items,
                    now,
                    parse_deployment,
                    Ghost(|item: Json| parse_failure(item, ResourceKind::Deployment, true) is None),
                    Ghost(|item: Json, read: Deployment| describes_deployment(item, read, now)),
                ),
            ),
            None => Err(ClientError::MissingItems),
        }
    }

    /// Reads the jobs from the output of the tool. Items that cannot be
    /// read as jobs are left out.
    pub fn get_jobs(&self, output: &str, now: UnixTime) -> (result: Result<Vec<Job>, ClientError>)
        ensures
            match result {
                Ok(found) => listed_items(output@) is Some && is_selection(
                    listed_items(output@).unwrap(),
                    found@,
                    |item: Json| parse_failure(item, ResourceKind::Job, true) is None,
                    |item: Json, read: Job| describes_job(item, read, now),
                ),
                Err(ClientError::InvalidJson(_)) => parsed_json(output@) is None,
                Err(ClientError::MissingItems) => parsed_json(output@) is Some && listed_items(
                    output@,
                ) is None,
            },
    {
        let document = match parse_items(output) {
            Ok(document) => document,
            Err(e) => {
                return Err(e);
            },
        };
        match as_array(get(Some(&document), "items")) {
            Some(items) => Ok(
                collect_dated(
                    items,
                    now,
                    parse_job,
                    Ghost(|item: Json| parse_failure(item, ResourceKind::Job, true) is None),
                    Ghost(|item: Json, read: Job| describes_job(item, read, now)),
                ),
            ),
            None => Err(ClientError::MissingItems),
        }
    }

    /// Reads the daemon sets from the output of the tool. Items that cannot be
    /// read as daemon sets are left out.
    pub fn get_daemonsets(&self, output: &str, now: UnixTime) -> (result: Result<Vec<DaemonSet>, ClientError>)
        ensures
            match result {
                Ok(found) => listed_items(output@) is Some && is_selection(
                    listed_items(output@).unwrap(),
                    found@,
                    |item: Json| parse_failure(item, ResourceKind::DaemonSet, true) is None,
                    |item: Json, read: DaemonSet| describes_daemonset(item, read, now),
                ),
                Err(ClientError::InvalidJson(_)) => parsed_json(output@) is None,
                Err(ClientError::MissingItems) => parsed_json(output@) is Some && listed_items(
                    output@,
                ) is None,
            },
    {
        let document = match parse_items(output) {
            Ok(document) => document,
            Err(e) => {
                return Err(e);
            },
        };
        match as_array(get(Some(&document), "items")) {
            Some(items) => Ok(
                collect_dated(
                    items,
                    now,
                    parse_daemonset,
                    Ghost(|item: Json| parse_failure(item, ResourceKind::DaemonSet, true) is None),
                    Ghost(|item: Json, read: DaemonSet| describes_daemonset(item, read, now)),
                ),
            ),
            None => Err(ClientError::MissingItems),
        }
    }

    /// Reads the persistent volume claims from the output of the tool. Items that cannot be
    /// read as persistent volume claims are left out.
    pub fn get_pvcs(&self, output: &str, now: UnixTime) -> (result: Result<Vec<PersistentVolumeClaim>, ClientError>)
        ensures
            match result {
                Ok(found) => listed_items(output@) is Some && is_selection(
                    listed_items(output@).unwrap(),
                    found@,
                    |item: Json| parse_failure(item, ResourceKind::PVC, true) is None,
                    |item: Json, read: PersistentVolumeClaim| describes_pvc(item, read, now),
                ),
                Err(ClientError::InvalidJson(_)) => parsed_json(output@) is None,
                Err(ClientError::MissingItems) => parsed_json(output@) is Some && listed_items(
                    output@,
                ) is None,
            },
    {
        let document = match parse_items(output) {
            Ok(document) => document,
            Err(e) => {
                return Err(e);
            },
        };
        match as_array(get(Some(&document), "items")) {
            Some(items) => Ok(
                collect_dated(
                    items,
                    now,
                    parse_pvc,
                    Ghost(|item: Json| parse_failure(item, ResourceKind::PVC, true) is None),
                    Ghost(|item: Json, read: PersistentVolumeClaim| describes_pvc(item, read, now)),
                ),
            ),
            None => Err(ClientError::MissingItems),
        }
    }

    /// Reads the persistent volumes from the output of the tool. Items that cannot be
    /// read as persistent volumes are left out.
    pub fn get_pvs(&self, output: &str, now: UnixTime) -> (result: Result<Vec<PersistentVolume>, ClientError>)
        ensures
            match result {
                Ok(found) => listed_items(output@) is Some && is_selection(
                    listed_items(output@).unwrap(),
                    found@,
                    |item: Json| parse_failure(item, ResourceKind::PV, false) is None,
                    |item: Json, read: PersistentVolume| describes_pv(item, read, now),
                ),
                Err(ClientError::InvalidJson(_)) => parsed_json(output@) is None,
                Err(ClientError::MissingItems) => parsed_json(output@) is Some && listed_items(
                    output@,
                ) is None,
            },
    {
        let document = match parse_items(output) {
            Ok(document) => document,
            Err(e) => {
                return Err(e);
            },
        };
        match as_array(get(Some(&document), "items")) {
            Some(items) => Ok(
                collect_dated(
                    items,
                    now,
                    parse_pv,
                    Ghost(|item: Json| parse_failure(item, ResourceKind::PV, false) is None),
                    Ghost(|item: Json, read: PersistentVolume| describes_pv(item, read, now)),
                ),
            ),
            None => Err(ClientError::MissingItems),
        }
    }

    /// Reads the stateful sets from the output of the tool. Every item is read.
    pub fn get_statefulsets(&self, output: &str, now: UnixTime) -> (result: Result<Vec<StatefulSet>, ClientError>)
        ensures
            match result {
                Ok(found) => listed_items(output@) is Some && is_selection(
                    listed_items(output@).unwrap(),
                    found@,
                    |item: Json| true,
                    |item: Json, read: StatefulSet| describes_statefulset(item, read, now),
                ),
                Err(ClientError::InvalidJson(_)) => parsed_json(output@) is None,
                Err(ClientError::MissingItems) => parsed_json(output@) is Some && listed_items(
                    output@,
                ) is None,
            },
    {
        let document = match parse_items(output) {
            Ok(document) => document,
            Err(e) => {
                return Err(e);
            },
        };
        match as_array(get(Some(&document), "items")) {
            Some(items) => Ok(
                collect_dated(
                    items,
                    now,
                    parse_statefulset,
                    Ghost(|item: Json| true),
                    Ghost(|item: Json, read: StatefulSet| describes_statefulset(item, read, now)),
                ),
            ),
            None => Err(ClientError::MissingItems),
        }
    }

    /// Reads the ingresses from the output of the tool. Every item is read.
    pub fn get_ingresses(&self, output: &str, now: UnixTime) -> (result: Result<Vec<Ingress>, ClientError>)
        ensures
            match result {
                Ok(found) => listed_items(output@) is Some && is_selection(
                    listed_items(output@).unwrap(),
                    found@,
                    |item: Json| true,
                    |item: Json, read: Ingress| describes_ingress(item, read, now),
                ),
                Err(ClientError::InvalidJson(_)) => parsed_json(output@) is None,
                Err(ClientError::MissingItems) => parsed_json(output@) is Some && listed_items(
                    output@,
                ) is None,
            },
    {
        let document = match parse_items(output) {
            Ok(document) => document,
            Err(e) => {
                return Err(e);
            },
        };
        match as_array(get(Some(&document), "items")) {
            Some(items) => Ok(
                collect_dated(
                    items,
                    now,
                    parse_ingress,
                    Ghost(|item: Json| true),
                    Ghost(|item: Json, read: Ingress| describes_ingress(item, read, now)),
                ),
            ),
            None => Err(ClientError::MissingItems),
        }
    }

    /// Reads the network policies from the output of the tool. Every item is read.
    pub fn get_network_policies(&self, output: &str, now: UnixTime) -> (result: Result<Vec<NetworkPolicy>, ClientError>)
        ensures
            match result {
                Ok(found) => listed_items(output@) is Some && is_selection(
                    listed_items(output@).unwrap(),
                    found@,
                    |item: Json| true,
                    |item: Json, read: NetworkPolicy| describes_network_policy(item, read, now),
                ),
                Err(ClientError::InvalidJson(_)) => parsed_json(output@) is None,
                Err(ClientError::MissingItems) => parsed_json(output@) is Some && listed_items(
                    output@,
                ) is None,
            },
    {
        let document = match parse_items(output) {
            Ok(document) => document,
            Err(e) => {
                return Err(e);
            },
        };
        match as_array(get(Some(&document), "items")) {
            Some(items) => Ok(
                collect_dated(
                    items,
                    now,
                    parse_network_policy,
                    Ghost(|item: Json| true),
                    Ghost(|item: Json, read: NetworkPolicy| describes_network_policy(item, read, now)),
                ),
            ),
            None => Err(ClientError::MissingItems),
        }
    }

    /// Reads the roles from the output of the tool. Every item is read.
    pub fn get_roles(&self, output: &str, now: UnixTime) -> (result: Result<Vec<Role>, ClientError>)
        ensures
            match result {
                Ok(found) => listed_items(output@) is Some && is_selection(
                    listed_items(output@).unwrap(),
                    found@,
                    |item: Json| true,
                    |item: Json, read: Role| describes_role(item, read, now),
                ),
                Err(ClientError::InvalidJson(_)) => parsed_json(output@) is None,
                Err(ClientError::MissingItems) => parsed_json(output@) is Some && listed_items(
                    output@,
                ) is None,
            },
    {
        let document = match parse_items(output) {
            Ok(document) => document,
            Err(e) => {
                return Err(e);
            },
        };
        match as_array(get(Some(&document), "items")) {
            Some(items) => Ok(
                collect_dated(
                    items,
                    now,
                    parse_role,
                    Ghost(|item: Json| true),
                    Ghost(|item: Json, read: Role| describes_role(item, read, now)),
                ),
            ),
            None => Err(ClientError::MissingItems),
        }
    }

    /// Reads the role bindings from the output of the tool. Every item is read.
    pub fn get_role_bindings(&self, output: &str, now: UnixTime) -> (result: Result<Vec<RoleBinding>, ClientError>)
        ensures
            match result {
                Ok(found) => listed_items(output@) is Some && is_selection(
                    listed_items(output@).unwrap(),
                    found@,
                    |item: Json| true,
                    |item: Json, read: RoleBinding| describes_role_binding(item, read, now),
                ),
                Err(ClientError::InvalidJson(_)) => parsed_json(output@) is None,
                Err(ClientError::MissingItems) => parsed_json(output@) is Some && listed_items(
                    output@,
                ) is None,
            },
    {
        let document = match parse_items(output) {
            Ok(document) => document,
            Err(e) => {
                return Err(e);
            },
        };
        match as_array(get(Some(&document), "items")) {
            Some(items) => Ok(
                collect_dated(
                    items,
                    now,
                    parse_role_binding,
                    Ghost(|item: Json| true),
                    Ghost(|item: Json, read: RoleBinding| describes_role_binding(item, read, now)),
                ),
            ),
            None => Err(ClientError::MissingItems),
        }
    }

    /// Reads the cluster roles from the output of the tool. Every item is read.
    pub fn get_cluster_roles(&self, output: &str, now: UnixTime) -> (result: Result<Vec<ClusterRole>, ClientError>)
        ensures
            match result {
                Ok(found) => listed_items(output@) is Some && is_selection(
                    listed_items(output@).unwrap(),
                    found@,
                    |item: Json| true,
                    |item: Json, read: ClusterRole| describes_cluster_role(item, read, now),
                ),
                Err(ClientError::InvalidJson(_)) => parsed_json(output@) is None,
                Err(ClientError::MissingItems) => parsed_json(output@) is Some && listed_items(
                    output@,
                ) is None,
            },
    {
        let document = match parse_items(output) {
            Ok(document) => document,
            Err(e) => {
                return Err(e);
            },
        };
        match as_array(get(Some(&document), "items")) {
            Some(items) => Ok(
                collect_dated(
                    items,
                    now,
                    parse_cluster_role,
                    Ghost(|item: Json| true),
                    Ghost(|item: Json, read: ClusterRole| describes_cluster_role(item, read, now)),
                ),
            ),
            None => Err(ClientError::MissingItems),
        }
    }

    /// Reads the cluster role bindings from the output of the tool. Every item is read.
    pub fn get_cluster_role_bindings(&self, output: &str, now: UnixTime) -> (result: Result<Vec<ClusterRoleBinding>, ClientError>)
        ensures
            match result {
                Ok(found) => listed_items(output@) is Some && is_selection(
                    listed_items(output@).unwrap(),
                    found@,
                    |item: Json| true,
                    |item: Json, read: ClusterRoleBinding| describes_cluster_role_binding(item, read, now),
                ),
                Err(ClientError::InvalidJson(_)) => parsed_json(output@) is None,
                Err(ClientError::MissingItems) => parsed_json(output@) is Some && listed_items(
                    output@,
                ) is None,
            },
    {
        let document = match parse_items(output) {
            Ok(document) => document,
            Err(e) => {
                return Err(e);
            },
        };
        match as_array(get(Some(&document), "items")) {
            Some(items) => Ok(
                collect_dated(
                    items,
                    now,
                    parse_cluster_role_binding,
                    Ghost(|item: Json| true),
                    Ghost(|item: Json, read: ClusterRoleBinding| describes_cluster_role_binding(item, read, now)),
                ),
            ),
            None => Err(ClientError::MissingItems),
        }
    }

    /// Reads the service accounts from the output of the tool. Every item is read.
    pub fn get_service_accounts(&self, output: &str, now: UnixTime) -> (result: Result<Vec<ServiceAccount>, ClientError>)
        ensures
            match result {
                Ok(found) => listed_items(output@) is Some && is_selection(
                    listed_items(output@).unwrap(),
                    found@,
                    |item: Json| true,
                    |item: Json, read: ServiceAccount| describes_service_account(item, read, now),
                ),
                Err(ClientError::InvalidJson(_)) => parsed_json(output@) is None,
                Err(ClientError::MissingItems) => parsed_json(output@) is Some && listed_items(
                    output@,
                ) is None,
            },
    {
        let document = match parse_items(output) {
            Ok(document) => document,
            Err(e) => {
                return Err(e);
            },
        };
        match as_array(get(Some(&document), "items")) {
            Some(items) => Ok(
                collect_dated(
                    items,
                    now,
                    parse_service_account,
                    Ghost(|item: Json| true),
                    Ghost(|item: Json, read: ServiceAccount| describes_service_account(item, read, now)),
                ),
            ),
            None => Err(ClientError::MissingItems),
        }
    }
}

/// Whether `namespace` is what the line `line` of the list of namespaces
/// names: the line without the prefix that the tool puts before a name,
/// shown as active and of unknown age.
pub open spec fn names_namespace(line: Seq<char>, namespace: Namespace) -> bool {
    &&& namespace.name@ == without_all(line, "namespace/"@, 0)
    &&& namespace.status@ == "Active"@
    &&& namespace.age@ == "Unknown"@
}

/// Whether `metrics` is what the line `line` of the resource usage of the
/// pods of `namespace` says: pod, processor time and memory are its first
/// three words; the containers are not listed on it.
pub open spec fn describes_pod_metrics(line: Seq<char>, namespace: Seq<char>, metrics: ResourceMetrics)
    -> bool {
    &&& words_of(line).len() >= 3
    &&& metrics.name@ == words_of(line)[0]
    &&& metrics.namespace@ == namespace
    &&& metrics.cpu@ == words_of(line)[1]
    &&& metrics.memory@ == words_of(line)[2]
    &&& metrics.containers@.len() == 0
}

/// Whether `metrics` is what the line `line` of the resource usage of the
/// containers of a pod says: after the pod, which is its first word,
/// container, processor time and memory are the next three.
pub open spec fn describes_container_metrics(line: Seq<char>, metrics: ContainerMetrics) -> bool {
    &&& words_of(line).len() >= 4
    &&& metrics.name@ == words_of(line)[1]
    &&& metrics.cpu@ == words_of(line)[2]
    &&& metrics.memory@ == words_of(line)[3]
}

/// Why a line of resource usage could not be read.
#[derive(Debug, Clone, Copy, PartialEq, Eq, Structural)]
pub enum MetricsError {
    /// A line about a pod with fewer than three words.
    InvalidLine,
    /// A line about a container with fewer than four words.
    InvalidContainerLine,
}

impl MetricsError {
    /// The message of the error.
    pub fn message(&self) -> (text: &'static str)
        ensures
            text@ == match *self {
                MetricsError::InvalidLine => "Invalid metrics line format"@,
                MetricsError::InvalidContainerLine => "Invalid container metrics line format"@,
            },
    {
        match self {
            MetricsError::InvalidLine => "Invalid metrics line format",
            MetricsError::InvalidContainerLine => "Invalid container metrics line format",
        }
    }
}

/// Why no manifest can be asked for.
#[derive(Debug)]
pub enum YamlError {
    /// The kind lives in namespaces and none was given.
    NamespaceRequired { kind: ResourceKind },
    /// The resource type is not one that manifests are shown for.
    Unsupported { resource_type: String },
}

/// The kind that the word `resource_type` stands for, among the kinds that
/// manifests are shown for.
pub open spec fn yaml_kind(resource_type: Seq<char>) -> Option<ResourceKind> {
    if resource_type == "pod"@ {
        Some(ResourceKind::Pod)
    } else if resource_type == "service"@ {
        Some(ResourceKind::Service)
    } else if resource_type == "deployment"@ {
        Some(ResourceKind::Deployment)
    } else if resource_type == "job"@ {
        Some(ResourceKind::Job)
    } else if resource_type == "daemonset"@ {
        Some(ResourceKind::DaemonSet)
    } else if resource_type == "node"@ {
        Some(ResourceKind::Node)
    } else if resource_type == "configmap"@ {
        Some(ResourceKind::ConfigMap)
    } else if resource_type == "secret"@ {
        Some(ResourceKind::Secret)
    } else if resource_type == "pvc"@ {
        Some(ResourceKind::PVC)
    } else if resource_type == "pv"@ {
        Some(ResourceKind::PV)
    } else {
        None
    }
}

/// The kind that the word `resource_type` stands for, among the kinds that
/// manifests are shown for.
pub fn kind_of_resource_type(resource_type: &str) -> (kind: Option<ResourceKind>)
    ensures
        kind == yaml_kind(resource_type@),
{
    if same_text(resource_type, "pod") {
        Some(ResourceKind::Pod)
    } else if same_text(resource_type, "service") {
        Some(ResourceKind::Service)
    } else if same_text(resource_type, "deployment") {
        Some(ResourceKind::Deployment)
    } else if same_text(resource_type, "job") {
        Some(ResourceKind::Job)
    } else if same_text(resource_type, "daemonset") {
        Some(ResourceKind::DaemonSet)
    } else if same_text(resource_type, "node") {
        Some(ResourceKind::Node)
    } else if same_text(resource_type, "configmap") {
        Some(ResourceKind::ConfigMap)
    } else if same_text(resource_type, "secret") {
        Some(ResourceKind::Secret)
    } else if same_text(resource_type, "pvc") {
        Some(ResourceKind::PVC)
    } else if same_text(resource_type, "pv") {
        Some(ResourceKind::PV)
    } else {
        None
    }
}

/// Reads one line of the list of namespaces.
fn read_namespace(line: &String) -> (result: Result<Namespace, ()>)
    ensures
        result is Ok,
        names_namespace(line@, result->Ok_0),
{
    Ok(
        Namespace {
            name: remove_all(line.as_str(), "namespace/"),
            status: String::from_str("Active"),
            age: String::from_str("Unknown"),
        },
    )
}

/// Reads the resource usage of one container from a line of the tool.
/// Fails exactly when the line has fewer than four words.
pub fn parse_container_metrics_line(line: &String) -> (result: Result<
    ContainerMetrics,
    MetricsError,
>)
    ensures
        match result {
            Ok(metrics) => describes_container_metrics(line@, metrics),
            Err(e) => words_of(line@).len() < 4 && e == MetricsError::InvalidContainerLine,
        },
{
    let parts = split_words(line.as_str());
    if parts.len() < 4 {
        return Err(MetricsError::InvalidContainerLine);
    }
    assert(texts(parts@)[1] == parts@[1]@);
    assert(texts(parts@)[2] == parts@[2]@);
    assert(texts(parts@)[3] == parts@[3]@);
    Ok(
        ContainerMetrics {
            name: parts[1].clone(),
            cpu: parts[2].clone(),
            memory: parts[3].clone(),
        },
    )
}

impl KubectlClient {
    /// Reads the namespaces from the output of the tool: one per line.
    pub fn get_namespaces(&self, output: &str) -> (namespaces: Vec<Namespace>)
        ensures
            namespaces@.len() == lines_of(output@).len(),
            forall|i: int|
                0 <= i < namespaces@.len() ==> names_namespace(
                    lines_of(output@)[i],
                    #[trigger] namespaces@[i],
                ),
    {
        let lines = split_lines(output);
        let mut namespaces: Vec<Namespace> = Vec::new();
        let mut i: usize = 0;
        while i < lines.len()
            invariant
                i <= lines.len(),
                texts(lines@) == lines_of(output@),
                namespaces@.len() == i,
                forall|k: int|
                    0 <= k < i ==> names_namespace(lines_of(output@)[k], #[trigger] namespaces@[k]),
            decreases lines.len() - i,
        {
            assert(texts(lines@)[i as int] == lines@[i as int]@);
            match read_namespace(&lines[i]) {
                Ok(namespace) => namespaces.push(namespace),
                Err(_) => {},
            }
            i = i + 1;
        }
        assert(texts(lines@).len() == lines@.len());
        namespaces
    }

    /// Reads the log lines from the output of the tool.
    pub fn get_pod_logs(&self, output: &str) -> (lines: Vec<String>)
        ensures
            texts(lines@) == lines_of(output@),
    {
        split_lines(output)
    }

    /// Reads the resource usage of one pod of `namespace` from a line of
    /// the tool. Fails exactly when the line has fewer than three words.
    /// The usage of the containers is not on the line and is left empty.
    pub fn parse_pod_metrics_line(&self, line: &String, namespace: &str) -> (result: Result<
        ResourceMetrics,
        MetricsError,
    >)
        ensures
            match result {
                Ok(metrics) => describes_pod_metrics(line@, namespace@, metrics),
                Err(e) => words_of(line@).len() < 3 && e == MetricsError::InvalidLine,
            },
    {
        let parts = split_words(line.as_str());
        if parts.len() < 3 {
            return Err(MetricsError::InvalidLine);
        }
        assert(texts(parts@)[0] == parts@[0]@);
        assert(texts(parts@)[1] == parts@[1]@);
        assert(texts(parts@)[2] == parts@[2]@);
        Ok(
            ResourceMetrics {
                name: parts[0].clone(),
                namespace: String::from_str(namespace),
                cpu: parts[1].clone(),
                memory: parts[2].clone(),
                containers: Vec::new(),
            },
        )
    }

    /// Reads the resource usage of the pods of `namespace` from the
    /// output of the tool: one pod per line. Lines with fewer than three
    /// words, blank lines among them, are left out.
    pub fn get_pod_metrics(&self, output: &str, namespace: &str) -> (metrics: Vec<ResourceMetrics>)
        ensures
            exists|lines: Seq<String>|
                texts(lines) == lines_of(output@) && is_selection(
                    lines,
                    metrics@,
                    |line: String| words_of(line@).len() >= 3,
                    |line: String, read: ResourceMetrics|
                        describes_pod_metrics(line@, namespace@, read),
                ),
    {
        let lines = split_lines(output);
        let ghost keep = |line: String| words_of(line@).len() >= 3;
        let mut found: Vec<ResourceMetrics> = Vec::new();
        let mut i: usize = 0;
        while i < lines.len()
            invariant
                i <= lines.len(),
                keep == |line: String| words_of(line@).len() >= 3,
                found@.len() == indices_where(lines@, keep, i as nat).len(),
                forall|k: int|
                    0 <= k < found@.len() ==> describes_pod_metrics(
                        lines@[indices_where(lines@, keep, i as nat)[k]]@,
                        namespace@,
                        #[trigger] found@[k],
                    ),
            decreases lines.len() - i,
        {
            match self.parse_pod_metrics_line(&lines[i], namespace) {
                Ok(metrics) => {
                    found.push(metrics);
                },
                Err(_) => {},
            }
            i = i + 1;
        }
        assert(is_selection(
            lines@,
            found@,
            |line: String| words_of(line@).len() >= 3,
            |line: String, read: ResourceMetrics| describes_pod_metrics(line@, namespace@, read),
        ));
        found
    }

    /// Reads the resource usage of the containers of one pod from the
    /// output of the tool: one container per line. Lines with fewer than
    /// four words, blank lines among them, are left out.
    pub fn get_container_metrics(&self, output: &str) -> (metrics: Vec<ContainerMetrics>)
        ensures
            exists|lines: Seq<String>|
                texts(lines) == lines_of(output@) && is_selection(
                    lines,
                    metrics@,
                    |line: String| words_of(line@).len() >= 4,
                    |line: String, read: ContainerMetrics| describes_container_metrics(line@, read),
                ),
    {
        let lines = split_lines(output);
        let found = collect_parsed(
            &lines,
            parse_container_metrics_line,
            Ghost(|line: String| words_of(line@).len() >= 4),
            Ghost(|line: String, read: ContainerMetrics| describes_container_metrics(line@, read)),
        );
        found
    }

    /// The arguments that print the manifest of the object `name` of the
    /// kind that the word `resource_type` stands for. A kind that lives in
    /// namespaces needs `namespace`; a word that stands for no kind with a
    /// manifest is refused.
    pub fn get_yaml(&self, resource_type: &str, namespace: Option<&str>, name: &str) -> (result:
        Result<Vec<String>, YamlError>)
        ensures
            match result {
                Ok(args) => yaml_kind(resource_type@) is Some && (yaml_kind(
                    resource_type@,
                ).unwrap().spec_is_namespaced() ==> namespace is Some) && texts(args@)
                    == yaml_arguments(
                    yaml_kind(resource_type@).unwrap(),
                    match namespace {
                        Some(ns) => ns@,
                        None => Seq::empty(),
                    },
                    name@,
                ),
                Err(YamlError::NamespaceRequired { kind }) => yaml_kind(resource_type@) == Some(kind)
                    && kind.spec_is_namespaced() && namespace is None,
                Err(YamlError::Unsupported { resource_type: refused }) => yaml_kind(resource_type@)
                    is None && refused@ == resource_type@,
            },
    {
        match kind_of_resource_type(resource_type) {
            Some(kind) => {
                match namespace {
                    Some(ns) => Ok(resource_yaml(kind, ns, name)),
                    None => {
                        if kind.is_namespaced() {
                            Err(YamlError::NamespaceRequired { kind })
                        } else {
                            Ok(resource_yaml(kind, "", name))
                        }
                    },
                }
            },
            None => Err(YamlError::Unsupported { resource_type: String::from_str(resource_type) }),
        }
    }
}

impl KubectlClient {
    /// The arguments that describe the pod `name` of `namespace`.
    pub fn describe_pod(&self, namespace: &str, name: &str) -> (args: Vec<String>)
        ensures
            texts(args@) == describe_in("pod"@, namespace@, name@),
    {
        commands::describe_pod(namespace, name)
    }

    /// The arguments that describe the service `name` of `namespace`.
    pub fn describe_service(&self, namespace: &str, name: &str) -> (args: Vec<String>)
        ensures
            texts(args@) == describe_in("service"@, namespace@, name@),
    {
        commands::describe_service(namespace, name)
    }

    /// The arguments that describe the deployment `name` of `namespace`.
    pub fn describe_deployment(&self, namespace: &str, name: &str) -> (args: Vec<String>)
        ensures
            texts(args@) == describe_in("deployment"@, namespace@, name@),
    {
        commands::describe_deployment(namespace, name)
    }

    /// The arguments that describe the job `name` of `namespace`.
    pub fn describe_job(&self, namespace: &str, name: &str) -> (args: Vec<String>)
        ensures
            texts(args@) == describe_in("job"@, namespace@, name@),
    {
        commands::describe_job(namespace, name)
    }

    /// The arguments that describe the daemon set `name` of `namespace`.
    pub fn describe_daemonset(&self, namespace: &str, name: &str) -> (args: Vec<String>)
        ensures
            texts(args@) == describe_in("daemonset"@, namespace@, name@),
    {
        commands::describe_daemonset(namespace, name)
    }

    /// The arguments that describe the config map `name` of `namespace`.
    pub fn describe_configmap(&self, namespace: &str, name: &str) -> (args: Vec<String>)
        ensures
            texts(args@) == describe_in("configmap"@, namespace@, name@),
    {
        commands::describe_configmap(namespace, name)
    }

    /// The arguments that describe the secret `name` of `namespace`.
    pub fn describe_secret(&self, namespace: &str, name: &str) -> (args: Vec<String>)
        ensures
            texts(args@) == describe_in("secret"@, namespace@, name@),
    {
        commands::describe_secret(namespace, name)
    }

    /// The arguments that describe the persistent volume claim `name` of `namespace`.
    pub fn describe_pvc(&self, namespace: &str, name: &str) -> (args: Vec<String>)
        ensures
            texts(args@) == describe_in("pvc"@, namespace@, name@),
    {
        commands::describe_pvc(namespace, name)
    }

    /// The arguments that describe the node `name`.
    pub fn describe_node(&self, name: &str) -> (args: Vec<String>)
        ensures
            texts(args@) == describe_global("node"@, name@),
    {
        commands::describe_node(name)
    }

    /// The arguments that describe the persistent volume `name`.
    pub fn describe_pv(&self, name: &str) -> (args: Vec<String>)
        ensures
            texts(args@) == describe_global("pv"@, name@),
    {
        commands::describe_pv(name)
    }

    /// The arguments that delete the pod `pod_name` of `namespace`.
    pub fn delete_pod(&self, namespace: &str, pod_name: &str) -> (args: Vec<String>)
        ensures
            texts(args@) == seq!["delete"@, "pod"@, "-n"@, namespace@, pod_name@],
    {
        commands::delete_pod(namespace, pod_name)
    }
}

} // verus!
