//! The state of the dashboard and the operations of its components on it.

use vstd::prelude::*;
use vstd::string::StringExecFns;
use crate::confirm::{action_view, delete_request, ConfirmAction, ConfirmActionView, ConfirmationGate};
use crate::kubectl::types::{
    ClusterRole, ClusterRoleBinding, ConfigMap, DaemonSet, Deployment, Ingress, Job,
    NetworkPolicy, Node, PersistentVolume, PersistentVolumeClaim, Pod, PodMetrics, Role,
    RoleBinding, Secret, Service, ServiceAccount, StatefulSet,
};
use crate::mode::{AppMode, ModeGraph, ResourceKind};
use crate::refresh::{RefreshClass, RefreshScheduler};
use crate::resources::{Resources, ResourcesView};
use crate::scroll::{ScrollOp, ScrollState, ScrollStateView};
use crate::search::{matches_of, SearchEngine, SearchView};
use crate::selection::SelectOp;
use crate::text::count_lines;

verus! {

/// Largest index of the menu of further resources.
pub const MORE_RESOURCES_LAST: usize = 8;

/// What a key press asks the surrounding program to do, beyond the change
/// of state: the library itself never reaches the cluster.
#[derive(Debug)]
pub enum Effect {
    /// Nothing.
    Nothing,
    /// Hand the coordinates to the delete collaborator.
    Delete(ConfirmAction),
    /// Open an interactive shell in the pod.
    Exec { namespace: String, pod: String },
}

/// What an `Effect` holds.
pub ghost enum EffectView {
    Nothing,
    Delete(ConfirmActionView),
    Exec { namespace: Seq<char>, pod: Seq<char> },
}

impl View for Effect {
    type V = EffectView;

    open spec fn view(&self) -> EffectView {
        match *self {
            Effect::Nothing => EffectView::Nothing,
            Effect::Delete(action) => EffectView::Delete(action@),
            Effect::Exec { namespace, pod } => EffectView::Exec { namespace: namespace@, pod: pod@ },
        }
    }
}

/// The text that tells which refresh classes refresh themselves, built up
/// label by label: labels of enabled classes, separated by a comma and a
/// space.
pub open spec fn with_label(text: Seq<char>, enabled: bool, label: Seq<char>) -> Seq<char> {
    if !enabled {
        text
    } else if text.len() == 0 {
        label
    } else {
        text + ", "@ + label
    }
}

/// The labels of the enabled refresh classes, separated by commas.
pub open spec fn refresh_labels(refresh: RefreshScheduler) -> Seq<char> {
    with_label(
        with_label(
            with_label(
                with_label(Seq::empty(), refresh.general.enabled, "列表"@),
                refresh.logs.enabled,
                "日志"@,
            ),
            refresh.describe.enabled,
            "描述"@,
        ),
        refresh.yaml.enabled,
        "YAML"@,
    )
}

/// The status text for the refresh settings: empty when nothing is
/// listed, else the labels inside brackets.
pub open spec fn refresh_status(refresh: RefreshScheduler) -> Seq<char> {
    if refresh_labels(refresh).len() == 0 {
        Seq::empty()
    } else {
        "[自动刷新: "@ + refresh_labels(refresh) + "]"@
    }
}

/// What an `AppState` holds.
pub ghost struct AppView {
    pub resources: ResourcesView,
    pub current_namespace: Seq<char>,
    pub logs: Seq<String>,
    pub describe_content: Seq<char>,
    pub yaml_content: Seq<char>,
    pub pod_metrics: Seq<PodMetrics>,
    pub scroll: ScrollStateView,
    pub search: SearchView,
    pub pending: Option<ConfirmActionView>,
    pub current_command: Seq<char>,
    pub modes: ModeGraph,
    pub text_selection_mode: bool,
    pub language_chinese: bool,
    pub mouse_capture_enabled: bool,
    pub refresh: RefreshScheduler,
    pub refresh_status_text: Seq<char>,
    pub selected_more_resource_index: nat,
    pub should_quit: bool,
}

impl AppView {
    /// The kind that the search aims at.
    pub open spec fn target_kind(self) -> Option<ResourceKind> {
        self.search.target.spec_resource_kind()
    }

    /// The names in the collection that the search aims at.
    pub open spec fn target_names(self) -> Seq<Seq<char>> {
        match self.target_kind() {
            Some(kind) => self.resources.names(kind),
            None => Seq::empty(),
        }
    }

    /// The collections after the selection of the search target moved to
    /// the match `index`, if there is one.
    pub open spec fn selecting_in_target(self, index: Option<usize>) -> ResourcesView {
        match self.target_kind() {
            Some(kind) => self.resources.selecting(kind, index),
            None => self.resources,
        }
    }

    /// The state with the content of the detail view `target` cleared and
    /// its scroll offset back at 0.
    pub open spec fn with_cleared_content(self, target: AppMode) -> AppView {
        let scroll = self.scroll.with_content_length(target, 0);
        match target {
            AppMode::Logs => AppView { logs: Seq::empty(), scroll, ..self },
            AppMode::Describe => AppView { describe_content: Seq::empty(), scroll, ..self },
            AppMode::YamlView => AppView { yaml_content: Seq::empty(), scroll, ..self },
            AppMode::TopView => AppView { pod_metrics: Seq::empty(), scroll, ..self },
            _ => self,
        }
    }

    /// The state after entering the overlay or detail view `target`: the
    /// current mode is saved as the one to return to, and a detail view
    /// starts without content at offset 0.
    pub open spec fn entered(self, target: AppMode) -> AppView {
        AppView { modes: self.modes.entered(target), ..self.with_cleared_content(target) }
    }

    /// The state after returning to the saved previous mode: leaving a
    /// detail view resets its scroll offset.
    pub open spec fn returned(self) -> AppView {
        AppView {
            modes: self.modes.returned(),
            scroll: self.scroll.applied(self.modes.current, ScrollOp::Reset),
            ..self
        }
    }

    /// The state after Esc in a list mode: the namespace list, whatever
    /// was saved as the previous mode.
    pub open spec fn at_root(self) -> AppView {
        AppView { modes: self.modes.at_root(), ..self }
    }

    /// The state after a direct jump to `target`.
    pub open spec fn jumped(self, target: AppMode) -> AppView {
        AppView { modes: self.modes.jumped(target), ..self }
    }

    /// The state after an operation on the selection of `kind`.
    pub open spec fn selected(self, kind: ResourceKind, op: SelectOp) -> AppView {
        AppView { resources: self.resources.applied(kind, op), ..self }
    }

    /// The state after a scroll operation on the current detail view.
    pub open spec fn scrolled(self, op: ScrollOp) -> AppView {
        AppView { scroll: self.scroll.applied(self.modes.current, op), ..self }
    }

    /// The state after the search overlay was opened: from a list mode a
    /// fresh session aims at that list and the mode becomes `Search`; from
    /// any other mode nothing changes.
    pub open spec fn search_started(self) -> AppView {
        if self.modes.current.spec_is_list() {
            AppView {
                search: self.search.started(self.modes.current),
                modes: self.modes.entered(AppMode::Search),
                ..self
            }
        } else {
            self
        }
    }

    /// The state after the query changed to what `search` holds: the
    /// selection of the target collection goes to the first match, if
    /// there is one.
    pub open spec fn with_search(self, search: SearchView) -> AppView {
        AppView {
            search,
            resources: if self.search.is_active() {
                self.selecting_in_target(search.current_match())
            } else {
                self.resources
            },
            ..self
        }
    }

    /// The state after a character was typed into the open overlay.
    pub open spec fn search_typed(self, c: char) -> AppView {
        self.with_search(self.search.typed(c, self.target_names()))
    }

    /// The state after the last character of the query was deleted in the
    /// open overlay.
    pub open spec fn search_erased(self) -> AppView {
        self.with_search(self.search.erased(self.target_names()))
    }

    /// The state after a step forward through the matches: the selection
    /// of the target collection goes to the match under the cursor.
    pub open spec fn search_advanced(self) -> AppView {
        AppView {
            search: self.search.advanced(),
            resources: self.selecting_in_target(self.search.advanced().current_match()),
            ..self
        }
    }

    /// The state after a step backward through the matches.
    pub open spec fn search_retreated(self) -> AppView {
        AppView {
            search: self.search.retreated(),
            resources: self.selecting_in_target(self.search.retreated().current_match()),
            ..self
        }
    }

    /// The state after the open overlay was left with Enter: back in the
    /// target mode, selection and matches as the search left them.
    pub open spec fn search_confirmed(self) -> AppView {
        if self.search.is_active() {
            AppView {
                search: self.search.confirmed(),
                modes: self.modes.jumped(self.search.target),
                ..self
            }
        } else {
            self
        }
    }

    /// The state after the open overlay was left with Esc: back in the
    /// target mode, query and matches gone, selection where it was.
    pub open spec fn search_cancelled(self) -> AppView {
        if self.search.is_active() {
            AppView {
                search: self.search.cancelled(),
                modes: self.modes.jumped(self.search.target),
                ..self
            }
        } else {
            self
        }
    }

    /// The delete request that the delete key makes in the current mode:
    /// `None` outside the lists, for kinds that cannot be deleted and for
    /// an empty list.
    pub open spec fn delete_request(self) -> Option<ConfirmActionView> {
        match self.modes.current.spec_resource_kind() {
            Some(kind) => match self.resources.selected_name(kind) {
                Some(name) => delete_request(kind, self.current_namespace, name),
                None => None,
            },
            None => None,
        }
    }

    /// The state after the delete key: where there is something to
    /// delete, the request becomes the pending one, replacing any other,
    /// and the mode becomes `Confirm`.
    pub open spec fn delete_requested(self) -> AppView {
        match self.delete_request() {
            Some(action) => AppView {
                pending: Some(action),
                modes: self.modes.entered(AppMode::Confirm),
                ..self
            },
            None => self,
        }
    }

    /// The state after the pending request was answered, with yes or with
    /// no: nothing is pending and the remembered mode is current again.
    pub open spec fn confirm_resolved(self) -> AppView {
        AppView { pending: None, modes: self.modes.returned(), ..self }
    }

    /// The state after Enter in the namespace list: with a namespace
    /// selected, it becomes the current one, the pod list is shown, every
    /// collection but the namespaces is empty, every selection index is 0
    /// and every scroll offset is 0. With no namespace at all, nothing
    /// changes.
    pub open spec fn namespace_selected(self) -> AppView {
        match self.resources.selected_name(ResourceKind::Namespace) {
            Some(name) => AppView {
                current_namespace: name,
                resources: self.resources.after_namespace_switch(),
                modes: self.modes.jumped(AppMode::PodList),
                scroll: self.scroll.reset_all(),
                ..self
            },
            None => self,
        }
    }

    /// The state after the timer of `class` was switched on or off: the
    /// status text follows.
    pub open spec fn refresh_toggled(self, class: RefreshClass) -> AppView {
        let refresh = self.refresh.with_timer(class, self.refresh.spec_timer(class).toggled());
        AppView { refresh, refresh_status_text: refresh_status(refresh), ..self }
    }

    /// The state after a forced refresh of the lists at time `now`.
    pub open spec fn refresh_forced(self, now: u64) -> AppView {
        AppView {
            refresh: self.refresh.with_timer(
                RefreshClass::General,
                self.refresh.general.forced(now),
            ),
            ..self
        }
    }

    /// The state after the log lines were replaced.
    pub open spec fn with_logs(self, lines: Seq<String>) -> AppView {
        AppView {
            logs: lines,
            scroll: self.scroll.with_content_length(AppMode::Logs, lines.len()),
            ..self
        }
    }

    /// The state after the description was replaced.
    pub open spec fn with_describe_content(self, text: Seq<char>) -> AppView {
        AppView {
            describe_content: text,
            scroll: self.scroll.with_content_length(AppMode::Describe, count_lines(text)),
            ..self
        }
    }

    /// The state after the manifest was replaced.
    pub open spec fn with_yaml_content(self, text: Seq<char>) -> AppView {
        AppView {
            yaml_content: text,
            scroll: self.scroll.with_content_length(AppMode::YamlView, count_lines(text)),
            ..self
        }
    }

    /// The state after the pod metrics were replaced.
    pub open spec fn with_pod_metrics(self, metrics: Seq<PodMetrics>) -> AppView {
        AppView {
            pod_metrics: metrics,
            scroll: self.scroll.with_content_length(AppMode::TopView, metrics.len()),
            ..self
        }
    }
}

/// Whether `item` is the selected item of the collection `c`: `None`
/// exactly when `c` is empty.
pub open spec fn selected_is<T>(c: crate::selection::CollectionView<T>, item: Option<&T>) -> bool {
    &&& c.wf()
    &&& match item {
        Some(t) => c.items.len() > 0 && *t == c.items[c.selected as int],
        None => c.items.len() == 0,
    }
}

/// The whole state of the dashboard.
#[derive(Debug)]
pub struct AppState {
    /// The collections of all resource kinds with their selections.
    pub resources: Resources,
    /// The namespace whose objects are shown.
    pub current_namespace: String,
    /// The lines of the log view.
    pub logs: Vec<String>,
    /// The text of the description view.
    pub describe_content: String,
    /// The text of the manifest view.
    pub yaml_content: String,
    /// The rows of the metrics view.
    pub pod_metrics: Vec<PodMetrics>,
    /// The scroll offsets of the detail views.
    pub scroll: ScrollState,
    /// The search session.
    pub search: SearchEngine,
    /// The pending destructive action.
    pub confirm: ConfirmationGate,
    /// The command that is being run for the user to see.
    pub current_command: String,
    /// Current and previous mode.
    pub modes: ModeGraph,
    /// Whether the mouse selects text instead of scrolling.
    pub text_selection_mode: bool,
    /// Whether texts are shown in Chinese.
    pub language_chinese: bool,
    /// Whether the terminal is asked to report the mouse.
    pub mouse_capture_enabled: bool,
    /// The refresh timers.
    pub refresh: RefreshScheduler,
    /// Which refresh classes refresh themselves, as text.
    pub refresh_status_text: String,
    /// The selected entry of the menu of further resources.
    pub selected_more_resource_index: usize,
    /// Whether the user asked to leave.
    pub should_quit: bool,
}

impl View for AppState {
    type V = AppView;

    open spec fn view(&self) -> AppView {
        AppView {
            resources: self.resources@,
            current_namespace: self.current_namespace@,
            logs: self.logs@,
            describe_content: self.describe_content@,
            yaml_content: self.yaml_content@,
            pod_metrics: self.pod_metrics@,
            scroll: self.scroll@,
            search: self.search@,
            pending: action_view(self.confirm.pending),
            current_command: self.current_command@,
            modes: self.modes,
            text_selection_mode: self.text_selection_mode,
            language_chinese: self.language_chinese,
            mouse_capture_enabled: self.mouse_capture_enabled,
            refresh: self.refresh,
            refresh_status_text: self.refresh_status_text@,
            selected_more_resource_index: self.selected_more_resource_index as nat,
            should_quit: self.should_quit,
        }
    }
}

/// The state at start-up at time `now`.
pub open spec fn initial_state(now: u64) -> AppView {
    AppView {
        resources: ResourcesView {
            namespaces: crate::selection::CollectionView::empty(),
            pods: crate::selection::CollectionView::empty(),
            services: crate::selection::CollectionView::empty(),
            deployments: crate::selection::CollectionView::empty(),
            jobs: crate::selection::CollectionView::empty(),
            daemonsets: crate::selection::CollectionView::empty(),
            pvcs: crate::selection::CollectionView::empty(),
            pvs: crate::selection::CollectionView::empty(),
            nodes: crate::selection::CollectionView::empty(),
            configmaps: crate::selection::CollectionView::empty(),
            secrets: crate::selection::CollectionView::empty(),
            statefulsets: crate::selection::CollectionView::empty(),
            ingresses: crate::selection::CollectionView::empty(),
            network_policies: crate::selection::CollectionView::empty(),
            roles: crate::selection::CollectionView::empty(),
            role_bindings: crate::selection::CollectionView::empty(),
            cluster_roles: crate::selection::CollectionView::empty(),
            cluster_role_bindings: crate::selection::CollectionView::empty(),
            service_accounts: crate::selection::CollectionView::empty(),
        },
        current_namespace: Seq::empty(),
        logs: Seq::empty(),
        describe_content: Seq::empty(),
        yaml_content: Seq::empty(),
        pod_metrics: Seq::empty(),
        scroll: ScrollStateView {
            logs: crate::scroll::ScrollView { offset: 0, content_length: 0, viewport_height: 0 },
            describe: crate::scroll::ScrollView {
                offset: 0,
                content_length: 0,
                viewport_height: 0,
            },
            yaml: crate::scroll::ScrollView { offset: 0, content_length: 0, viewport_height: 0 },
            metrics: crate::scroll::ScrollView { offset: 0, content_length: 0, viewport_height: 0 },
            auto_follow: true,
        },
        search: SearchView::idle(),
        pending: None,
        current_command: Seq::empty(),
        modes: ModeGraph { current: AppMode::NamespaceList, previous: AppMode::NamespaceList },
        text_selection_mode: false,
        language_chinese: true,
        mouse_capture_enabled: false,
        refresh: RefreshScheduler::initial(now),
        refresh_status_text: Seq::empty(),
        selected_more_resource_index: 0,
        should_quit: false,
    }
}

/// Appends `label` to `text` if `enabled`, after a comma and a space when
/// `text` already holds a label.
fn append_label(text: &mut String, enabled: bool, label: &str)
    ensures
        final(text)@ == with_label(old(text)@, enabled, label@),
{
    if enabled {
        if !text.as_str().is_empty() {
            text.append(", ");
        }
        text.append(label);
    }
}

/// The status text for the refresh settings.
pub fn refresh_status_text(refresh: &RefreshScheduler) -> (text: String)
    ensures
        text@ == refresh_status(*refresh),
{
    let mut labels = String::new();
    append_label(&mut labels, refresh.general.enabled, "列表");
    append_label(&mut labels, refresh.logs.enabled, "日志");
    append_label(&mut labels, refresh.describe.enabled, "描述");
    append_label(&mut labels, refresh.yaml.enabled, "YAML");
    if labels.as_str().is_empty() {
        String::new()
    } else {
        let mut text = String::from_str("[自动刷新: ");
        text.append(labels.as_str());
        text.append("]");
        text
    }
}

impl AppState {
    /// The state at start-up at time `now`: the namespace list, empty
    /// collections, no overlay, lists and logs refreshing themselves.
    pub fn new(now: u64) -> (app: Self)
        ensures
            app@ == initial_state(now),
    {
        AppState {
            resources: Resources::new(),
            current_namespace: String::new(),
            logs: Vec::new(),
            describe_content: String::new(),
            yaml_content: String::new(),
            pod_metrics: Vec::new(),
            scroll: ScrollState::new(),
            search: SearchEngine::new(),
            confirm: ConfirmationGate::new(),
            current_command: String::new(),
            modes: ModeGraph::new(),
            text_selection_mode: false,
            language_chinese: true,
            mouse_capture_enabled: false,
            refresh: RefreshScheduler::new(now),
            refresh_status_text: String::new(),
            selected_more_resource_index: 0,
            should_quit: false,
        }
    }

    /// Sets all four scroll offsets to 0.
    pub fn reset_scroll(&mut self)
        ensures
            final(self)@ == (AppView { scroll: old(self)@.scroll.reset_all(), ..old(self)@ }),
    {
        self.scroll.reset_all();
    }

    /// Records the command that is being run.
    pub fn set_current_command(&mut self, command: &str)
        ensures
            final(self)@ == (AppView { current_command: command@, ..old(self)@ }),
    {
        self.current_command = String::from_str(command);
    }

    /// Records that no command is being run.
    pub fn clear_current_command(&mut self)
        ensures
            final(self)@ == (AppView { current_command: Seq::empty(), ..old(self)@ }),
    {
        self.current_command = String::new();
    }

    /// Records a fetch of `class` at time `now`.
    pub fn mark_refreshed(&mut self, class: RefreshClass, now: u64)
        ensures
            final(self)@ == (AppView {
                refresh: old(self)@.refresh.with_timer(
                    class,
                    old(self)@.refresh.spec_timer(class).refreshed(now),
                ),
                ..old(self)@
            }),
    {
        self.refresh.mark_refreshed(class, now);
    }

    /// Records a fetch of list data at time `now`.
    pub fn refresh_data(&mut self, now: u64)
        ensures
            final(self)@ == (AppView {
                refresh: old(self)@.refresh.with_timer(
                    RefreshClass::General,
                    old(self)@.refresh.general.refreshed(now),
                ),
                ..old(self)@
            }),
    {
        self.mark_refreshed(RefreshClass::General, now);
    }

    /// Records a fetch of the log tail at time `now`.
    pub fn refresh_logs(&mut self, now: u64)
        ensures
            final(self)@ == (AppView {
                refresh: old(self)@.refresh.with_timer(
                    RefreshClass::Logs,
                    old(self)@.refresh.logs.refreshed(now),
                ),
                ..old(self)@
            }),
    {
        self.mark_refreshed(RefreshClass::Logs, now);
    }

    /// Records a fetch of the description at time `now`.
    pub fn refresh_describe(&mut self, now: u64)
        ensures
            final(self)@ == (AppView {
                refresh: old(self)@.refresh.with_timer(
                    RefreshClass::Describe,
                    old(self)@.refresh.describe.refreshed(now),
                ),
                ..old(self)@
            }),
    {
        self.mark_refreshed(RefreshClass::Describe, now);
    }

    /// Records a fetch of the manifest at time `now`.
    pub fn refresh_yaml(&mut self, now: u64)
        ensures
            final(self)@ == (AppView {
                refresh: old(self)@.refresh.with_timer(
                    RefreshClass::Yaml,
                    old(self)@.refresh.yaml.refreshed(now),
                ),
                ..old(self)@
            }),
    {
        self.mark_refreshed(RefreshClass::Yaml, now);
    }

    /// Whether list data is due at time `now`: the general refresh is on
    /// and its interval has passed since the last fetch.
    pub fn should_refresh(&self, now: u64) -> (due: bool)
        ensures
            due == self@.refresh.general.is_due(now),
    {
        self.refresh.should_refresh(RefreshClass::General, now)
    }

    /// Whether the log tail is due at time `now`.
    pub fn should_refresh_logs(&self, now: u64) -> (due: bool)
        ensures
            due == self@.refresh.logs.is_due(now),
    {
        self.refresh.should_refresh(RefreshClass::Logs, now)
    }

    /// Whether the description is due at time `now`.
    pub fn should_refresh_describe(&self, now: u64) -> (due: bool)
        ensures
            due == self@.refresh.describe.is_due(now),
    {
        self.refresh.should_refresh(RefreshClass::Describe, now)
    }

    /// Whether the manifest is due at time `now`.
    pub fn should_refresh_yaml(&self, now: u64) -> (due: bool)
        ensures
            due == self@.refresh.yaml.is_due(now),
    {
        self.refresh.should_refresh(RefreshClass::Yaml, now)
    }

    /// Brings the status text in line with the refresh settings.
    pub fn update_refresh_status(&mut self)
        ensures
            final(self)@ == (AppView {
                refresh_status_text: refresh_status(old(self)@.refresh),
                ..old(self)@
            }),
    {
        self.refresh_status_text = refresh_status_text(&self.refresh);
    }

    /// Switches whether `class` refreshes itself and brings the status
    /// text in line. The time of the last fetch is not touched.
    pub fn toggle_refresh(&mut self, class: RefreshClass)
        ensures
            final(self)@ == old(self)@.refresh_toggled(class),
    {
        self.refresh.toggle(class);
        self.update_refresh_status();
    }

    /// The text that names the mouse mode: empty unless the mouse selects
    /// text, and then in the language of the dashboard.
    pub fn get_mouse_mode_text(&self) -> (text: String)
        ensures
            text@ == if !self@.text_selection_mode {
                Seq::<char>::empty()
            } else if self@.language_chinese {
                "文本选择模式"@
            } else {
                "Text Selection Mode"@
            },
    {
        if self.text_selection_mode {
            if self.language_chinese {
                String::from_str("文本选择模式")
            } else {
                String::from_str("Text Selection Mode")
            }
        } else {
            String::new()
        }
    }

    /// Switches between text selection and scrolling with the mouse.
    pub fn toggle_mouse_mode(&mut self)
        ensures
            final(self)@ == (AppView {
                text_selection_mode: !old(self)@.text_selection_mode,
                ..old(self)@
            }),
    {
        self.text_selection_mode = !self.text_selection_mode;
    }

    /// Whether the terminal should report the mouse: always, except in the
    /// log, description and manifest views while the mouse selects text.
    pub fn should_enable_mouse_capture(&self) -> (enable: bool)
        ensures
            enable == !((self@.modes.current == AppMode::Logs || self@.modes.current
                == AppMode::Describe || self@.modes.current == AppMode::YamlView)
                && self@.text_selection_mode),
    {
        match self.modes.current {
            AppMode::Logs | AppMode::Describe | AppMode::YamlView => !self.text_selection_mode,
            _ => true,
        }
    }

    /// The saved previous mode.
    pub fn get_previous_mode(&self) -> (mode: AppMode)
        ensures
            mode == self@.modes.previous,
    {
        self.modes.previous
    }

    /// Makes list data due at once, if the general refresh is on.
    pub fn force_refresh_current_mode(&mut self, now: u64)
        ensures
            final(self)@ == old(self)@.refresh_forced(now),
    {
        self.refresh.force(RefreshClass::General, now);
    }

    /// Replaces the log lines. With auto-follow on, the log view moves to
    /// the end of the new lines; else its offset is only pulled back if
    /// it no longer fits.
    pub fn set_logs(&mut self, lines: Vec<String>)
        ensures
            final(self)@ == old(self)@.with_logs(lines@),
    {
        self.scroll.set_content_length(AppMode::Logs, lines.len());
        self.logs = lines;
    }

    /// Replaces the description.
    pub fn set_describe_content(&mut self, text: String)
        ensures
            final(self)@ == old(self)@.with_describe_content(text@),
    {
        let lines = crate::text::line_count(text.as_str());
        self.scroll.set_content_length(AppMode::Describe, lines);
        self.describe_content = text;
    }

    /// Replaces the manifest.
    pub fn set_yaml_content(&mut self, text: String)
        ensures
            final(self)@ == old(self)@.with_yaml_content(text@),
    {
        let lines = crate::text::line_count(text.as_str());
        self.scroll.set_content_length(AppMode::YamlView, lines);
        self.yaml_content = text;
    }

    /// Replaces the pod metrics.
    pub fn set_pod_metrics(&mut self, metrics: Vec<PodMetrics>)
        ensures
            final(self)@ == old(self)@.with_pod_metrics(metrics@),
    {
        self.scroll.set_content_length(AppMode::TopView, metrics.len());
        self.pod_metrics = metrics;
    }

    /// Enters the overlay or detail view `target`: saves the current mode
    /// as the one to return to, switches to `target`, and starts a detail
    /// view without content at offset 0.
    pub fn enter_overlay_or_detail(&mut self, target: AppMode)
        ensures
            final(self)@ == old(self)@.entered(target),
    {
        match target {
            AppMode::Logs => {
                self.logs = Vec::new();
            },
            AppMode::Describe => {
                self.describe_content = String::new();
            },
            AppMode::YamlView => {
                self.yaml_content = String::new();
            },
            AppMode::TopView => {
                self.pod_metrics = Vec::new();
            },
            _ => {},
        }
        self.scroll.set_content_length(target, 0);
        self.modes.enter_overlay_or_detail(target);
    }

    /// Returns to the saved previous mode. Leaving a detail view resets
    /// its scroll offset.
    pub fn return_to_previous(&mut self)
        ensures
            final(self)@ == old(self)@.returned(),
    {
        self.scroll.reset(self.modes.current);
        self.modes.return_to_previous();
    }

    /// From a list mode, goes to the namespace list, whatever the saved
    /// previous mode is.
    pub fn return_to_root(&mut self)
        ensures
            final(self)@ == old(self)@.at_root(),
    {
        self.modes.return_to_root();
    }

    /// Advances the current mode along its ring of lists.
    pub fn cycle_forward(&mut self)
        ensures
            final(self)@ == old(self)@.jumped(old(self)@.modes.current.spec_cycle_forward()),
    {
        self.modes.cycle_forward();
    }

    /// Moves the current mode back along its ring of lists.
    pub fn cycle_backward(&mut self)
        ensures
            final(self)@ == old(self)@.jumped(old(self)@.modes.current.spec_cycle_backward()),
    {
        self.modes.cycle_backward();
    }

    /// Switches directly to `target`, bypassing the rings.
    pub fn jump(&mut self, target: AppMode)
        ensures
            final(self)@ == old(self)@.jumped(target),
    {
        self.modes.jump(target);
    }

    /// Moves the selection of `kind` one item up, stopping at the first.
    pub fn move_up(&mut self, kind: ResourceKind)
        ensures
            final(self)@ == old(self)@.selected(kind, SelectOp::Up),
    {
        self.resources.move_up(kind);
    }

    /// Moves the selection of `kind` one item down, stopping at the last.
    pub fn move_down(&mut self, kind: ResourceKind)
        ensures
            final(self)@ == old(self)@.selected(kind, SelectOp::Down),
    {
        self.resources.move_down(kind);
    }

    /// Sets the selection of `kind` back to the first item.
    pub fn reset_selection(&mut self, kind: ResourceKind)
        ensures
            final(self)@ == old(self)@.selected(kind, SelectOp::Reset),
    {
        self.resources.reset_selection(kind);
    }

    /// Opens the search overlay over the current list. Returns whether it
    /// did: from a mode that is no list nothing changes.
    pub fn start_search(&mut self) -> (started: bool)
        ensures
            started == old(self)@.modes.current.spec_is_list(),
            final(self)@ == old(self)@.search_started(),
    {
        if self.search.start(self.modes.current) {
            self.modes.enter_overlay_or_detail(AppMode::Search);
            true
        } else {
            false
        }
    }

    /// Puts `query` into the open search overlay: computes its matches in
    /// the target collection, puts the cursor on the first and moves the
    /// selection there.
    fn apply_query(&mut self, query: Vec<char>)
        requires
            old(self)@.search.is_active(),
        ensures
            final(self)@ == old(self)@.with_search(
                old(self)@.search.with_query(query@, matches_of(old(self)@.target_names(), query@)),
            ),
    {
        match self.search.target().resource_kind() {
            Some(kind) => {
                let matches = self.resources.matching_indices(kind, &query);
                self.search.set_query(query, matches);
                let index = self.search.current_match();
                self.resources.select_match(kind, index);
            },
            None => {
                self.search.set_query(query, Vec::new());
            },
        }
    }

    /// Types `c` into the open search overlay: the matches are computed
    /// anew over the target collection, the cursor goes to the first
    /// match and the selection of the target collection follows it.
    /// Outside an open overlay nothing changes.
    pub fn type_char(&mut self, c: char)
        ensures
            final(self)@ == old(self)@.search_typed(c),
    {
        if self.search.is_active() {
            let query = self.search.query_with(c);
            self.apply_query(query);
        }
    }

    /// Deletes the last character of the query in the open search
    /// overlay, with the same consequences as typing.
    pub fn backspace(&mut self)
        ensures
            final(self)@ == old(self)@.search_erased(),
    {
        if self.search.is_active() {
            let query = self.search.query_shortened();
            self.apply_query(query);
        }
    }

    /// Steps forward through the matches, wrapping at the end, and moves
    /// the selection of the target collection to the match reached. The
    /// matches may stem from a search that was confirmed earlier.
    pub fn search_next(&mut self)
        ensures
            final(self)@ == old(self)@.search_advanced(),
    {
        let index = self.search.next();
        match self.search.target().resource_kind() {
            Some(kind) => self.resources.select_match(kind, index),
            None => {},
        }
    }

    /// Steps backward through the matches, wrapping at the start, and
    /// moves the selection of the target collection to the match reached.
    pub fn search_previous(&mut self)
        ensures
            final(self)@ == old(self)@.search_retreated(),
    {
        let index = self.search.previous();
        match self.search.target().resource_kind() {
            Some(kind) => self.resources.select_match(kind, index),
            None => {},
        }
    }

    /// Leaves the open search overlay for the target mode and keeps the
    /// matches.
    pub fn confirm_search(&mut self)
        ensures
            final(self)@ == old(self)@.search_confirmed(),
    {
        if self.search.is_active() {
            self.search.confirm();
            self.modes.jump(self.search.target());
        }
    }

    /// Leaves the open search overlay for the target mode and forgets
    /// query and matches.
    pub fn cancel_search(&mut self)
        ensures
            final(self)@ == old(self)@.search_cancelled(),
    {
        if self.search.is_active() {
            self.search.cancel();
            self.modes.jump(self.search.target());
        }
    }

    /// Asks for confirmation to delete the selected item of the current
    /// list. Returns whether a request was made: none is made outside the
    /// lists, for kinds that cannot be deleted, and on an empty list.
    pub fn request_delete(&mut self) -> (requested: bool)
        ensures
            requested == old(self)@.delete_request() is Some,
            final(self)@ == old(self)@.delete_requested(),
    {
        let action = match self.modes.current.resource_kind() {
            Some(kind) => match self.resources.selected_name(kind) {
                Some(name) => ConfirmAction::delete(kind, &self.current_namespace, name),
                None => None,
            },
            None => None,
        };
        match action {
            Some(action) => {
                self.request(action);
                true
            },
            None => false,
        }
    }

    /// Makes `action` the pending request, silently replacing any request
    /// that was pending, and switches to the mode `Confirm`, remembering
    /// the current mode as the one to return to.
    pub fn request(&mut self, action: ConfirmAction)
        ensures
            final(self)@ == (AppView {
                pending: Some(action@),
                modes: old(self)@.modes.entered(AppMode::Confirm),
                ..old(self)@
            }),
    {
        self.confirm.request(action);
        self.modes.enter_overlay_or_detail(AppMode::Confirm);
    }

    /// Answers the pending request with yes: clears it, restores the
    /// remembered mode and returns the action for the delete
    /// collaborator. `None` is returned exactly when nothing was pending.
    pub fn confirm(&mut self) -> (released: Option<ConfirmAction>)
        ensures
            final(self)@ == old(self)@.confirm_resolved(),
            action_view(released) == old(self)@.pending,
    {
        let released = self.confirm.confirm();
        self.modes.return_to_previous();
        released
    }

    /// Answers the pending request with no: clears it and restores the
    /// remembered mode. Nothing reaches the delete collaborator.
    pub fn deny(&mut self)
        ensures
            final(self)@ == old(self)@.confirm_resolved(),
    {
        self.confirm.deny();
        self.modes.return_to_previous();
    }

    /// Makes the selected namespace the current one and shows its pods:
    /// every collection but the namespaces is emptied, every selection
    /// index and every scroll offset is set to 0. Returns whether it did:
    /// with no namespace to select nothing changes.
    pub fn select_namespace(&mut self) -> (switched: bool)
        ensures
            switched == (old(self)@.resources.namespaces.items.len() > 0),
            final(self)@ == old(self)@.namespace_selected(),
    {
        let name = match self.resources.selected_name(ResourceKind::Namespace) {
            Some(name) => name.clone(),
            None => {
                return false;
            },
        };
        self.current_namespace = name;
        self.resources.switch_namespace();
        self.modes.jump(AppMode::PodList);
        self.scroll.reset_all();
        true
    }

    /// The selected pod: `None` exactly when there is none to select.
    pub fn get_selected_pod(&self) -> (item: Option<&Pod>)
        ensures
            selected_is(self@.resources.pods, item),
    {
        self.resources.pods.get_selected()
    }

    /// The selected service: `None` exactly when there is none to select.
    pub fn get_selected_service(&self) -> (item: Option<&Service>)
        ensures
            selected_is(self@.resources.services, item),
    {
        self.resources.services.get_selected()
    }

    /// The selected deployment: `None` exactly when there is none to select.
    pub fn get_selected_deployment(&self) -> (item: Option<&Deployment>)
        ensures
            selected_is(self@.resources.deployments, item),
    {
        self.resources.deployments.get_selected()
    }

    /// The selected job: `None` exactly when there is none to select.
    pub fn get_selected_job(&self) -> (item: Option<&Job>)
        ensures
            selected_is(self@.resources.jobs, item),
    {
        self.resources.jobs.get_selected()
    }

    /// The selected daemon set: `None` exactly when there is none to select.
    pub fn get_selected_daemonset(&self) -> (item: Option<&DaemonSet>)
        ensures
            selected_is(self@.resources.daemonsets, item),
    {
        self.resources.daemonsets.get_selected()
    }

    /// The selected persistent volume claim: `None` exactly when there is none to select.
    pub fn get_selected_pvc(&self) -> (item: Option<&PersistentVolumeClaim>)
        ensures
            selected_is(self@.resources.pvcs, item),
    {
        self.resources.pvcs.get_selected()
    }

    /// The selected persistent volume: `None` exactly when there is none to select.
    pub fn get_selected_pv(&self) -> (item: Option<&PersistentVolume>)
        ensures
            selected_is(self@.resources.pvs, item),
    {
        self.resources.pvs.get_selected()
    }

    /// The selected node: `None` exactly when there is none to select.
    pub fn get_selected_node(&self) -> (item: Option<&Node>)
        ensures
            selected_is(self@.resources.nodes, item),
    {
        self.resources.nodes.get_selected()
    }

    /// The selected config map: `None` exactly when there is none to select.
    pub fn get_selected_configmap(&self) -> (item: Option<&ConfigMap>)
        ensures
            selected_is(self@.resources.configmaps, item),
    {
        self.resources.configmaps.get_selected()
    }

    /// The selected secret: `None` exactly when there is none to select.
    pub fn get_selected_secret(&self) -> (item: Option<&Secret>)
        ensures
            selected_is(self@.resources.secrets, item),
    {
        self.resources.secrets.get_selected()
    }

    /// The selected stateful set: `None` exactly when there is none to select.
    pub fn get_selected_statefulset(&self) -> (item: Option<&StatefulSet>)
        ensures
            selected_is(self@.resources.statefulsets, item),
    {
        self.resources.statefulsets.get_selected()
    }

    /// The selected ingress: `None` exactly when there is none to select.
    pub fn get_selected_ingress(&self) -> (item: Option<&Ingress>)
        ensures
            selected_is(self@.resources.ingresses, item),
    {
        self.resources.ingresses.get_selected()
    }

    /// The selected network policy: `None` exactly when there is none to select.
    pub fn get_selected_network_policy(&self) -> (item: Option<&NetworkPolicy>)
        ensures
            selected_is(self@.resources.network_policies, item),
    {
        self.resources.network_policies.get_selected()
    }

    /// The selected role: `None` exactly when there is none to select.
    pub fn get_selected_role(&self) -> (item: Option<&Role>)
        ensures
            selected_is(self@.resources.roles, item),
    {
        self.resources.roles.get_selected()
    }

    /// The selected role binding: `None` exactly when there is none to select.
    pub fn get_selected_role_binding(&self) -> (item: Option<&RoleBinding>)
        ensures
            selected_is(self@.resources.role_bindings, item),
    {
        self.resources.role_bindings.get_selected()
    }

    /// The selected cluster role: `None` exactly when there is none to select.
    pub fn get_selected_cluster_role(&self) -> (item: Option<&ClusterRole>)
        ensures
            selected_is(self@.resources.cluster_roles, item),
    {
        self.resources.cluster_roles.get_selected()
    }

    /// The selected cluster role binding: `None` exactly when there is none to select.
    pub fn get_selected_cluster_role_binding(&self) -> (item: Option<&ClusterRoleBinding>)
        ensures
            selected_is(self@.resources.cluster_role_bindings, item),
    {
        self.resources.cluster_role_bindings.get_selected()
    }

    /// The selected service account: `None` exactly when there is none to select.
    pub fn get_selected_service_account(&self) -> (item: Option<&ServiceAccount>)
        ensures
            selected_is(self@.resources.service_accounts, item),
    {
        self.resources.service_accounts.get_selected()
    }
}

} // verus!
