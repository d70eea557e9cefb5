//! What holds of the dashboard in every state and for every input.

use vstd::prelude::*;
use crate::app::{initial_state, AppView, EffectView};
use crate::events::{Event, KeyCode};
use crate::fetch::{FetchPayload, FetchRequestView};
use crate::mode::{AppMode, ResourceKind};
use crate::refresh::RefreshClass;
use crate::resources::{lemma_namespace_switch_resets, lemma_select_op_is_local, ResourcesView};
use crate::scroll::ScrollOp;
use crate::selection::SelectOp;

verus! {

impl AppView {
    /// At most one overlay captures the input, and the mode shows which:
    /// an open search goes with the mode `Search`, aims at a list and
    /// excludes a pending confirmation, and a pending confirmation goes
    /// with the mode `Confirm`.
    pub open spec fn overlays_consistent(self) -> bool {
        &&& self.search.is_active() ==> self.pending is None && self.modes.current
            == AppMode::Search && self.search.target.spec_is_list()
        &&& self.pending is Some ==> self.modes.current == AppMode::Confirm
    }

    /// Whether `other` holds the same items, namespace, contents, scroll
    /// offsets and settings as `self`: everything but modes, search,
    /// selections and the pending confirmation.
    pub open spec fn same_data(self, other: AppView) -> bool {
        &&& forall|kind: ResourceKind| #[trigger]
            other.resources.names(kind) == self.resources.names(kind)
        &&& other.current_namespace == self.current_namespace
        &&& other.logs == self.logs
        &&& other.describe_content == self.describe_content
        &&& other.yaml_content == self.yaml_content
        &&& other.pod_metrics == self.pod_metrics
        &&& other.scroll == self.scroll
        &&& other.refresh == self.refresh
        &&& other.should_quit == self.should_quit
        &&& other.language_chinese == self.language_chinese
        &&& other.text_selection_mode == self.text_selection_mode
    }
}

/// Moving the selection of the search target to a match changes no item of
/// any kind.
proof fn lemma_selecting_keeps_names(s: AppView, index: Option<usize>)
    ensures
        forall|kind: ResourceKind| #[trigger]
            s.selecting_in_target(index).names(kind) == s.resources.names(kind),
{
    assert forall|kind: ResourceKind| #[trigger]
        s.selecting_in_target(index).names(kind) == s.resources.names(kind) by {
        match (s.target_kind(), index) {
            (Some(target), Some(i)) => {
                lemma_select_op_is_local(s.resources, target, SelectOp::To(i), kind);
            },
            _ => {},
        }
    }
}

/// While the search overlay is open, a key reaches nothing but the
/// search: no effect is asked for, no confirmation is requested or
/// answered, no item and no setting changes, and the mode either stays or
/// becomes the list that the search was launched from.
pub proof fn lemma_search_captures_input(s: AppView, key: KeyCode, now: u64)
    requires
        s.search.is_active(),
    ensures
        s.key_step(key, now).1 == EffectView::Nothing,
        s.key_step(key, now).0.pending == s.pending,
        s.same_data(s.key_step(key, now).0),
        s.key_step(key, now).0.modes.current == s.modes.current || s.key_step(
            key,
            now,
        ).0.modes.current == s.search.target,
        s.key_step(key, now).0.modes.previous == s.modes.previous,
        s.key_step(key, now).0.search.target == s.search.target,
{
    reveal(AppView::search_key);
    let typed = match key {
        KeyCode::Char(c) => s.search.typed(c, s.target_names()),
        _ => s.search,
    };
    lemma_selecting_keeps_names(s, typed.current_match());
    lemma_selecting_keeps_names(s, s.search.erased(s.target_names()).current_match());
    lemma_selecting_keeps_names(s, s.search.advanced().current_match());
    lemma_selecting_keeps_names(s, s.search.retreated().current_match());
}

/// While a destructive action waits for its answer (and no search is
/// open), a key reaches nothing but the confirmation: `y` releases exactly
/// the pending action, `n` and Esc release nothing, both restore the
/// remembered mode, and every other key changes nothing at all.
pub proof fn lemma_confirmation_captures_input(s: AppView, key: KeyCode, now: u64)
    requires
        !s.search.is_active(),
        s.pending is Some,
    ensures
        key == KeyCode::Char('y') || key == KeyCode::Char('Y') ==> s.key_step(key, now) == (
            s.confirm_resolved(),
            EffectView::Delete(s.pending.unwrap()),
        ),
        key == KeyCode::Char('n') || key == KeyCode::Char('N') || key == KeyCode::Esc
            ==> s.key_step(key, now) == (s.confirm_resolved(), EffectView::Nothing),
        !(key == KeyCode::Char('y') || key == KeyCode::Char('Y') || key == KeyCode::Char('n')
            || key == KeyCode::Char('N') || key == KeyCode::Esc) ==> s.key_step(key, now) == (
            s,
            EffectView::Nothing,
        ),
        s.key_step(key, now).0.resources == s.resources,
{
    reveal(AppView::confirm_key);
}

/// In a list, no key asks for a deletion, and a confirmation comes to be
/// pending only through the delete key, for the selected item.
proof fn lemma_list_key_releases_nothing(s: AppView, kind: ResourceKind, key: KeyCode, now: u64)
    requires
        s.pending is None,
    ensures
        !(s.list_key(kind, key, now).1 is Delete),
        s.list_key(kind, key, now).0.pending is Some ==> {
            &&& key == KeyCode::Char('d') || key == KeyCode::Char('D')
            &&& s.list_key(kind, key, now).0.pending == s.delete_request()
            &&& s.list_key(kind, key, now).0.modes == s.modes.entered(AppMode::Confirm)
            &&& s.list_key(kind, key, now).1 == EffectView::Nothing
        },
{
    reveal(AppView::list_key);
    reveal(AppView::namespace_list_key);
    reveal(AppView::resource_list_key);
}

/// Outside the lists and the overlays, no key asks for a deletion or
/// makes a confirmation pending.
proof fn lemma_other_keys_release_nothing(s: AppView, key: KeyCode)
    requires
        s.pending is None,
    ensures
        s.detail_key(key).pending is None,
        s.help_key(key).pending is None,
        s.more_resources_key(key).pending is None,
        s.confirm_key(key).0.pending is None,
        !(s.confirm_key(key).1 is Delete),
{
    reveal(AppView::detail_key);
    reveal(AppView::help_key);
    reveal(AppView::more_resources_key);
    reveal(AppView::confirm_key);
}

/// Confirmation safety for the whole dashboard: a key press asks for a
/// deletion if and only if no search is open, an action is pending and the
/// key is `y`; and the action deleted is the pending one.
pub proof fn lemma_delete_needs_pending_and_yes(s: AppView, key: KeyCode, now: u64)
    ensures
        s.key_step(key, now).1 is Delete <==> (!s.search.is_active() && s.pending is Some && (key
            == KeyCode::Char('y') || key == KeyCode::Char('Y'))),
        s.key_step(key, now).1 is Delete ==> s.key_step(key, now).1 == EffectView::Delete(
            s.pending.unwrap(),
        ),
{
    if s.search.is_active() {
    } else if s.pending is Some {
        lemma_confirmation_captures_input(s, key, now);
    } else {
        reveal(AppView::mode_key);
        lemma_other_keys_release_nothing(s, key);
        match s.modes.current.spec_resource_kind() {
            Some(kind) => lemma_list_key_releases_nothing(s, kind, key, now),
            None => {},
        }
    }
}

/// A request for deletion comes into being only through the delete key in
/// a list, for the selected item of that list; the mode becomes
/// `Confirm`, and the list is remembered as the mode to return to.
pub proof fn lemma_request_needs_delete_key(s: AppView, key: KeyCode, now: u64)
    requires
        s.pending is None,
        s.key_step(key, now).0.pending is Some,
    ensures
        !s.search.is_active(),
        key == KeyCode::Char('d') || key == KeyCode::Char('D'),
        s.modes.current.spec_is_list(),
        s.key_step(key, now).0.pending == s.delete_request(),
        s.key_step(key, now).0.modes.current == AppMode::Confirm,
        s.key_step(key, now).0.modes.previous == s.modes.current,
        s.key_step(key, now).1 == EffectView::Nothing,
{
    if s.search.is_active() {
        lemma_search_captures_input(s, key, now);
    } else {
        reveal(AppView::mode_key);
        lemma_other_keys_release_nothing(s, key);
        match s.modes.current.spec_resource_kind() {
            Some(kind) => lemma_list_key_releases_nothing(s, kind, key, now),
            None => {},
        }
    }
}

/// The state at start-up shows no overlay.
pub proof fn lemma_initial_state_is_consistent(now: u64)
    ensures
        initial_state(now).overlays_consistent(),
        initial_state(now).pending is None,
        !initial_state(now).search.is_active(),
{
}

/// In a list, a key leaves the overlays consistent.
proof fn lemma_list_key_consistent(s: AppView, kind: ResourceKind, key: KeyCode, now: u64)
    requires
        s.overlays_consistent(),
        !s.search.is_active(),
        s.pending is None,
        s.modes.current.spec_resource_kind() == Some(kind),
    ensures
        s.list_key(kind, key, now).0.overlays_consistent(),
{
    reveal(AppView::list_key);
    reveal(AppView::namespace_list_key);
    reveal(AppView::resource_list_key);
}

/// Outside the lists, a key leaves the overlays consistent.
proof fn lemma_other_keys_consistent(s: AppView, key: KeyCode)
    requires
        s.overlays_consistent(),
        !s.search.is_active(),
        s.pending is None,
    ensures
        s.detail_key(key).overlays_consistent(),
        s.help_key(key).overlays_consistent(),
        s.more_resources_key(key).overlays_consistent(),
        s.confirm_key(key).0.overlays_consistent(),
{
    reveal(AppView::detail_key);
    reveal(AppView::help_key);
    reveal(AppView::more_resources_key);
    reveal(AppView::confirm_key);
}

/// No key press leads out of the states in which at most one overlay is
/// open and the mode shows it.
pub proof fn lemma_key_keeps_overlays_consistent(s: AppView, key: KeyCode, now: u64)
    requires
        s.overlays_consistent(),
    ensures
        s.key_step(key, now).0.overlays_consistent(),
{
    if s.search.is_active() {
        reveal(AppView::search_key);
    } else if s.pending is Some {
        reveal(AppView::confirm_key);
    } else {
        reveal(AppView::mode_key);
        lemma_other_keys_consistent(s, key);
        match s.modes.current.spec_resource_kind() {
            Some(kind) => lemma_list_key_consistent(s, kind, key, now),
            None => {},
        }
    }
}

impl AppView {
    /// Every selection, every scroll offset and the search cursor are in
    /// range.
    pub open spec fn wf(self) -> bool {
        self.resources.wf() && self.scroll.wf() && self.search.wf()
    }
}

/// Moving the selection of the search target to a match keeps the
/// collections valid.
proof fn lemma_selecting_keeps_valid(s: AppView, index: Option<usize>)
    requires
        s.resources.wf(),
    ensures
        s.selecting_in_target(index).wf(),
{
    match (s.target_kind(), index) {
        (Some(kind), Some(i)) => {
            lemma_select_op_is_local(s.resources, kind, SelectOp::To(i), kind);
        },
        _ => {},
    }
}

/// The operations on modes and settings keep a valid state valid: they
/// touch neither selections nor offsets nor the search.
proof fn lemma_mode_operations_keep_valid(s: AppView, now: u64)
    requires
        s.wf(),
    ensures
        s.at_root().wf(),
        s.confirm_resolved().wf(),
        s.delete_requested().wf(),
        s.refresh_forced(now).wf(),
        forall|target: AppMode| (#[trigger] s.jumped(target)).wf(),
        forall|class: RefreshClass| (#[trigger] s.refresh_toggled(class)).wf(),
        forall|mode: Option<AppMode>| (#[trigger] s.jumped_to(mode)).wf(),
        forall|down: bool| (#[trigger] s.more_resources_moved(down)).wf(),
{
}

/// The operations on scroll offsets keep a valid state valid.
proof fn lemma_scroll_operations_keep_valid(s: AppView)
    requires
        s.wf(),
    ensures
        s.returned().wf(),
        forall|target: AppMode| (#[trigger] s.entered(target)).wf(),
        forall|op: ScrollOp| (#[trigger] s.scrolled(op)).wf(),
        (AppView { scroll: s.scroll.auto_follow_toggled(), ..s }).wf(),
{
}

/// The operations on selections keep a valid state valid.
proof fn lemma_selection_operations_keep_valid(s: AppView, kind: ResourceKind)
    requires
        s.wf(),
    ensures
        s.selected(kind, SelectOp::Up).wf(),
        s.selected(kind, SelectOp::Down).wf(),
        s.namespace_selected().wf(),
{
    lemma_select_op_is_local(s.resources, kind, SelectOp::Up, kind);
    lemma_select_op_is_local(s.resources, kind, SelectOp::Down, kind);
    lemma_namespace_switch_resets(s.resources, kind);
}

/// The operations of the search keep a valid state valid.
proof fn lemma_search_operations_keep_valid(s: AppView)
    requires
        s.wf(),
    ensures
        s.search_started().wf(),
        s.search_advanced().wf(),
        s.search_retreated().wf(),
        s.search_confirmed().wf(),
        s.search_cancelled().wf(),
        s.search_erased().wf(),
        forall|c: char| (#[trigger] s.search_typed(c)).wf(),
{
    lemma_selecting_keeps_valid(s, s.search.advanced().current_match());
    lemma_selecting_keeps_valid(s, s.search.retreated().current_match());
    lemma_selecting_keeps_valid(s, s.search.erased(s.target_names()).current_match());
    assert forall|c: char| (#[trigger] s.search_typed(c)).wf() by {
        lemma_selecting_keeps_valid(s, s.search.typed(c, s.target_names()).current_match());
    }
}

/// In a list, a key keeps a valid state valid.
proof fn lemma_list_key_keeps_valid(s: AppView, kind: ResourceKind, key: KeyCode, now: u64)
    requires
        s.wf(),
    ensures
        s.list_key(kind, key, now).0.wf(),
{
    lemma_mode_operations_keep_valid(s, now);
    lemma_scroll_operations_keep_valid(s);
    lemma_selection_operations_keep_valid(s, kind);
    lemma_search_operations_keep_valid(s);
    reveal(AppView::list_key);
    reveal(AppView::namespace_list_key);
    reveal(AppView::resource_list_key);
}

/// In the search overlay, a key keeps a valid state valid.
proof fn lemma_search_key_keeps_valid(s: AppView, key: KeyCode)
    requires
        s.wf(),
    ensures
        s.search_key(key).wf(),
{
    lemma_search_operations_keep_valid(s);
    reveal(AppView::search_key);
}

/// At the confirmation, a key keeps a valid state valid.
proof fn lemma_confirm_key_keeps_valid(s: AppView, key: KeyCode, now: u64)
    requires
        s.wf(),
    ensures
        s.confirm_key(key).0.wf(),
{
    lemma_mode_operations_keep_valid(s, now);
    reveal(AppView::confirm_key);
}

/// In a detail view, a key keeps a valid state valid.
proof fn lemma_detail_key_keeps_valid(s: AppView, key: KeyCode, now: u64)
    requires
        s.wf(),
    ensures
        s.detail_key(key).wf(),
{
    lemma_mode_operations_keep_valid(s, now);
    lemma_scroll_operations_keep_valid(s);
    reveal(AppView::detail_key);
}

/// In the help view and the menu of further resources, a key keeps a
/// valid state valid.
proof fn lemma_menu_keys_keep_valid(s: AppView, key: KeyCode, now: u64)
    requires
        s.wf(),
    ensures
        s.help_key(key).wf(),
        s.more_resources_key(key).wf(),
{
    lemma_mode_operations_keep_valid(s, now);
    lemma_scroll_operations_keep_valid(s);
    reveal(AppView::help_key);
    reveal(AppView::more_resources_key);
}

/// No key press leads out of the valid states: whatever is pressed, every
/// selection index stays inside its collection (0 in an empty one), every
/// scroll offset inside its bounds, and the search cursor inside the
/// matches.
pub proof fn lemma_key_keeps_state_valid(s: AppView, key: KeyCode, now: u64)
    requires
        s.wf(),
    ensures
        s.key_step(key, now).0.wf(),
{
    lemma_search_key_keeps_valid(s, key);
    lemma_confirm_key_keeps_valid(s, key, now);
    lemma_detail_key_keeps_valid(s, key, now);
    lemma_menu_keys_keep_valid(s, key, now);
    reveal(AppView::mode_key);
    match s.modes.current.spec_resource_kind() {
        Some(kind) => lemma_list_key_keeps_valid(s, kind, key, now),
        None => {
            lemma_mode_operations_keep_valid(s, now);
        },
    }
}

/// No event leads out of the valid states.
pub proof fn lemma_event_keeps_state_valid(s: AppView, event: Event, now: u64)
    requires
        s.wf(),
    ensures
        s.event_step(event, now).0.wf(),
{
    match event {
        Event::Key(key) => {
            lemma_key_keeps_state_valid(s, key.code, now);
        },
        Event::Mouse(mouse) => {
            lemma_scroll_operations_keep_valid(s);
        },
        Event::Resize(_, height) => {},
    }
}

/// Replacing the items of one kind keeps the collections valid: the
/// selection survives only where the number of items stays the same, and
/// is 0 else.
pub proof fn lemma_payload_keeps_collections_valid(
    r: ResourcesView,
    kind: ResourceKind,
    payload: FetchPayload,
)
    requires
        r.wf(),
    ensures
        r.with_payload(kind, payload).wf(),
{
    reveal(ResourcesView::wf);
}

/// No answer to a fetch leads out of the valid states, and none touches
/// modes, search or the pending confirmation: what the overlays show
/// stays consistent.
pub proof fn lemma_fetch_keeps_state_valid(
    s: AppView,
    request: FetchRequestView,
    payload: Option<FetchPayload>,
    now: u64,
)
    requires
        s.wf(),
    ensures
        s.fetched(request, payload, now).wf(),
        s.fetched(request, payload, now).modes == s.modes,
        s.fetched(request, payload, now).search == s.search,
        s.fetched(request, payload, now).pending == s.pending,
        s.overlays_consistent() ==> s.fetched(request, payload, now).overlays_consistent(),
{
    match (request, payload) {
        (FetchRequestView::List { kind, .. }, Some(p)) => {
            lemma_payload_keeps_collections_valid(s.resources, kind, p);
        },
        _ => {},
    }
}

/// The state after a whole sequence of events, each with the time at which
/// it came, first event first.
pub open spec fn after_events(s: AppView, events: Seq<(Event, u64)>) -> AppView
    decreases events.len(),
{
    if events.len() == 0 {
        s
    } else {
        after_events(s, events.drop_last()).event_step(events.last().0, events.last().1).0
    }
}

/// No event leads out of the states in which at most one overlay is open
/// and the mode shows it.
pub proof fn lemma_event_keeps_overlays_consistent(s: AppView, event: Event, now: u64)
    requires
        s.overlays_consistent(),
    ensures
        s.event_step(event, now).0.overlays_consistent(),
{
    match event {
        Event::Key(key) => {
            lemma_key_keeps_overlays_consistent(s, key.code, now);
        },
        Event::Mouse(mouse) => {},
        Event::Resize(_, height) => {},
    }
}

/// Whatever sequence of events reaches the dashboard after start-up, every
/// selection index stays inside its collection (0 in an empty one), every
/// scroll offset stays inside its bounds, and at most one overlay is
/// open.
pub proof fn lemma_events_keep_state_valid(s: AppView, events: Seq<(Event, u64)>)
    requires
        s.wf(),
        s.overlays_consistent(),
    ensures
        after_events(s, events).wf(),
        after_events(s, events).overlays_consistent(),
    decreases events.len(),
{
    if events.len() > 0 {
        lemma_events_keep_state_valid(s, events.drop_last());
        let before = after_events(s, events.drop_last());
        lemma_event_keeps_state_valid(before, events.last().0, events.last().1);
        lemma_event_keeps_overlays_consistent(before, events.last().0, events.last().1);
    }
}

/// The state at start-up is valid.
pub proof fn lemma_initial_state_is_valid(now: u64)
    ensures
        initial_state(now).wf(),
{
    reveal(ResourcesView::wf);
}

} // verus!
