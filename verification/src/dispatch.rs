//! The input dispatcher: routes every event to exactly one handler.
//!
//! The order is fixed. While the search overlay is open, every key goes to
//! the search. Else, while a destructive action waits for its answer, every
//! key goes to the confirmation. Only else the current mode decides. So a
//! user in the middle of a search or of a confirmation cannot navigate or
//! delete by accident.
//!
//! Each handler is one transition function on the view of the state. They
//! are opaque, so that a proof about one handler does not unfold the
//! others: a proof that needs what a key does in a handler reveals that
//! handler's function.

use vstd::prelude::*;
use crate::app::{AppState, AppView, Effect, EffectView, MORE_RESOURCES_LAST};
use crate::events::{Event, KeyCode, KeyEvent, MouseEvent, MouseEventKind};
use crate::mode::{AppMode, ResourceKind};
use crate::refresh::RefreshClass;
use crate::scroll::{viewport_height_for, ScrollOp, CHROME_ROWS};
use crate::selection::SelectOp;

verus! {

/// The list that a digit key or function key of the namespace list jumps
/// to.
pub open spec fn spec_shortcut_target(n: u8) -> Option<AppMode> {
    if n == 1 {
        Some(AppMode::PodList)
    } else if n == 2 {
        Some(AppMode::ServiceList)
    } else if n == 3 {
        Some(AppMode::DeploymentList)
    } else if n == 4 {
        Some(AppMode::JobList)
    } else if n == 5 {
        Some(AppMode::DaemonSetList)
    } else if n == 6 {
        Some(AppMode::ConfigMapList)
    } else if n == 7 {
        Some(AppMode::SecretList)
    } else {
        None
    }
}

/// The list that a digit key or function key of the namespace list jumps
/// to.
#[verifier::when_used_as_spec(spec_shortcut_target)]
pub fn shortcut_target(n: u8) -> (target: Option<AppMode>)
    ensures
        target == spec_shortcut_target(n),
{
    match n {
        1 => Some(AppMode::PodList),
        2 => Some(AppMode::ServiceList),
        3 => Some(AppMode::DeploymentList),
        4 => Some(AppMode::JobList),
        5 => Some(AppMode::DaemonSetList),
        6 => Some(AppMode::ConfigMapList),
        7 => Some(AppMode::SecretList),
        _ => None,
    }
}

/// The list behind entry `index` of the menu of further resources.
pub open spec fn spec_more_resources_target(index: nat) -> Option<AppMode> {
    if index == 0 {
        Some(AppMode::PVCList)
    } else if index == 1 {
        Some(AppMode::PVList)
    } else if index == 2 {
        Some(AppMode::NodeList)
    } else if index == 3 {
        Some(AppMode::ConfigMapList)
    } else if index == 4 {
        Some(AppMode::SecretList)
    } else if index == 5 {
        Some(AppMode::JobList)
    } else if index == 6 {
        Some(AppMode::DaemonSetList)
    } else if index == 7 {
        Some(AppMode::StatefulSetList)
    } else if index == 8 {
        Some(AppMode::IngressList)
    } else {
        None
    }
}

/// The list behind entry `index` of the menu of further resources.
pub fn more_resources_target(index: usize) -> (target: Option<AppMode>)
    ensures
        target == spec_more_resources_target(index as nat),
{
    match index {
        0 => Some(AppMode::PVCList),
        1 => Some(AppMode::PVList),
        2 => Some(AppMode::NodeList),
        3 => Some(AppMode::ConfigMapList),
        4 => Some(AppMode::SecretList),
        5 => Some(AppMode::JobList),
        6 => Some(AppMode::DaemonSetList),
        7 => Some(AppMode::StatefulSetList),
        8 => Some(AppMode::IngressList),
        _ => None,
    }
}

/// The number that a digit key `1` to `9` stands for.
pub open spec fn spec_digit_of(c: char) -> Option<u8> {
    if '1' <= c && c <= '9' {
        Some(((c as u8) - 48) as u8)
    } else {
        None
    }
}

/// The number that a digit key `1` to `9` stands for.
#[verifier::when_used_as_spec(spec_digit_of)]
pub fn digit_of(c: char) -> (digit: Option<u8>)
    ensures
        digit == spec_digit_of(c),
{
    if '1' <= c && c <= '9' {
        Some((c as u8) - 48)
    } else {
        None
    }
}

impl AppView {
    /// The state after a jump to `target`, if there is one.
    pub open spec fn jumped_to(self, target: Option<AppMode>) -> AppView {
        match target {
            Some(mode) => self.jumped(mode),
            None => self,
        }
    }

    /// What a key does while the search overlay is open.
    #[verifier::opaque]
    pub open spec fn search_key(self, key: KeyCode) -> AppView {
        match key {
            KeyCode::Enter => self.search_confirmed(),
            KeyCode::Esc => self.search_cancelled(),
            KeyCode::Backspace => self.search_erased(),
            KeyCode::Char(c) => self.search_typed(c),
            KeyCode::Down => self.search_advanced(),
            KeyCode::Tab => self.search_advanced(),
            KeyCode::Up => self.search_retreated(),
            KeyCode::BackTab => self.search_retreated(),
            _ => self,
        }
    }

    /// What a key does while a destructive action waits for its answer:
    /// `y` confirms and releases the action, `n` and Esc deny, and every
    /// other key is ignored.
    #[verifier::opaque]
    pub open spec fn confirm_key(self, key: KeyCode) -> (AppView, EffectView) {
        if key == KeyCode::Char('y') || key == KeyCode::Char('Y') {
            (
                self.confirm_resolved(),
                match self.pending {
                    Some(action) => EffectView::Delete(action),
                    None => EffectView::Nothing,
                },
            )
        } else if key == KeyCode::Char('n') || key == KeyCode::Char('N') || key == KeyCode::Esc {
            (self.confirm_resolved(), EffectView::Nothing)
        } else {
            (self, EffectView::Nothing)
        }
    }

    /// The shell to open for the exec key: in the selected pod, if there
    /// is one.
    pub open spec fn exec_effect(self) -> EffectView {
        match self.resources.selected_name(ResourceKind::Pod) {
            Some(pod) => EffectView::Exec { namespace: self.current_namespace, pod },
            None => EffectView::Nothing,
        }
    }

    /// The state after entering the detail view `target` from a list, which
    /// needs an item to show: on an empty list nothing changes.
    pub open spec fn entered_from_list(self, kind: ResourceKind, target: AppMode) -> AppView {
        if self.resources.len(kind) > 0 {
            self.entered(target)
        } else {
            self
        }
    }

    /// What a key does in the namespace list, beyond the keys that all
    /// lists share.
    #[verifier::opaque]
    pub open spec fn namespace_list_key(self, key: KeyCode) -> AppView {
        match key {
            KeyCode::Enter => self.namespace_selected(),
            KeyCode::Char(c) => if c == '8' {
                self.entered(AppMode::MoreResources)
            } else if c == '?' {
                self.entered(AppMode::Help)
            } else {
                match spec_digit_of(c) {
                    Some(n) => self.jumped_to(spec_shortcut_target(n)),
                    None => self,
                }
            },
            KeyCode::F(n) => self.jumped_to(spec_shortcut_target(n)),
            _ => self,
        }
    }

    /// What a key does in the list of `kind`, beyond the keys that all
    /// lists share; `kind` is not the namespace.
    #[verifier::opaque]
    pub open spec fn resource_list_key(self, kind: ResourceKind, key: KeyCode) -> (
        AppView,
        EffectView,
    ) {
        match key {
            KeyCode::Char(c) => if c == ' ' {
                (self.entered_from_list(kind, AppMode::Describe), EffectView::Nothing)
            } else if c == 'y' || c == 'Y' {
                (self.entered_from_list(kind, AppMode::YamlView), EffectView::Nothing)
            } else if c == 'd' || c == 'D' {
                (self.delete_requested(), EffectView::Nothing)
            } else if kind == ResourceKind::Pod && (c == 'l' || c == 'L') {
                (self.entered_from_list(kind, AppMode::Logs), EffectView::Nothing)
            } else if kind == ResourceKind::Pod && (c == 't' || c == 'T') {
                (self.entered(AppMode::TopView), EffectView::Nothing)
            } else if kind == ResourceKind::Pod && (c == 'e' || c == 'E') {
                (self, self.exec_effect())
            } else {
                (self, EffectView::Nothing)
            },
            _ => (self, EffectView::Nothing),
        }
    }

    /// What a key does in the list of `kind`, the current mode being that
    /// list.
    #[verifier::opaque]
    pub open spec fn list_key(self, kind: ResourceKind, key: KeyCode, now: u64) -> (
        AppView,
        EffectView,
    ) {
        if key == KeyCode::Char('j') || key == KeyCode::Down {
            (self.selected(kind, SelectOp::Down), EffectView::Nothing)
        } else if key == KeyCode::Char('k') || key == KeyCode::Up {
            (self.selected(kind, SelectOp::Up), EffectView::Nothing)
        } else if key == KeyCode::Char('r') || key == KeyCode::Char('R') {
            (self.refresh_forced(now), EffectView::Nothing)
        } else if key == KeyCode::Char('/') {
            (self.search_started(), EffectView::Nothing)
        } else if key == KeyCode::Char('n') {
            (self.search_advanced(), EffectView::Nothing)
        } else if key == KeyCode::Char('N') {
            (self.search_retreated(), EffectView::Nothing)
        } else if key == KeyCode::Tab {
            (self.jumped(self.modes.current.spec_cycle_forward()), EffectView::Nothing)
        } else if key == KeyCode::BackTab {
            (self.jumped(self.modes.current.spec_cycle_backward()), EffectView::Nothing)
        } else if key == KeyCode::Esc {
            (self.at_root(), EffectView::Nothing)
        } else if kind == ResourceKind::Namespace {
            (self.namespace_list_key(key), EffectView::Nothing)
        } else {
            self.resource_list_key(kind, key)
        }
    }

    /// What a key does in one of the four detail views.
    #[verifier::opaque]
    pub open spec fn detail_key(self, key: KeyCode) -> AppView {
        let mode = self.modes.current;
        if key == KeyCode::Char('j') || key == KeyCode::Down {
            self.scrolled(ScrollOp::Down)
        } else if key == KeyCode::Char('k') || key == KeyCode::Up {
            self.scrolled(ScrollOp::Up)
        } else if key == KeyCode::PageDown {
            self.scrolled(ScrollOp::PageDown)
        } else if key == KeyCode::PageUp {
            self.scrolled(ScrollOp::PageUp)
        } else if key == KeyCode::Esc {
            self.returned()
        } else if mode == AppMode::TopView {
            self
        } else if key == KeyCode::Char('m') || key == KeyCode::Char('M') {
            AppView { text_selection_mode: !self.text_selection_mode, ..self }
        } else if key == KeyCode::Char('r') || key == KeyCode::Char('R') {
            self.refresh_toggled(
                if mode == AppMode::Logs {
                    RefreshClass::Logs
                } else if mode == AppMode::Describe {
                    RefreshClass::Describe
                } else {
                    RefreshClass::Yaml
                },
            )
        } else if mode == AppMode::Logs && (key == KeyCode::Char('a') || key == KeyCode::Char(
            'A',
        )) {
            AppView { scroll: self.scroll.auto_follow_toggled(), ..self }
        } else {
            self
        }
    }

    /// What a key does in the help view and in a search mode without an
    /// open overlay: Esc (and Enter in the latter) leads back.
    #[verifier::opaque]
    pub open spec fn help_key(self, key: KeyCode) -> AppView {
        if key == KeyCode::Esc || (self.modes.current == AppMode::Search && key
            == KeyCode::Enter) {
            self.returned()
        } else {
            self
        }
    }

    /// What a key does in the menu of further resources.
    #[verifier::opaque]
    pub open spec fn more_resources_key(self, key: KeyCode) -> AppView {
        match key {
            KeyCode::Down => self.more_resources_moved(true),
            KeyCode::Up => self.more_resources_moved(false),
            KeyCode::Enter => self.jumped_to(
                spec_more_resources_target(self.selected_more_resource_index),
            ),
            KeyCode::Esc => self.returned(),
            KeyCode::Char(c) => if c == 'j' {
                self.more_resources_moved(true)
            } else if c == 'k' {
                self.more_resources_moved(false)
            } else {
                match spec_digit_of(c) {
                    Some(n) => self.jumped_to(spec_more_resources_target((n - 1) as nat)),
                    None => self,
                }
            },
            _ => self,
        }
    }

    /// The state after the selection of the menu of further resources
    /// moved one entry down or up, stopping at the ends.
    pub open spec fn more_resources_moved(self, down: bool) -> AppView {
        AppView {
            selected_more_resource_index: if down {
                if self.selected_more_resource_index < MORE_RESOURCES_LAST {
                    self.selected_more_resource_index + 1
                } else {
                    self.selected_more_resource_index
                }
            } else {
                if self.selected_more_resource_index > 0 {
                    (self.selected_more_resource_index - 1) as nat
                } else {
                    0
                }
            },
            ..self
        }
    }

    /// What a key does when neither overlay captures it: `q` asks to
    /// leave, `i` switches the language, and every other key goes to the
    /// handler of the current mode.
    #[verifier::opaque]
    pub open spec fn mode_key(self, key: KeyCode, now: u64) -> (AppView, EffectView) {
        let mode = self.modes.current;
        if key == KeyCode::Char('q') {
            (AppView { should_quit: true, ..self }, EffectView::Nothing)
        } else if key == KeyCode::Char('i') || key == KeyCode::Char('I') {
            (AppView { language_chinese: !self.language_chinese, ..self }, EffectView::Nothing)
        } else if mode.spec_resource_kind() is Some {
            self.list_key(mode.spec_resource_kind().unwrap(), key, now)
        } else if mode.spec_is_detail_view() {
            (self.detail_key(key), EffectView::Nothing)
        } else if mode == AppMode::Confirm {
            self.confirm_key(key)
        } else if mode == AppMode::MoreResources {
            (self.more_resources_key(key), EffectView::Nothing)
        } else {
            (self.help_key(key), EffectView::Nothing)
        }
    }

    /// The whole transition for a key press at time `now`: the next state
    /// and what the surrounding program is asked to do.
    pub open spec fn key_step(self, key: KeyCode, now: u64) -> (AppView, EffectView) {
        if self.search.is_active() {
            (self.search_key(key), EffectView::Nothing)
        } else if self.pending is Some {
            self.confirm_key(key)
        } else {
            self.mode_key(key, now)
        }
    }

    /// The transition for a mouse event: the wheel scrolls the current
    /// detail view by one line, unless an overlay captures the input.
    pub open spec fn mouse_step(self, kind: MouseEventKind) -> AppView {
        if self.search.is_active() || self.pending is Some
            || !self.modes.current.spec_is_detail_view() {
            self
        } else {
            match kind {
                MouseEventKind::ScrollUp => self.scrolled(ScrollOp::Up),
                MouseEventKind::ScrollDown => self.scrolled(ScrollOp::Down),
                MouseEventKind::Other => self,
            }
        }
    }

    /// The transition for a terminal of `height` rows: the viewport of
    /// every detail view is what the fixed rows leave, and offsets that no
    /// longer fit are pulled back.
    pub open spec fn resize_step(self, height: u16) -> AppView {
        AppView {
            scroll: self.scroll.with_viewport_height(
                if height > CHROME_ROWS {
                    (height - CHROME_ROWS) as nat
                } else {
                    0
                },
            ),
            ..self
        }
    }

    /// The whole transition for an event at time `now`.
    pub open spec fn event_step(self, event: Event, now: u64) -> (AppView, EffectView) {
        match event {
            Event::Key(key) => self.key_step(key.code, now),
            Event::Mouse(mouse) => (self.mouse_step(mouse.kind), EffectView::Nothing),
            Event::Resize(_, height) => (self.resize_step(height), EffectView::Nothing),
        }
    }
}

impl AppState {
    /// Jumps to `target`, if there is one.
    fn jump_to(&mut self, target: Option<AppMode>)
        ensures
            final(self)@ == old(self)@.jumped_to(target),
    {
        match target {
            Some(mode) => self.jump(mode),
            None => {},
        }
    }

    /// Handles a key while the search overlay is open: Enter confirms, Esc
    /// cancels, Backspace and characters edit the query, and the arrow
    /// and tabulator keys step through the matches.
    pub fn handle_search_navigation(&mut self, key: KeyCode)
        ensures
            final(self)@ == old(self)@.search_key(key),
    {
        proof {
            reveal(AppView::search_key);
        }
        match key {
            KeyCode::Enter => self.confirm_search(),
            KeyCode::Esc => self.cancel_search(),
            KeyCode::Backspace => self.backspace(),
            KeyCode::Char(c) => self.type_char(c),
            KeyCode::Down | KeyCode::Tab => self.search_next(),
            KeyCode::Up | KeyCode::BackTab => self.search_previous(),
            _ => {},
        }
    }

    /// Handles a key while a destructive action waits for its answer.
    /// Only `y` releases the action, as a `Delete` effect.
    pub fn handle_confirm_navigation(&mut self, key: KeyCode) -> (effect: Effect)
        ensures
            (final(self)@, effect@) == old(self)@.confirm_key(key),
    {
        proof {
            reveal(AppView::confirm_key);
        }
        match key {
            KeyCode::Char('y') | KeyCode::Char('Y') => {
                match self.confirm() {
                    Some(action) => Effect::Delete(action),
                    None => Effect::Nothing,
                }
            },
            KeyCode::Char('n') | KeyCode::Char('N') | KeyCode::Esc => {
                self.deny();
                Effect::Nothing
            },
            _ => Effect::Nothing,
        }
    }

    /// Enters the detail view `target` from the list of `kind`, unless the
    /// list is empty.
    fn enter_from_list(&mut self, kind: ResourceKind, target: AppMode)
        ensures
            final(self)@ == old(self)@.entered_from_list(kind, target),
    {
        if !self.resources.is_empty(kind) {
            self.enter_overlay_or_detail(target);
        }
    }

    /// Handles the keys that only the namespace list has: Enter selects
    /// the namespace, the digits and function keys 1 to 7 jump to a list,
    /// `8` opens the menu of further resources and `?` the help.
    fn handle_namespace_list_navigation(&mut self, key: KeyCode)
        ensures
            final(self)@ == old(self)@.namespace_list_key(key),
    {
        proof {
            reveal(AppView::namespace_list_key);
        }
        match key {
            KeyCode::Enter => {
                self.select_namespace();
            },
            KeyCode::Char(c) => {
                if c == '8' {
                    self.enter_overlay_or_detail(AppMode::MoreResources);
                } else if c == '?' {
                    self.enter_overlay_or_detail(AppMode::Help);
                } else {
                    match digit_of(c) {
                        Some(n) => self.jump_to(shortcut_target(n)),
                        None => {},
                    }
                }
            },
            KeyCode::F(n) => self.jump_to(shortcut_target(n)),
            _ => {},
        }
    }

    /// The effect of the exec key: a shell in the selected pod.
    fn exec_request(&self) -> (effect: Effect)
        ensures
            effect@ == self@.exec_effect(),
    {
        match self.resources.selected_name(ResourceKind::Pod) {
            Some(pod) => Effect::Exec {
                namespace: self.current_namespace.clone(),
                pod: pod.clone(),
            },
            None => Effect::Nothing,
        }
    }

    /// Handles the keys of the lists other than the namespace list: Space
    /// describes, `y` shows the manifest, `d` asks to delete; the pod
    /// list also has `l` for logs, `t` for metrics and `e` for a shell.
    fn handle_resource_list_navigation(&mut self, kind: ResourceKind, key: KeyCode) -> (effect:
        Effect)
        ensures
            (final(self)@, effect@) == old(self)@.resource_list_key(kind, key),
    {
        proof {
            reveal(AppView::resource_list_key);
        }
        match key {
            KeyCode::Char(c) => {
                if c == ' ' {
                    self.enter_from_list(kind, AppMode::Describe);
                    Effect::Nothing
                } else if c == 'y' || c == 'Y' {
                    self.enter_from_list(kind, AppMode::YamlView);
                    Effect::Nothing
                } else if c == 'd' || c == 'D' {
                    self.request_delete();
                    Effect::Nothing
                } else if kind == ResourceKind::Pod && (c == 'l' || c == 'L') {
                    self.enter_from_list(kind, AppMode::Logs);
                    Effect::Nothing
                } else if kind == ResourceKind::Pod && (c == 't' || c == 'T') {
                    self.enter_overlay_or_detail(AppMode::TopView);
                    Effect::Nothing
                } else if kind == ResourceKind::Pod && (c == 'e' || c == 'E') {
                    self.exec_request()
                } else {
                    Effect::Nothing
                }
            },
            _ => Effect::Nothing,
        }
    }

    /// Handles a key in the list of `kind`: `j`/`k` and the arrows move
    /// the selection, `r` forces a refresh, `/` opens the search, `n`/`N`
    /// repeat it, the tabulator keys cycle through the lists, Esc leads
    /// to the namespace list, and the rest is particular to the list.
    pub fn handle_list_navigation(&mut self, kind: ResourceKind, key: KeyCode, now: u64) -> (effect:
        Effect)
        ensures
            (final(self)@, effect@) == old(self)@.list_key(kind, key, now),
    {
        proof {
            reveal(AppView::list_key);
        }
        match key {
            KeyCode::Char('j') | KeyCode::Down => {
                self.move_down(kind);
                Effect::Nothing
            },
            KeyCode::Char('k') | KeyCode::Up => {
                self.move_up(kind);
                Effect::Nothing
            },
            KeyCode::Char('r') | KeyCode::Char('R') => {
                self.force_refresh_current_mode(now);
                Effect::Nothing
            },
            KeyCode::Char('/') => {
                self.start_search();
                Effect::Nothing
            },
            KeyCode::Char('n') => {
                self.search_next();
                Effect::Nothing
            },
            KeyCode::Char('N') => {
                self.search_previous();
                Effect::Nothing
            },
            KeyCode::Tab => {
                self.cycle_forward();
                Effect::Nothing
            },
            KeyCode::BackTab => {
                self.cycle_backward();
                Effect::Nothing
            },
            KeyCode::Esc => {
                self.return_to_root();
                Effect::Nothing
            },
            _ => {
                if kind == ResourceKind::Namespace {
                    self.handle_namespace_list_navigation(key);
                    Effect::Nothing
                } else {
                    self.handle_resource_list_navigation(kind, key)
                }
            },
        }
    }

    /// Handles a key in one of the four detail views: `j`/`k`, the arrows
    /// and the page keys scroll, Esc leads back; the log, description and
    /// manifest views also have `m` for the mouse mode and `r` for their
    /// refresh, and the log view `a` for auto-follow.
    pub fn handle_detail_navigation(&mut self, key: KeyCode)
        ensures
            final(self)@ == old(self)@.detail_key(key),
    {
        proof {
            reveal(AppView::detail_key);
        }
        let mode = self.modes.current;
        match key {
            KeyCode::Char('j') | KeyCode::Down => self.scroll.scroll_down(mode),
            KeyCode::Char('k') | KeyCode::Up => self.scroll.scroll_up(mode),
            KeyCode::PageDown => self.scroll.page_down(mode),
            KeyCode::PageUp => self.scroll.page_up(mode),
            KeyCode::Esc => self.return_to_previous(),
            KeyCode::Char(c) => {
                if mode == AppMode::TopView {
                } else if c == 'm' || c == 'M' {
                    self.toggle_mouse_mode();
                } else if c == 'r' || c == 'R' {
                    let class = if mode == AppMode::Logs {
                        RefreshClass::Logs
                    } else if mode == AppMode::Describe {
                        RefreshClass::Describe
                    } else {
                        RefreshClass::Yaml
                    };
                    self.toggle_refresh(class);
                } else if mode == AppMode::Logs && (c == 'a' || c == 'A') {
                    self.scroll.toggle_auto_follow();
                }
            },
            _ => {},
        }
    }

    /// Handles a key in the help view: Esc leads back.
    pub fn handle_help_navigation(&mut self, key: KeyCode)
        ensures
            final(self)@ == old(self)@.help_key(key),
    {
        proof {
            reveal(AppView::help_key);
        }
        let back = match key {
            KeyCode::Esc => true,
            KeyCode::Enter => self.modes.current == AppMode::Search,
            _ => false,
        };
        if back {
            self.return_to_previous();
        }
    }

    /// Moves the selection of the menu of further resources.
    fn move_more_resources(&mut self, down: bool)
        ensures
            final(self)@ == old(self)@.more_resources_moved(down),
    {
        if down {
            if self.selected_more_resource_index < MORE_RESOURCES_LAST {
                self.selected_more_resource_index = self.selected_more_resource_index + 1;
            }
        } else {
            if self.selected_more_resource_index > 0 {
                self.selected_more_resource_index = self.selected_more_resource_index - 1;
            }
        }
    }

    /// Handles a key in the menu of further resources: `j`/`k` and the
    /// arrows move, Enter and the digits 1 to 9 jump to a list, Esc leads
    /// back.
    pub fn handle_more_resources_navigation(&mut self, key: KeyCode)
        ensures
            final(self)@ == old(self)@.more_resources_key(key),
    {
        proof {
            reveal(AppView::more_resources_key);
        }
        match key {
            KeyCode::Down => self.move_more_resources(true),
            KeyCode::Up => self.move_more_resources(false),
            KeyCode::Enter => self.jump_to(
                more_resources_target(self.selected_more_resource_index),
            ),
            KeyCode::Esc => self.return_to_previous(),
            KeyCode::Char(c) => {
                if c == 'j' {
                    self.move_more_resources(true);
                } else if c == 'k' {
                    self.move_more_resources(false);
                } else {
                    match digit_of(c) {
                        Some(n) => self.jump_to(more_resources_target((n - 1) as usize)),
                        None => {},
                    }
                }
            },
            _ => {},
        }
    }

    /// Handles a key that no overlay captures.
    fn handle_mode_key(&mut self, key: KeyCode, now: u64) -> (effect: Effect)
        ensures
            (final(self)@, effect@) == old(self)@.mode_key(key, now),
    {
        proof {
            reveal(AppView::mode_key);
        }
        match key {
            KeyCode::Char('q') => {
                self.should_quit = true;
                return Effect::Nothing;
            },
            KeyCode::Char('i') | KeyCode::Char('I') => {
                self.language_chinese = !self.language_chinese;
                return Effect::Nothing;
            },
            _ => {},
        }
        let mode = self.modes.current;
        match mode.resource_kind() {
            Some(kind) => {
                return self.handle_list_navigation(kind, key, now);
            },
            None => {},
        }
        if mode.is_detail_view() {
            self.handle_detail_navigation(key);
            Effect::Nothing
        } else if mode == AppMode::Confirm {
            self.handle_confirm_navigation(key)
        } else if mode == AppMode::MoreResources {
            self.handle_more_resources_navigation(key);
            Effect::Nothing
        } else {
            self.handle_help_navigation(key);
            Effect::Nothing
        }
    }

    /// Handles a key press at time `now` and returns what the surrounding
    /// program is asked to do.
    ///
    /// While the search overlay is open the key goes to the search and to
    /// nothing else; else, while a destructive action waits for its
    /// answer, to the confirmation and to nothing else; else to the
    /// handler of the current mode. A `Delete` effect is returned only
    /// for `y` on a pending action.
    pub fn handle_key_event(&mut self, key_event: KeyEvent, now: u64) -> (effect: Effect)
        ensures
            (final(self)@, effect@) == old(self)@.key_step(key_event.code, now),
    {
        if self.search.is_active() {
            self.handle_search_navigation(key_event.code);
            Effect::Nothing
        } else if self.confirm.is_pending() {
            self.handle_confirm_navigation(key_event.code)
        } else {
            self.handle_mode_key(key_event.code, now)
        }
    }

    /// Handles a mouse event: in a detail view the wheel scrolls by one
    /// line; everywhere else, and while an overlay captures the input,
    /// the mouse is ignored.
    pub fn handle_mouse_event(&mut self, mouse_event: MouseEvent)
        ensures
            final(self)@ == old(self)@.mouse_step(mouse_event.kind),
    {
        if self.search.is_active() || self.confirm.is_pending()
            || !self.modes.current.is_detail_view() {
            return ;
        }
        match mouse_event.kind {
            MouseEventKind::ScrollUp => self.scroll.scroll_up(self.modes.current),
            MouseEventKind::ScrollDown => self.scroll.scroll_down(self.modes.current),
            MouseEventKind::Other => {},
        }
    }

    /// Handles a change of the terminal to `height` rows.
    pub fn handle_resize(&mut self, height: u16)
        ensures
            final(self)@ == old(self)@.resize_step(height),
    {
        self.scroll.set_viewport_height(viewport_height_for(height));
    }

    /// Handles any event at time `now`.
    pub fn handle_event(&mut self, event: Event, now: u64) -> (effect: Effect)
        ensures
            (final(self)@, effect@) == old(self)@.event_step(event, now),
    {
        match event {
            Event::Key(key) => self.handle_key_event(key, now),
            Event::Mouse(mouse) => {
                self.handle_mouse_event(mouse);
                Effect::Nothing
            },
            Event::Resize(_, height) => {
                self.handle_resize(height);
                Effect::Nothing
            },
        }
    }
}

} // verus!
