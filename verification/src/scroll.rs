//! Scroll offsets of the four detail views.

use vstd::prelude::*;
use crate::mode::AppMode;

verus! {

/// Number of lines that a page key scrolls.
pub const PAGE_SIZE: usize = 10;

/// Rows of the terminal that never show content: header, footer, command
/// line and the border of the content area.
pub const CHROME_ROWS: u16 = 9;

/// The largest offset at which the last line of the content is still inside
/// the viewport: `max(0, content_length - viewport_height)`.
pub open spec fn max_offset(content_length: nat, viewport_height: nat) -> nat {
    if content_length > viewport_height {
        (content_length - viewport_height) as nat
    } else {
        0
    }
}

/// The smaller of two numbers.
pub open spec fn min_nat(a: nat, b: nat) -> nat {
    if a <= b {
        a
    } else {
        b
    }
}

/// What a `ScrollPosition` holds.
pub ghost struct ScrollView {
    pub offset: nat,
    pub content_length: nat,
    pub viewport_height: nat,
}

impl ScrollView {
    /// The largest offset this view allows.
    pub open spec fn max_offset(self) -> nat {
        max_offset(self.content_length, self.viewport_height)
    }

    /// The offset is inside `[0, max_offset]`.
    pub open spec fn wf(self) -> bool {
        self.offset <= self.max_offset()
    }

    /// The view with another offset.
    pub open spec fn at(self, offset: nat) -> ScrollView {
        ScrollView { offset, ..self }
    }

    /// The view scrolled down by `lines`, stopping at the largest offset.
    pub open spec fn scrolled_down_by(self, lines: nat) -> ScrollView {
        self.at(min_nat(self.offset + lines, self.max_offset()))
    }

    /// The view scrolled up by `lines`, stopping at 0.
    pub open spec fn scrolled_up_by(self, lines: nat) -> ScrollView {
        self.at(
            if self.offset >= lines {
                (self.offset - lines) as nat
            } else {
                0
            },
        )
    }

    /// The view after one scroll operation.
    pub open spec fn applied(self, op: ScrollOp) -> ScrollView {
        match op {
            ScrollOp::Up => self.scrolled_up_by(1),
            ScrollOp::Down => self.scrolled_down_by(1),
            ScrollOp::PageUp => self.scrolled_up_by(PAGE_SIZE as nat),
            ScrollOp::PageDown => self.scrolled_down_by(PAGE_SIZE as nat),
            ScrollOp::Reset => self.at(0),
            ScrollOp::End => self.at(self.max_offset()),
        }
    }

    /// The view after its content changed to `content_length` lines. With
    /// `follow` the offset goes to the end of the new content; without, it
    /// stays where it was unless the content became too short for it.
    pub open spec fn with_content_length(self, content_length: nat, follow: bool) -> ScrollView {
        let limit = max_offset(content_length, self.viewport_height);
        ScrollView {
            offset: if follow {
                limit
            } else {
                min_nat(self.offset, limit)
            },
            content_length,
            viewport_height: self.viewport_height,
        }
    }

    /// The view after the viewport changed to `viewport_height` lines.
    pub open spec fn with_viewport_height(self, viewport_height: nat) -> ScrollView {
        ScrollView {
            offset: min_nat(self.offset, max_offset(self.content_length, viewport_height)),
            content_length: self.content_length,
            viewport_height,
        }
    }

    /// The view after `times` single-line scrolls down.
    pub open spec fn after_scroll_downs(self, times: nat) -> ScrollView
        decreases times,
    {
        if times == 0 {
            self
        } else {
            self.after_scroll_downs((times - 1) as nat).scrolled_down_by(1)
        }
    }
}

/// A scroll operation on one view.
#[derive(Debug, Clone, Copy, PartialEq, Eq, Structural)]
pub enum ScrollOp {
    Up,
    Down,
    PageUp,
    PageDown,
    Reset,
    End,
}

/// Every scroll operation keeps the offset inside `[0, max_offset]`.
pub proof fn lemma_scroll_ops_stay_clamped(v: ScrollView, op: ScrollOp)
    requires
        v.wf(),
    ensures
        v.applied(op).wf(),
        v.applied(op).content_length == v.content_length,
        v.applied(op).viewport_height == v.viewport_height,
{
}

/// `times` single-line scrolls down move a valid view by `times` lines, as
/// far as the largest offset.
pub proof fn lemma_after_scroll_downs(v: ScrollView, times: nat)
    requires
        v.wf(),
    ensures
        v.after_scroll_downs(times) == v.at(min_nat(v.offset + times, v.max_offset())),
    decreases times,
{
    if times > 0 {
        lemma_after_scroll_downs(v, (times - 1) as nat);
    }
}

/// Scrolling down `content_length` times from offset 0 leaves the offset at
/// exactly `max(0, content_length - viewport_height)`.
pub proof fn lemma_scroll_down_reaches_end(content_length: nat, viewport_height: nat)
    ensures
        (ScrollView { offset: 0, content_length, viewport_height }).after_scroll_downs(
            content_length,
        ).offset == max_offset(content_length, viewport_height),
{
    lemma_after_scroll_downs(
        ScrollView { offset: 0, content_length, viewport_height },
        content_length,
    );
}

/// The scroll offset of one detail view, with the length of the content and
/// the height of the viewport that bound it. The offset always lies inside
/// `[0, max(0, content_length - viewport_height)]`.
#[derive(Debug, Clone, Copy)]
pub struct ScrollPosition {
    offset: usize,
    content_length: usize,
    viewport_height: usize,
}

impl View for ScrollPosition {
    type V = ScrollView;

    closed spec fn view(&self) -> ScrollView {
        ScrollView {
            offset: self.offset as nat,
            content_length: self.content_length as nat,
            viewport_height: self.viewport_height as nat,
        }
    }
}

impl ScrollPosition {
    #[verifier::type_invariant]
    spec fn inv(self) -> bool {
        self@.wf()
    }

    /// A position at offset 0 over empty content and an empty viewport.
    pub fn new() -> (p: Self)
        ensures
            p@ == (ScrollView { offset: 0, content_length: 0, viewport_height: 0 }),
            p@.wf(),
    {
        ScrollPosition { offset: 0, content_length: 0, viewport_height: 0 }
    }

    /// The current offset.
    pub fn offset(&self) -> (n: usize)
        ensures
            n == self@.offset,
            self@.wf(),
    {
        proof {
            use_type_invariant(self);
        }
        self.offset
    }

    /// Number of lines of the content.
    pub fn content_length(&self) -> (n: usize)
        ensures
            n == self@.content_length,
    {
        self.content_length
    }

    /// Number of lines that the viewport shows.
    pub fn viewport_height(&self) -> (n: usize)
        ensures
            n == self@.viewport_height,
    {
        self.viewport_height
    }

    /// The largest offset the position allows.
    pub fn max_offset(&self) -> (n: usize)
        ensures
            n == self@.max_offset(),
    {
        if self.content_length > self.viewport_height {
            self.content_length - self.viewport_height
        } else {
            0
        }
    }

    /// Applies one scroll operation.
    pub fn apply(&mut self, op: ScrollOp)
        ensures
            final(self)@ == old(self)@.applied(op),
            final(self)@.wf(),
    {
        proof {
            use_type_invariant(&*self);
        }
        let limit = self.max_offset();
        let offset: usize = match op {
            ScrollOp::Up => if self.offset >= 1 {
                self.offset - 1
            } else {
                0
            },
            ScrollOp::Down => if self.offset < limit {
                self.offset + 1
            } else {
                limit
            },
            ScrollOp::PageUp => if self.offset >= PAGE_SIZE {
                self.offset - PAGE_SIZE
            } else {
                0
            },
            ScrollOp::PageDown => if limit - self.offset > PAGE_SIZE {
                self.offset + PAGE_SIZE
            } else {
                limit
            },
            ScrollOp::Reset => 0,
            ScrollOp::End => limit,
        };
        self.offset = offset;
    }

    /// Scrolls one line up, stopping at 0.
    pub fn scroll_up(&mut self)
        ensures
            final(self)@ == old(self)@.scrolled_up_by(1),
            final(self)@.wf(),
    {
        self.apply(ScrollOp::Up);
    }

    /// Scrolls one line down, stopping at the largest offset.
    pub fn scroll_down(&mut self)
        ensures
            final(self)@ == old(self)@.scrolled_down_by(1),
            final(self)@.wf(),
    {
        self.apply(ScrollOp::Down);
    }

    /// Scrolls one page up, stopping at 0.
    pub fn page_up(&mut self)
        ensures
            final(self)@ == old(self)@.scrolled_up_by(PAGE_SIZE as nat),
            final(self)@.wf(),
    {
        self.apply(ScrollOp::PageUp);
    }

    /// Scrolls one page down, stopping at the largest offset.
    pub fn page_down(&mut self)
        ensures
            final(self)@ == old(self)@.scrolled_down_by(PAGE_SIZE as nat),
            final(self)@.wf(),
    {
        self.apply(ScrollOp::PageDown);
    }

    /// Sets the offset to 0.
    pub fn reset(&mut self)
        ensures
            final(self)@ == old(self)@.at(0),
            final(self)@.wf(),
    {
        self.apply(ScrollOp::Reset);
    }

    /// Records that the content now has `content_length` lines. With
    /// `follow` the offset moves to the end of the content; without, it is
    /// only pulled back if the content became too short for it.
    pub fn set_content_length(&mut self, content_length: usize, follow: bool)
        ensures
            final(self)@ == old(self)@.with_content_length(content_length as nat, follow),
            final(self)@.wf(),
    {
        let limit: usize = if content_length > self.viewport_height {
            content_length - self.viewport_height
        } else {
            0
        };
        let offset: usize = if follow || self.offset > limit {
            limit
        } else {
            self.offset
        };
        *self = ScrollPosition { offset, content_length, viewport_height: self.viewport_height };
    }

    /// Records that the viewport now shows `viewport_height` lines, pulling
    /// the offset back if it no longer fits.
    pub fn set_viewport_height(&mut self, viewport_height: usize)
        ensures
            final(self)@ == old(self)@.with_viewport_height(viewport_height as nat),
            final(self)@.wf(),
    {
        let limit: usize = if self.content_length > viewport_height {
            self.content_length - viewport_height
        } else {
            0
        };
        let offset: usize = if self.offset > limit {
            limit
        } else {
            self.offset
        };
        *self = ScrollPosition { offset, content_length: self.content_length, viewport_height };
    }
}

/// What a `ScrollState` holds.
pub ghost struct ScrollStateView {
    pub logs: ScrollView,
    pub describe: ScrollView,
    pub yaml: ScrollView,
    pub metrics: ScrollView,
    pub auto_follow: bool,
}

impl ScrollStateView {
    /// All four offsets are inside their bounds.
    pub open spec fn wf(self) -> bool {
        self.logs.wf() && self.describe.wf() && self.yaml.wf() && self.metrics.wf()
    }

    /// The position of the detail view shown in `mode`.
    pub open spec fn position(self, mode: AppMode) -> ScrollView
        recommends
            mode.spec_is_detail_view(),
    {
        match mode {
            AppMode::Logs => self.logs,
            AppMode::Describe => self.describe,
            AppMode::YamlView => self.yaml,
            _ => self.metrics,
        }
    }

    /// The state with the position of the detail view shown in `mode`
    /// replaced; unchanged when `mode` is no detail view.
    pub open spec fn with_position(self, mode: AppMode, p: ScrollView) -> ScrollStateView {
        match mode {
            AppMode::Logs => ScrollStateView { logs: p, ..self },
            AppMode::Describe => ScrollStateView { describe: p, ..self },
            AppMode::YamlView => ScrollStateView { yaml: p, ..self },
            AppMode::TopView => ScrollStateView { metrics: p, ..self },
            _ => self,
        }
    }

    /// The state after a scroll operation on the detail view shown in
    /// `mode`; unchanged when `mode` is no detail view.
    pub open spec fn applied(self, mode: AppMode, op: ScrollOp) -> ScrollStateView {
        self.with_position(mode, self.position(mode).applied(op))
    }

    /// The state with all four offsets at 0.
    pub open spec fn reset_all(self) -> ScrollStateView {
        ScrollStateView {
            logs: self.logs.at(0),
            describe: self.describe.at(0),
            yaml: self.yaml.at(0),
            metrics: self.metrics.at(0),
            auto_follow: self.auto_follow,
        }
    }

    /// The state after the content of the detail view shown in `mode`
    /// changed to `content_length` lines. Only the log view follows its
    /// content, and only while auto-follow is on.
    pub open spec fn with_content_length(self, mode: AppMode, content_length: nat)
        -> ScrollStateView {
        self.with_position(
            mode,
            self.position(mode).with_content_length(
                content_length,
                mode == AppMode::Logs && self.auto_follow,
            ),
        )
    }

    /// The state after the viewport of every detail view changed.
    pub open spec fn with_viewport_height(self, viewport_height: nat) -> ScrollStateView {
        ScrollStateView {
            logs: self.logs.with_viewport_height(viewport_height),
            describe: self.describe.with_viewport_height(viewport_height),
            yaml: self.yaml.with_viewport_height(viewport_height),
            metrics: self.metrics.with_viewport_height(viewport_height),
            auto_follow: self.auto_follow,
        }
    }

    /// The state after auto-follow was switched. Switching it on moves the
    /// log view to the end of its content; switching it off leaves the
    /// offset where it is.
    pub open spec fn auto_follow_toggled(self) -> ScrollStateView {
        ScrollStateView {
            logs: if self.auto_follow {
                self.logs
            } else {
                self.logs.at(self.logs.max_offset())
            },
            auto_follow: !self.auto_follow,
            ..self
        }
    }
}

/// The scroll positions of the log, description, manifest and metrics
/// views, and whether the log view follows its content.
#[derive(Debug, Clone, Copy)]
pub struct ScrollState {
    pub logs: ScrollPosition,
    pub describe: ScrollPosition,
    pub yaml: ScrollPosition,
    pub metrics: ScrollPosition,
    pub auto_follow: bool,
}

impl View for ScrollState {
    type V = ScrollStateView;

    open spec fn view(&self) -> ScrollStateView {
        ScrollStateView {
            logs: self.logs@,
            describe: self.describe@,
            yaml: self.yaml@,
            metrics: self.metrics@,
            auto_follow: self.auto_follow,
        }
    }
}

impl ScrollState {
    /// All offsets at 0 over empty content, with auto-follow on.
    pub fn new() -> (s: Self)
        ensures
            s@.logs == (ScrollView { offset: 0, content_length: 0, viewport_height: 0 }),
            s@.describe == s@.logs,
            s@.yaml == s@.logs,
            s@.metrics == s@.logs,
            s@.auto_follow,
            s@.wf(),
    {
        ScrollState {
            logs: ScrollPosition::new(),
            describe: ScrollPosition::new(),
            yaml: ScrollPosition::new(),
            metrics: ScrollPosition::new(),
            auto_follow: true,
        }
    }

    /// Applies a scroll operation to the detail view shown in `mode`. Does
    /// nothing when `mode` is no detail view.
    pub fn apply(&mut self, mode: AppMode, op: ScrollOp)
        ensures
            final(self)@ == old(self)@.applied(mode, op),
    {
        match mode {
            AppMode::Logs => self.logs.apply(op),
            AppMode::Describe => self.describe.apply(op),
            AppMode::YamlView => self.yaml.apply(op),
            AppMode::TopView => self.metrics.apply(op),
            _ => {},
        }
    }

    /// Scrolls the view shown in `mode` one line up.
    pub fn scroll_up(&mut self, mode: AppMode)
        ensures
            final(self)@ == old(self)@.applied(mode, ScrollOp::Up),
    {
        self.apply(mode, ScrollOp::Up);
    }

    /// Scrolls the view shown in `mode` one line down.
    pub fn scroll_down(&mut self, mode: AppMode)
        ensures
            final(self)@ == old(self)@.applied(mode, ScrollOp::Down),
    {
        self.apply(mode, ScrollOp::Down);
    }

    /// Scrolls the view shown in `mode` one page up.
    pub fn page_up(&mut self, mode: AppMode)
        ensures
            final(self)@ == old(self)@.applied(mode, ScrollOp::PageUp),
    {
        self.apply(mode, ScrollOp::PageUp);
    }

    /// Scrolls the view shown in `mode` one page down.
    pub fn page_down(&mut self, mode: AppMode)
        ensures
            final(self)@ == old(self)@.applied(mode, ScrollOp::PageDown),
    {
        self.apply(mode, ScrollOp::PageDown);
    }

    /// Sets the offset of the view shown in `mode` to 0.
    pub fn reset(&mut self, mode: AppMode)
        ensures
            final(self)@ == old(self)@.applied(mode, ScrollOp::Reset),
    {
        self.apply(mode, ScrollOp::Reset);
    }

    /// Sets all four offsets to 0.
    pub fn reset_all(&mut self)
        ensures
            final(self)@ == old(self)@.reset_all(),
    {
        self.logs.reset();
        self.describe.reset();
        self.yaml.reset();
        self.metrics.reset();
    }

    /// Records that the content of the view shown in `mode` now has
    /// `content_length` lines. The log view moves to the end of its content
    /// while auto-follow is on; every other offset is only pulled back when
    /// it no longer fits.
    pub fn set_content_length(&mut self, mode: AppMode, content_length: usize)
        ensures
            final(self)@ == old(self)@.with_content_length(mode, content_length as nat),
    {
        match mode {
            AppMode::Logs => self.logs.set_content_length(content_length, self.auto_follow),
            AppMode::Describe => self.describe.set_content_length(content_length, false),
            AppMode::YamlView => self.yaml.set_content_length(content_length, false),
            AppMode::TopView => self.metrics.set_content_length(content_length, false),
            _ => {},
        }
    }

    /// Records the new height of the viewport for all four views.
    pub fn set_viewport_height(&mut self, viewport_height: usize)
        ensures
            final(self)@ == old(self)@.with_viewport_height(viewport_height as nat),
    {
        self.logs.set_viewport_height(viewport_height);
        self.describe.set_viewport_height(viewport_height);
        self.yaml.set_viewport_height(viewport_height);
        self.metrics.set_viewport_height(viewport_height);
    }

    /// Switches auto-follow of the log view. Switching it on moves the log
    /// view to the end of its content.
    pub fn toggle_auto_follow(&mut self)
        ensures
            final(self)@ == old(self)@.auto_follow_toggled(),
    {
        self.auto_follow = !self.auto_follow;
        if self.auto_follow {
            self.logs.apply(ScrollOp::End);
        }
    }
}

/// Number of content lines that fit into a terminal of `terminal_height`
/// rows: what is left after header, footer, command line and border.
pub fn viewport_height_for(terminal_height: u16) -> (n: usize)
    ensures
        n == if terminal_height > CHROME_ROWS {
            terminal_height - CHROME_ROWS
        } else {
            0
        },
{
    if terminal_height > CHROME_ROWS {
        (terminal_height - CHROME_ROWS) as usize
    } else {
        0
    }
}

} // verus!
