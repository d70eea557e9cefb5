//! Incremental search over the names of one collection.

use vstd::prelude::*;
use crate::kubectl::types::{names_of, Named};
use crate::mode::AppMode;
use crate::selection::selection_in_range;
use crate::text::{contains_ignore_case, name_matches};

verus! {

/// The indices, in increasing order, of those among the first `n` of `names`
/// that contain `query`, letters compared without regard to case.
pub open spec fn matches_among(names: Seq<Seq<char>>, query: Seq<char>, n: nat) -> Seq<usize>
    recommends
        n <= names.len(),
    decreases n,
{
    if n == 0 {
        Seq::empty()
    } else {
        let before = matches_among(names, query, (n - 1) as nat);
        if contains_ignore_case(names[n - 1], query) {
            before.push((n - 1) as usize)
        } else {
            before
        }
    }
}

/// The indices, in collection order, of the names that contain `query`,
/// letters compared without regard to case.
pub open spec fn matches_of(names: Seq<Seq<char>>, query: Seq<char>) -> Seq<usize> {
    matches_among(names, query, names.len())
}

/// `matches_among` lists exactly the matching indices below `n`, each
/// once and in increasing order.
pub proof fn lemma_matches_among(names: Seq<Seq<char>>, query: Seq<char>, n: nat)
    requires
        n <= names.len(),
        names.len() <= usize::MAX,
    ensures
        matches_among(names, query, n).len() <= n,
        forall|k: int|
            0 <= k < matches_among(names, query, n).len() ==> {
                &&& (#[trigger] matches_among(names, query, n)[k]) < n
                &&& contains_ignore_case(names[matches_among(names, query, n)[k] as int], query)
            },
        forall|a: int, b: int|
            0 <= a < b < matches_among(names, query, n).len() ==> matches_among(names, query, n)[a]
                < matches_among(names, query, n)[b],
        forall|i: int|
            0 <= i < n && contains_ignore_case(#[trigger] names[i], query) ==> matches_among(
                names,
                query,
                n,
            ).contains(i as usize),
    decreases n,
{
    if n > 0 {
        let m = (n - 1) as nat;
        lemma_matches_among(names, query, m);
        let before = matches_among(names, query, m);
        let now = matches_among(names, query, n);
        assert forall|i: int| 0 <= i < n && contains_ignore_case(#[trigger] names[i], query)
            implies now.contains(i as usize) by {
            if i < m {
                assert(before.contains(i as usize));
                let k = choose|k: int| 0 <= k < before.len() && before[k] == i as usize;
                assert(now[k] == i as usize);
            } else {
                assert(now[now.len() - 1] == i as usize);
            }
        }
    }
}

/// The match list holds exactly the indices of the names that contain the
/// query, each once and in collection order.
pub proof fn lemma_matches_of(names: Seq<Seq<char>>, query: Seq<char>)
    requires
        names.len() <= usize::MAX,
    ensures
        forall|k: int|
            0 <= k < matches_of(names, query).len() ==> {
                &&& (#[trigger] matches_of(names, query)[k]) < names.len()
                &&& contains_ignore_case(names[matches_of(names, query)[k] as int], query)
            },
        forall|a: int, b: int|
            0 <= a < b < matches_of(names, query).len() ==> matches_of(names, query)[a]
                < matches_of(names, query)[b],
        forall|i: int|
            0 <= i < names.len() && contains_ignore_case(#[trigger] names[i], query)
                ==> matches_of(names, query).contains(i as usize),
{
    lemma_matches_among(names, query, names.len());
}

/// The indices, in collection order, of the items whose name contains
/// `query`, letters compared without regard to case.
pub fn matching_indices<T: Named>(items: &Vec<T>, query: &Vec<char>) -> (matches: Vec<usize>)
    ensures
        matches@ == matches_of(names_of(items@), query@),
{
    let mut matches: Vec<usize> = Vec::new();
    let mut i: usize = 0;
    while i < items.len()
        invariant
            i <= items.len(),
            matches@ == matches_among(names_of(items@), query@, i as nat),
        decreases items.len() - i,
    {
        let name = items[i].name();
        if name_matches(name.as_str(), query) {
            matches.push(i);
        }
        i = i + 1;
    }
    matches
}

/// Where a search stands.
#[derive(Debug, Clone, Copy, PartialEq, Eq, Structural)]
pub enum SearchPhase {
    /// No session: nothing was searched for, or the last search was
    /// cancelled.
    Idle,
    /// The search overlay is open and captures all input.
    Active,
    /// The overlay was left with Enter: the matches stay for the
    /// repeat-search keys, though the collection may have changed since.
    Confirmed,
}

/// Cursor after a cyclic step forward through `len` matches.
pub open spec fn cursor_next(cursor: nat, len: nat) -> nat {
    if len == 0 {
        0
    } else if cursor + 1 < len {
        cursor + 1
    } else {
        0
    }
}

/// Cursor after a cyclic step backward through `len` matches.
pub open spec fn cursor_previous(cursor: nat, len: nat) -> nat {
    if len == 0 {
        0
    } else if cursor == 0 || cursor > len {
        (len - 1) as nat
    } else {
        (cursor - 1) as nat
    }
}

/// What a `SearchEngine` holds.
pub ghost struct SearchView {
    pub phase: SearchPhase,
    pub query: Seq<char>,
    pub matches: Seq<usize>,
    pub cursor: nat,
    pub target: AppMode,
}

impl SearchView {
    /// The cursor points at a match, or is 0 when there is none; and an
    /// idle engine holds neither query nor matches.
    pub open spec fn wf(self) -> bool {
        &&& selection_in_range(self.cursor, self.matches.len())
        &&& self.phase == SearchPhase::Idle ==> self.query.len() == 0 && self.matches.len() == 0
    }

    /// Whether the overlay is open.
    pub open spec fn is_active(self) -> bool {
        self.phase == SearchPhase::Active
    }

    /// The state of an engine that never searched, aimed at the namespace
    /// list.
    pub open spec fn idle() -> SearchView {
        SearchView {
            phase: SearchPhase::Idle,
            query: Seq::empty(),
            matches: Seq::empty(),
            cursor: 0,
            target: AppMode::NamespaceList,
        }
    }

    /// The state after `start(from_mode)`: a fresh session aimed at
    /// `from_mode` if that is a list mode, and no change otherwise.
    pub open spec fn started(self, from_mode: AppMode) -> SearchView {
        if from_mode.spec_is_list() {
            SearchView {
                phase: SearchPhase::Active,
                query: Seq::empty(),
                matches: Seq::empty(),
                cursor: 0,
                target: from_mode,
            }
        } else {
            self
        }
    }

    /// The state after the query of an open overlay changed to `query`,
    /// which `matches` match: the cursor goes to the first match. Outside
    /// an open overlay nothing changes.
    pub open spec fn with_query(self, query: Seq<char>, matches: Seq<usize>) -> SearchView {
        if self.is_active() {
            SearchView { query, matches, cursor: 0, ..self }
        } else {
            self
        }
    }

    /// The state after a character was typed, the target collection
    /// holding items called `names`.
    pub open spec fn typed(self, c: char, names: Seq<Seq<char>>) -> SearchView {
        self.with_query(self.query.push(c), matches_of(names, self.query.push(c)))
    }

    /// The query without its last character; the empty query stays empty.
    pub open spec fn shortened_query(self) -> Seq<char> {
        if self.query.len() > 0 {
            self.query.drop_last()
        } else {
            self.query
        }
    }

    /// The state after the last character was deleted, the target
    /// collection holding items called `names`.
    pub open spec fn erased(self, names: Seq<Seq<char>>) -> SearchView {
        self.with_query(self.shortened_query(), matches_of(names, self.shortened_query()))
    }

    /// The state after a cyclic step forward through the matches.
    pub open spec fn advanced(self) -> SearchView {
        SearchView { cursor: cursor_next(self.cursor, self.matches.len()), ..self }
    }

    /// The state after a cyclic step backward through the matches.
    pub open spec fn retreated(self) -> SearchView {
        SearchView { cursor: cursor_previous(self.cursor, self.matches.len()), ..self }
    }

    /// The state after the overlay was left with Enter: query and matches
    /// stay. Outside an open overlay nothing changes.
    pub open spec fn confirmed(self) -> SearchView {
        if self.is_active() {
            SearchView { phase: SearchPhase::Confirmed, ..self }
        } else {
            self
        }
    }

    /// The state after the overlay was left with Esc: query and matches are
    /// gone. Outside an open overlay nothing changes.
    pub open spec fn cancelled(self) -> SearchView {
        if self.is_active() {
            SearchView {
                phase: SearchPhase::Idle,
                query: Seq::empty(),
                matches: Seq::empty(),
                cursor: 0,
                target: self.target,
            }
        } else {
            self
        }
    }

    /// The index the cursor points at, if there is any match.
    pub open spec fn current_match(self) -> Option<usize> {
        if self.cursor < self.matches.len() {
            Some(self.matches[self.cursor as int])
        } else {
            None
        }
    }
}

/// With exactly one match, stepping forward and stepping backward both
/// leave the cursor on that match.
pub proof fn lemma_single_match_wraps_to_itself(s: SearchView)
    requires
        s.wf(),
        s.matches.len() == 1,
    ensures
        s.advanced() == s,
        s.retreated() == s,
        s.advanced().current_match() == Some(s.matches[0]),
        s.retreated().current_match() == Some(s.matches[0]),
{
}

/// Stepping through the matches is cyclic: a step forward and a step
/// backward undo each other, and as many steps forward as there are
/// matches lead back to the start.
pub proof fn lemma_cursor_steps_are_cyclic(cursor: nat, len: nat)
    requires
        selection_in_range(cursor, len),
    ensures
        cursor_previous(cursor_next(cursor, len), len) == cursor,
        cursor_next(cursor_previous(cursor, len), len) == cursor,
        selection_in_range(cursor_next(cursor, len), len),
        selection_in_range(cursor_previous(cursor, len), len),
{
}

/// Every operation keeps a valid search state valid.
pub proof fn lemma_search_stays_valid(
    s: SearchView,
    mode: AppMode,
    query: Seq<char>,
    matches: Seq<usize>,
)
    requires
        s.wf(),
    ensures
        s.started(mode).wf(),
        s.with_query(query, matches).wf(),
        s.advanced().wf(),
        s.retreated().wf(),
        s.confirmed().wf(),
        s.cancelled().wf(),
{
}

/// The search session: query, matching indices into the target
/// collection, a cursor into the matches, and the list mode that the search
/// was launched from.
#[derive(Debug)]
pub struct SearchEngine {
    phase: SearchPhase,
    query: Vec<char>,
    matches: Vec<usize>,
    cursor: usize,
    target: AppMode,
}

impl View for SearchEngine {
    type V = SearchView;

    closed spec fn view(&self) -> SearchView {
        SearchView {
            phase: self.phase,
            query: self.query@,
            matches: self.matches@,
            cursor: self.cursor as nat,
            target: self.target,
        }
    }
}

impl SearchEngine {
    #[verifier::type_invariant]
    spec fn inv(self) -> bool {
        self@.wf()
    }

    /// An engine without a session.
    pub fn new() -> (s: Self)
        ensures
            s@ == SearchView::idle(),
            s@.wf(),
    {
        SearchEngine {
            phase: SearchPhase::Idle,
            query: Vec::new(),
            matches: Vec::new(),
            cursor: 0,
            target: AppMode::NamespaceList,
        }
    }

    /// Where the search stands.
    pub fn phase(&self) -> (phase: SearchPhase)
        ensures
            phase == self@.phase,
            self@.wf(),
    {
        proof {
            use_type_invariant(self);
        }
        self.phase
    }

    /// Whether the overlay is open.
    pub fn is_active(&self) -> (active: bool)
        ensures
            active == self@.is_active(),
            self@.wf(),
    {
        proof {
            use_type_invariant(self);
        }
        self.phase == SearchPhase::Active
    }

    /// The query.
    pub fn query(&self) -> (query: &Vec<char>)
        ensures
            query@ == self@.query,
    {
        &self.query
    }

    /// The matching indices, in collection order.
    pub fn matches(&self) -> (matches: &Vec<usize>)
        ensures
            matches@ == self@.matches,
    {
        &self.matches
    }

    /// The cursor into the matches.
    pub fn cursor(&self) -> (cursor: usize)
        ensures
            cursor == self@.cursor,
    {
        self.cursor
    }

    /// The list mode that the search was launched from.
    pub fn target(&self) -> (target: AppMode)
        ensures
            target == self@.target,
    {
        self.target
    }

    /// The index the cursor points at: `None` exactly when there is no
    /// match.
    pub fn current_match(&self) -> (index: Option<usize>)
        ensures
            index == self@.current_match(),
            index is None <==> self@.matches.len() == 0,
    {
        proof {
            use_type_invariant(self);
        }
        if self.cursor < self.matches.len() {
            Some(self.matches[self.cursor])
        } else {
            None
        }
    }

    /// Opens the overlay over the list mode `from_mode` with an empty
    /// query and no matches. Returns whether it did: a search can only be
    /// launched from a list mode, and from any other mode nothing changes.
    pub fn start(&mut self, from_mode: AppMode) -> (started: bool)
        ensures
            started == from_mode.spec_is_list(),
            final(self)@ == old(self)@.started(from_mode),
            final(self)@.wf(),
    {
        proof {
            use_type_invariant(&*self);
        }
        if from_mode.is_list() {
            *self = SearchEngine {
                phase: SearchPhase::Active,
                query: Vec::new(),
                matches: Vec::new(),
                cursor: 0,
                target: from_mode,
            };
            true
        } else {
            false
        }
    }

    /// The query with `c` appended.
    pub fn query_with(&self, c: char) -> (query: Vec<char>)
        ensures
            query@ == self@.query.push(c),
    {
        let mut query = copy_chars(&self.query);
        query.push(c);
        query
    }

    /// The query without its last character.
    pub fn query_shortened(&self) -> (query: Vec<char>)
        ensures
            query@ == self@.shortened_query(),
    {
        let mut query = copy_chars(&self.query);
        query.pop();
        query
    }

    /// Replaces the query and its matches in an open overlay and puts the
    /// cursor on the first match. Outside an open overlay nothing changes.
    pub fn set_query(&mut self, query: Vec<char>, matches: Vec<usize>)
        ensures
            final(self)@ == old(self)@.with_query(query@, matches@),
            final(self)@.wf(),
    {
        proof {
            use_type_invariant(&*self);
        }
        if self.phase == SearchPhase::Active {
            *self = SearchEngine {
                phase: SearchPhase::Active,
                query,
                matches,
                cursor: 0,
                target: self.target,
            };
        }
    }

    /// Steps the cursor forward through the matches, wrapping from the
    /// last to the first, and returns the index it then points at.
    pub fn next(&mut self) -> (index: Option<usize>)
        ensures
            final(self)@ == old(self)@.advanced(),
            index == final(self)@.current_match(),
            final(self)@.wf(),
    {
        proof {
            use_type_invariant(&*self);
        }
        if self.matches.len() > 0 {
            if self.cursor < self.matches.len() - 1 {
                self.cursor = self.cursor + 1;
            } else {
                self.cursor = 0;
            }
        }
        self.current_match()
    }

    /// Steps the cursor backward through the matches, wrapping from the
    /// first to the last, and returns the index it then points at.
    pub fn previous(&mut self) -> (index: Option<usize>)
        ensures
            final(self)@ == old(self)@.retreated(),
            index == final(self)@.current_match(),
            final(self)@.wf(),
    {
        proof {
            use_type_invariant(&*self);
        }
        if self.matches.len() > 0 {
            if self.cursor == 0 {
                self.cursor = self.matches.len() - 1;
            } else {
                self.cursor = self.cursor - 1;
            }
        }
        self.current_match()
    }

    /// Leaves the overlay and keeps query and matches for later steps.
    pub fn confirm(&mut self)
        ensures
            final(self)@ == old(self)@.confirmed(),
            final(self)@.wf(),
    {
        proof {
            use_type_invariant(&*self);
        }
        if self.phase == SearchPhase::Active {
            self.phase = SearchPhase::Confirmed;
        }
    }

    /// Leaves the overlay and forgets query and matches.
    pub fn cancel(&mut self)
        ensures
            final(self)@ == old(self)@.cancelled(),
            final(self)@.wf(),
    {
        proof {
            use_type_invariant(&*self);
        }
        if self.phase == SearchPhase::Active {
            *self = SearchEngine {
                phase: SearchPhase::Idle,
                query: Vec::new(),
                matches: Vec::new(),
                cursor: 0,
                target: self.target,
            };
        }
    }
}

/// A copy of `chars`.
pub fn copy_chars(chars: &Vec<char>) -> (copy: Vec<char>)
    ensures
        copy@ == chars@,
{
    let mut copy: Vec<char> = Vec::new();
    let mut i: usize = 0;
    while i < chars.len()
        invariant
            i <= chars.len(),
            copy@ == chars@.take(i as int),
        decreases chars.len() - i,
    {
        copy.push(chars[i]);
        i = i + 1;
    }
    copy
}

} // verus!
