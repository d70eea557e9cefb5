//! Selection bookkeeping for one ordered collection of items.

use vstd::prelude::*;

verus! {

/// Index after moving the selection one step towards the end of a
/// collection of `len` items: it stops at the last item, and is 0 when the
/// collection is empty.
pub open spec fn moved_down(index: nat, len: nat) -> nat {
    if len == 0 {
        0
    } else if index + 1 < len {
        index + 1
    } else {
        (len - 1) as nat
    }
}

/// Index after moving the selection one step towards the start: it stops
/// at 0.
pub open spec fn moved_up(index: nat, len: nat) -> nat {
    if len == 0 || index == 0 {
        0
    } else if index - 1 < len {
        (index - 1) as nat
    } else {
        (len - 1) as nat
    }
}

/// Whether `index` is a valid selection for a collection of `len` items: it
/// points at an item, or is 0 when there is none.
pub open spec fn selection_in_range(index: nat, len: nat) -> bool {
    if len == 0 {
        index == 0
    } else {
        index < len
    }
}

/// One step of selection movement.
#[derive(Debug, Clone, Copy, PartialEq, Eq, Structural)]
pub enum Move {
    Up,
    Down,
}

/// Index after one movement step.
pub open spec fn moved(index: nat, len: nat, step: Move) -> nat {
    match step {
        Move::Up => moved_up(index, len),
        Move::Down => moved_down(index, len),
    }
}

/// Index after a whole sequence of movement steps, first step first.
pub open spec fn after_moves(index: nat, len: nat, steps: Seq<Move>) -> nat
    decreases steps.len(),
{
    if steps.len() == 0 {
        index
    } else {
        moved(after_moves(index, len, steps.drop_last()), len, steps.last())
    }
}

/// Whatever sequence of up and down movements is applied to a valid
/// selection, the index stays inside `[0, len - 1]` when the collection has
/// items, and stays 0 when it has none.
pub proof fn lemma_moves_stay_in_range(index: nat, len: nat, steps: Seq<Move>)
    requires
        selection_in_range(index, len),
    ensures
        selection_in_range(after_moves(index, len, steps), len),
    decreases steps.len(),
{
    if steps.len() > 0 {
        lemma_moves_stay_in_range(index, len, steps.drop_last());
    }
}

/// A single movement brings any index, valid or not, into range.
pub proof fn lemma_move_normalizes(index: nat, len: nat, step: Move)
    ensures
        selection_in_range(moved(index, len, step), len),
{
}

/// An operation on the selection of one collection.
#[derive(Debug, Clone, Copy, PartialEq, Eq, Structural)]
pub enum SelectOp {
    /// One item up, stopping at the first.
    Up,
    /// One item down, stopping at the last.
    Down,
    /// Back to the first item.
    Reset,
    /// To the item at the given index, if there is one.
    To(usize),
}

/// What a `ResourceCollection` holds: its items in order, and the index of
/// the selected one.
pub ghost struct CollectionView<T> {
    pub items: Seq<T>,
    pub selected: nat,
}

impl<T> CollectionView<T> {
    /// The selection points at an item, or is 0 when there is none.
    pub open spec fn wf(self) -> bool {
        selection_in_range(self.selected, self.items.len())
    }

    /// The collection with its selection set back to the first item.
    pub open spec fn reset(self) -> CollectionView<T> {
        CollectionView { items: self.items, selected: 0 }
    }

    /// The collection after one movement step.
    pub open spec fn moved(self, step: Move) -> CollectionView<T> {
        CollectionView { items: self.items, selected: moved(self.selected, self.items.len(), step) }
    }

    /// The collection with `index` selected if it points at an item, and
    /// unchanged if it does not.
    pub open spec fn with_selected(self, index: nat) -> CollectionView<T> {
        if index < self.items.len() {
            CollectionView { items: self.items, selected: index }
        } else {
            self
        }
    }

    /// The collection after one operation on its selection.
    pub open spec fn applied(self, op: SelectOp) -> CollectionView<T> {
        match op {
            SelectOp::Up => self.moved(Move::Up),
            SelectOp::Down => self.moved(Move::Down),
            SelectOp::Reset => self.reset(),
            SelectOp::To(index) => self.with_selected(index as nat),
        }
    }

    /// The collection after its items were replaced wholesale: the
    /// selection survives a replacement of the same length and is reset by
    /// one that changes the length.
    pub open spec fn replaced(self, items: Seq<T>) -> CollectionView<T> {
        CollectionView {
            items,
            selected: if items.len() == self.items.len() {
                self.selected
            } else {
                0
            },
        }
    }

    /// The selected item, if there is one.
    pub open spec fn selected_item(self) -> Option<T> {
        if self.selected < self.items.len() {
            Some(self.items[self.selected as int])
        } else {
            None
        }
    }

    /// The empty collection.
    pub open spec fn empty() -> CollectionView<T> {
        CollectionView { items: Seq::empty(), selected: 0 }
    }
}

/// Resetting the selection twice in a row is the same as resetting it once.
pub proof fn lemma_reset_idempotent<T>(c: CollectionView<T>)
    ensures
        c.reset().reset() == c.reset(),
        c.reset().wf(),
{
}

/// Every operation on the selection of a valid collection leaves it valid
/// and its items as they were.
pub proof fn lemma_select_ops_keep_valid<T>(c: CollectionView<T>, op: SelectOp)
    requires
        c.wf(),
    ensures
        c.applied(op).wf(),
        c.applied(op).items == c.items,
{
}

/// A valid collection has a selected item exactly when it is not empty.
pub proof fn lemma_selected_item_iff_nonempty<T>(c: CollectionView<T>)
    requires
        c.wf(),
    ensures
        c.selected_item() is Some <==> c.items.len() > 0,
{
}

/// An ordered sequence of items of one resource kind, paired with the index
/// of the selected item. The index always points at an item, or is 0 when
/// the collection is empty.
#[derive(Debug)]
pub struct ResourceCollection<T> {
    items: Vec<T>,
    selected: usize,
}

impl<T> View for ResourceCollection<T> {
    type V = CollectionView<T>;

    closed spec fn view(&self) -> CollectionView<T> {
        CollectionView { items: self.items@, selected: self.selected as nat }
    }
}

impl<T> ResourceCollection<T> {
    #[verifier::type_invariant]
    spec fn inv(self) -> bool {
        self@.wf()
    }

    /// An empty collection.
    pub fn new() -> (c: Self)
        ensures
            c@ == CollectionView::<T>::empty(),
            c@.wf(),
    {
        ResourceCollection { items: Vec::new(), selected: 0 }
    }

    /// A collection of the given items with the first one selected.
    pub fn from_items(items: Vec<T>) -> (c: Self)
        ensures
            c@.items == items@,
            c@.selected == 0,
            c@.wf(),
    {
        ResourceCollection { items, selected: 0 }
    }

    /// Number of items.
    pub fn len(&self) -> (n: usize)
        ensures
            n == self@.items.len(),
    {
        self.items.len()
    }

    /// Whether the collection holds no item.
    pub fn is_empty(&self) -> (b: bool)
        ensures
            b == (self@.items.len() == 0),
    {
        self.items.len() == 0
    }

    /// Index of the selected item; 0 when the collection is empty.
    pub fn selected_index(&self) -> (i: usize)
        ensures
            i == self@.selected,
            self@.wf(),
    {
        proof {
            use_type_invariant(self);
        }
        self.selected
    }

    /// The items in order.
    pub fn items(&self) -> (items: &Vec<T>)
        ensures
            items@ == self@.items,
    {
        &self.items
    }

    /// The item at `index`, or `None` when `index` is out of range.
    pub fn get(&self, index: usize) -> (item: Option<&T>)
        ensures
            item == if index < self@.items.len() {
                Some(&self@.items[index as int])
            } else {
                None
            },
    {
        if index < self.items.len() {
            Some(&self.items[index])
        } else {
            None
        }
    }

    /// The selected item: `None` exactly when the collection is empty.
    pub fn get_selected(&self) -> (item: Option<&T>)
        ensures
            item == if self@.items.len() > 0 {
                Some(&self@.items[self@.selected as int])
            } else {
                None
            },
            self@.wf(),
    {
        proof {
            use_type_invariant(self);
        }
        if self.selected < self.items.len() {
            Some(&self.items[self.selected])
        } else {
            None
        }
    }

    /// Moves the selection one item up, stopping at the first item. Does
    /// nothing on an empty collection.
    pub fn move_up(&mut self)
        ensures
            final(self)@ == old(self)@.moved(Move::Up),
            final(self)@.wf(),
    {
        proof {
            use_type_invariant(&*self);
        }
        if self.selected > 0 {
            self.selected = self.selected - 1;
        }
    }

    /// Moves the selection one item down, stopping at the last item. Does
    /// nothing on an empty collection.
    pub fn move_down(&mut self)
        ensures
            final(self)@ == old(self)@.moved(Move::Down),
            final(self)@.wf(),
    {
        proof {
            use_type_invariant(&*self);
        }
        if self.items.len() > 0 && self.selected < self.items.len() - 1 {
            self.selected = self.selected + 1;
        }
    }

    /// Sets the selection back to the first item.
    pub fn reset_selection(&mut self)
        ensures
            final(self)@ == old(self)@.reset(),
            final(self)@.wf(),
    {
        self.selected = 0;
    }

    /// Selects the item at `index`. An index that points at no item leaves
    /// the selection where it was.
    pub fn select(&mut self, index: usize)
        ensures
            final(self)@ == old(self)@.with_selected(index as nat),
            final(self)@.wf(),
    {
        proof {
            use_type_invariant(&*self);
        }
        if index < self.items.len() {
            self.selected = index;
        }
    }

    /// Applies one operation to the selection.
    pub fn apply(&mut self, op: SelectOp)
        ensures
            final(self)@ == old(self)@.applied(op),
            final(self)@.wf(),
    {
        match op {
            SelectOp::Up => self.move_up(),
            SelectOp::Down => self.move_down(),
            SelectOp::Reset => self.reset_selection(),
            SelectOp::To(index) => self.select(index),
        }
    }

    /// Replaces the items wholesale. The selection is kept when the number
    /// of items stays the same, and reset to the first item when it
    /// changes.
    pub fn replace(&mut self, items: Vec<T>)
        ensures
            final(self)@ == old(self)@.replaced(items@),
            final(self)@.wf(),
    {
        proof {
            use_type_invariant(&*self);
        }
        let selected: usize = if items.len() == self.items.len() {
            self.selected
        } else {
            0
        };
        *self = ResourceCollection { items, selected };
    }

    /// Removes every item and resets the selection.
    pub fn clear(&mut self)
        ensures
            final(self)@ == CollectionView::<T>::empty(),
            final(self)@.wf(),
    {
        *self = ResourceCollection { items: Vec::new(), selected: 0 };
    }
}

} // verus!
