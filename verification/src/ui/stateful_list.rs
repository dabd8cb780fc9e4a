//! An ordered sequence of items with an optional cursor.
//!
//! The list is what the connections pane browses. Its cursor is a position,
//! not an identity: when the items are replaced the cursor stays where it
//! was as long as that position still exists, and moves to the last item
//! otherwise.

use vstd::arithmetic::div_mod::{
    lemma_fundamental_div_mod, lemma_fundamental_div_mod_converse, lemma_mod_bound,
};
use vstd::prelude::*;

verus! {

/// The mathematical content of a [`StatefulList`]: its items in order and the
/// position of the cursor, if an item is selected.
pub struct ListView<T> {
    pub items: Seq<T>,
    pub cursor: Option<nat>,
}

impl<T> ListView<T> {
    /// A cursor, where there is one, points at an item. An empty list has
    /// therefore no cursor.
    pub open spec fn wf(self) -> bool {
        self.cursor matches Some(i) ==> i < self.items.len()
    }

    /// The list of `items` with nothing selected.
    pub open spec fn unselected(items: Seq<T>) -> Self {
        ListView { items, cursor: None }
    }

    /// The same items with the cursor at `cursor`.
    pub open spec fn with_cursor(self, cursor: Option<nat>) -> Self {
        ListView { items: self.items, cursor }
    }

    /// The list after one step down: the first item if nothing was selected,
    /// else the item after the selected one, and the first item again after
    /// the last. An empty list stays as it is.
    pub open spec fn next(self) -> Self {
        if self.items.len() == 0 {
            self
        } else {
            match self.cursor {
                None => self.with_cursor(Some(0nat)),
                Some(i) => if i + 1 >= self.items.len() {
                    self.with_cursor(Some(0nat))
                } else {
                    self.with_cursor(Some(i + 1))
                },
            }
        }
    }

    /// The list after one step up: the first item if nothing was selected,
    /// else the item before the selected one, and the last item when the
    /// first was selected. An empty list stays as it is.
    pub open spec fn previous(self) -> Self {
        if self.items.len() == 0 {
            self
        } else {
            match self.cursor {
                None => self.with_cursor(Some(0nat)),
                Some(i) => if i == 0 {
                    self.with_cursor(Some((self.items.len() - 1) as nat))
                } else {
                    self.with_cursor(Some((i - 1) as nat))
                },
            }
        }
    }

    /// Where the cursor stands once the list holds `new_len` items: where it
    /// stood if that position still exists, on the last item if it does not,
    /// and nowhere if no item is left or nothing was selected.
    pub open spec fn reconciled_cursor(self, new_len: nat) -> Option<nat> {
        match self.cursor {
            None => None,
            Some(k) => if k < new_len {
                Some(k)
            } else if new_len == 0 {
                None
            } else {
                Some((new_len - 1) as nat)
            },
        }
    }

    /// The list after its items were replaced by `items`.
    pub open spec fn replace_items(self, items: Seq<T>) -> Self {
        ListView { items, cursor: self.reconciled_cursor(items.len()) }
    }

    /// The list after `steps` steps down.
    pub open spec fn next_n(self, steps: nat) -> Self
        decreases steps,
    {
        if steps == 0 {
            self
        } else {
            self.next_n((steps - 1) as nat).next()
        }
    }

    /// The list after `steps` steps up.
    pub open spec fn previous_n(self, steps: nat) -> Self
        decreases steps,
    {
        if steps == 0 {
            self
        } else {
            self.previous_n((steps - 1) as nat).previous()
        }
    }

    /// The selected item, if there is one.
    pub open spec fn selected_item(self) -> Option<T> {
        match self.cursor {
            Some(i) if i < self.items.len() => Some(self.items[i as int]),
            _ => None,
        }
    }
}

/// Turns an index of executable code into a position of the model.
pub open spec fn index_view(index: Option<usize>) -> Option<nat> {
    match index {
        Some(i) => Some(i as nat),
        None => None,
    }
}

/// A browsable list: the items, and the index of the selected one.
#[derive(Debug)]
pub struct StatefulList<T> {
    items: Vec<T>,
    cursor: Option<usize>,
}

impl<T> View for StatefulList<T> {
    type V = ListView<T>;

    closed spec fn view(&self) -> ListView<T> {
        ListView {
            items: self.items@,
            cursor: match self.cursor {
                Some(i) if i < self.items@.len() => Some(i as nat),
                _ => None,
            },
        }
    }
}

impl<T> StatefulList<T> {
    #[verifier::type_invariant]
    spec fn cursor_in_range(self) -> bool {
        self.cursor matches Some(i) ==> i < self.items@.len()
    }

    /// The cursor of a list points at one of its items or is absent; on an
    /// empty list it is absent.
    pub proof fn lemma_cursor_in_range(self)
        ensures
            self@.wf(),
            self@.items.len() == 0 ==> self@.cursor is None,
    {
    }

    /// A list of `items` with nothing selected, also where `items` is not
    /// empty: the first step selects.
    pub fn with_items(items: Vec<T>) -> (list: Self)
        ensures
            list@ == ListView::unselected(items@),
            list@.cursor is None,
            list@.wf(),
    {
        StatefulList { items, cursor: None }
    }

    /// Moves the cursor one item down, wrapping to the first item after the
    /// last. Selects the first item if nothing was selected. Does nothing on
    /// an empty list.
    pub fn next(&mut self)
        ensures
            final(self)@ == old(self)@.next(),
            final(self)@.wf(),
            old(self)@.items.len() == 0 ==> final(self)@.cursor is None,
    {
        proof {
            use_type_invariant(&*self);
        }
        let len: usize = self.items.len();
        if len > 0 {
            let target: usize = match self.cursor {
                None => 0,
                Some(i) => if i + 1 >= len {
                    0
                } else {
                    i + 1
                },
            };
            self.cursor = Some(target);
        }
    }

    /// Moves the cursor one item up, wrapping to the last item before the
    /// first. Selects the first item if nothing was selected. Does nothing on
    /// an empty list.
    pub fn previous(&mut self)
        ensures
            final(self)@ == old(self)@.previous(),
            final(self)@.wf(),
            old(self)@.items.len() == 0 ==> final(self)@.cursor is None,
            old(self)@.cursor == Some(0nat) ==> final(self)@.cursor == Some(
                (old(self)@.items.len() - 1) as nat,
            ),
    {
        proof {
            use_type_invariant(&*self);
        }
        let len: usize = self.items.len();
        if len > 0 {
            let target: usize = match self.cursor {
                None => 0,
                Some(i) => if i == 0 {
                    len - 1
                } else {
                    i - 1
                },
            };
            self.cursor = Some(target);
        }
    }

    /// Replaces the items by `new_items` in one step. A cursor whose
    /// position still exists stays there, whatever item now stands at it. A
    /// cursor beyond the new end moves to the last item, and is dropped if
    /// `new_items` is empty.
    pub fn replace_items(&mut self, new_items: Vec<T>)
        ensures
            final(self)@ == old(self)@.replace_items(new_items@),
            final(self)@.wf(),
            final(self)@.items == new_items@,
            old(self)@.cursor matches Some(k) ==> (k < new_items@.len() ==> final(self)@.cursor
                == Some(k)),
            old(self)@.cursor matches Some(k) ==> (k >= new_items@.len() && new_items@.len() > 0
                ==> final(self)@.cursor == Some((new_items@.len() - 1) as nat)),
            new_items@.len() == 0 ==> final(self)@.cursor is None,
            old(self)@.cursor is None ==> final(self)@.cursor is None,
    {
        proof {
            use_type_invariant(&*self);
        }
        let new_len: usize = new_items.len();
        let reconciled: Option<usize> = match self.cursor {
            None => None,
            Some(k) => if k < new_len {
                Some(k)
            } else if new_len == 0 {
                None
            } else {
                Some(new_len - 1)
            },
        };
        self.cursor = None;
        self.items = new_items;
        self.cursor = reconciled;
    }

    /// The index of the selected item, if there is one.
    pub fn selected(&self) -> (index: Option<usize>)
        ensures
            index_view(index) == self@.cursor,
            self@.wf(),
    {
        proof {
            use_type_invariant(self);
        }
        self.cursor
    }

    /// The selected item, if there is one.
    pub fn selected_item(&self) -> (item: Option<&T>)
        ensures
            self@.wf(),
            match item {
                Some(r) => self@.selected_item() == Some(*r),
                None => self@.selected_item() is None,
            },
    {
        proof {
            use_type_invariant(self);
        }
        match self.cursor {
            Some(i) => Some(&self.items[i]),
            None => None,
        }
    }

    /// The items, in order.
    pub fn items(&self) -> (items: &Vec<T>)
        ensures
            items@ == self@.items,
    {
        &self.items
    }

    /// The number of items.
    pub fn len(&self) -> (len: usize)
        ensures
            len == self@.items.len(),
    {
        self.items.len()
    }

    /// Whether the list holds no item.
    pub fn is_empty(&self) -> (empty: bool)
        ensures
            empty == (self@.items.len() == 0),
    {
        self.items.len() == 0
    }
}

/// Every operation takes a well-formed list to a well-formed list: whatever
/// is done to a list, its cursor points at one of its items or is absent.
pub proof fn lemma_operations_keep_cursor_in_range<T>(list: ListView<T>, items: Seq<T>)
    requires
        list.wf(),
    ensures
        ListView::unselected(items).wf(),
        list.next().wf(),
        list.previous().wf(),
        list.replace_items(items).wf(),
{
}

/// On an empty list neither step selects anything.
pub proof fn lemma_steps_on_empty_list<T>(list: ListView<T>)
    requires
        list.wf(),
        list.items.len() == 0,
    ensures
        list.next().cursor is None,
        list.previous().cursor is None,
{
}

/// Steps keep the items, and a list that is well formed stays so.
pub proof fn lemma_next_n_keeps_items<T>(list: ListView<T>, steps: nat)
    requires
        list.wf(),
    ensures
        list.next_n(steps).items == list.items,
        list.next_n(steps).wf(),
    decreases steps,
{
    if steps > 0 {
        lemma_next_n_keeps_items(list, (steps - 1) as nat);
    }
}

/// Steps up keep the items, and a list that is well formed stays so.
pub proof fn lemma_previous_n_keeps_items<T>(list: ListView<T>, steps: nat)
    requires
        list.wf(),
    ensures
        list.previous_n(steps).items == list.items,
        list.previous_n(steps).wf(),
    decreases steps,
{
    if steps > 0 {
        lemma_previous_n_keeps_items(list, (steps - 1) as nat);
    }
}

/// The remainder of `x + 1` is the successor of the remainder of `x`, or 0
/// after the largest remainder.
proof fn lemma_mod_successor(x: int, m: int)
    requires
        m > 0,
    ensures
        0 <= x % m < m,
        (x + 1) % m == if x % m + 1 >= m {
            0
        } else {
            x % m + 1
        },
{
    let q: int = x / m;
    let r: int = x % m;
    lemma_fundamental_div_mod(x, m);
    lemma_mod_bound(x, m);
    if r + 1 >= m {
        assert(x + 1 == (q + 1) * m + 0) by (nonlinear_arith)
            requires
                x == m * q + r,
                r + 1 == m,
        ;
        lemma_fundamental_div_mod_converse(x + 1, m, q + 1, 0);
    } else {
        assert(x + 1 == q * m + (r + 1)) by (nonlinear_arith)
            requires
                x == m * q + r,
        ;
        lemma_fundamental_div_mod_converse(x + 1, m, q, r + 1);
    }
}

/// The remainder of `x - 1` is the predecessor of the remainder of `x`, or
/// the largest remainder before 0.
proof fn lemma_mod_predecessor(x: int, m: int)
    requires
        m > 0,
    ensures
        0 <= x % m < m,
        (x - 1) % m == if x % m == 0 {
            m - 1
        } else {
            x % m - 1
        },
{
    let q: int = x / m;
    let r: int = x % m;
    lemma_fundamental_div_mod(x, m);
    lemma_mod_bound(x, m);
    if r == 0 {
        assert(x - 1 == (q - 1) * m + (m - 1)) by (nonlinear_arith)
            requires
                x == m * q + r,
                r == 0,
        ;
        lemma_fundamental_div_mod_converse(x - 1, m, q - 1, m - 1);
    } else {
        assert(x - 1 == q * m + (r - 1)) by (nonlinear_arith)
            requires
                x == m * q + r,
        ;
        lemma_fundamental_div_mod_converse(x - 1, m, q, r - 1);
    }
}

/// From a selected position `i`, `steps` steps down lead to position
/// `(i + steps) mod len`.
pub proof fn lemma_next_n_from_selected<T>(list: ListView<T>, i: nat, steps: nat)
    requires
        list.cursor == Some(i),
        i < list.items.len(),
    ensures
        list.next_n(steps).cursor == Some(((i + steps) as int % list.items.len() as int) as nat),
    decreases steps,
{
    let len: int = list.items.len() as int;
    if steps == 0 {
        assert((i as int) % len == i) by (nonlinear_arith)
            requires
                0 <= i < len,
        ;
    } else {
        let before: nat = (steps - 1) as nat;
        lemma_next_n_from_selected(list, i, before);
        lemma_next_n_keeps_items(list, before);
        lemma_mod_successor((i + before) as int, len);
    }
}

/// From a selected position `i`, `steps` steps up lead to position
/// `(i - steps) mod len`.
pub proof fn lemma_previous_n_from_selected<T>(list: ListView<T>, i: nat, steps: nat)
    requires
        list.cursor == Some(i),
        i < list.items.len(),
    ensures
        list.previous_n(steps).cursor == Some(((i - steps) % list.items.len() as int) as nat),
    decreases steps,
{
    let len: int = list.items.len() as int;
    if steps == 0 {
        assert((i as int) % len == i) by (nonlinear_arith)
            requires
                0 <= i < len,
        ;
    } else {
        let before: nat = (steps - 1) as nat;
        lemma_previous_n_from_selected(list, i, before);
        lemma_previous_n_keeps_items(list, before);
        lemma_mod_predecessor(i - before, len);
    }
}

/// From a list on which nothing is selected, `steps` steps down lead to
/// position `(steps - 1) mod len`: the first step selects the first item,
/// and every further step moves on by one.
pub proof fn lemma_next_n_from_unselected<T>(items: Seq<T>, steps: nat)
    requires
        items.len() > 0,
        steps > 0,
    ensures
        ListView::unselected(items).next_n(steps).cursor == Some(
            ((steps - 1) % items.len() as int) as nat,
        ),
    decreases steps,
{
    let list = ListView::unselected(items);
    let len: int = items.len() as int;
    if steps == 1 {
        assert(list.next_n(0) == list);
        lemma_fundamental_div_mod_converse(0, len, 0, 0);
    } else {
        lemma_next_n_from_unselected(items, (steps - 1) as nat);
        lemma_next_n_keeps_items(list, (steps - 1) as nat);
        lemma_mod_successor(steps - 2, len);
    }
}

/// Stepping down through a list on which nothing is selected visits the
/// items in order. Step `k` selects item `k - 1` as long as `k` is at most
/// the number of items, so that as many steps as there are items end on
/// the last item; the step after that wraps to the first item. On a list
/// of one item every step ends on that item.
pub proof fn lemma_first_round_from_unselected<T>(items: Seq<T>, steps: nat)
    requires
        items.len() > 0,
        steps > 0,
    ensures
        steps <= items.len() ==> ListView::unselected(items).next_n(steps).cursor == Some(
            (steps - 1) as nat,
        ),
        steps == items.len() + 1 ==> ListView::unselected(items).next_n(steps).cursor == Some(
            0nat,
        ),
        items.len() == 1 ==> ListView::unselected(items).next_n(steps).cursor == Some(0nat),
{
    let len: int = items.len() as int;
    lemma_next_n_from_unselected(items, steps);
    lemma_mod_bound(steps - 1, len);
    if steps <= items.len() {
        lemma_fundamental_div_mod_converse(steps - 1, len, 0, steps - 1);
    }
    if steps == items.len() + 1 {
        lemma_fundamental_div_mod_converse(steps - 1, len, 1, 0);
    }
}

/// A full round returns to where it began: from any selected item, as many
/// steps down as the list has items lead back to that item, and so do as
/// many steps up.
pub proof fn lemma_full_round_returns<T>(list: ListView<T>, i: nat)
    requires
        list.cursor == Some(i),
        i < list.items.len(),
    ensures
        list.next_n(list.items.len()) == list,
        list.previous_n(list.items.len()) == list,
{
    let len: nat = list.items.len();
    lemma_next_n_from_selected(list, i, len);
    lemma_next_n_keeps_items(list, len);
    lemma_previous_n_from_selected(list, i, len);
    lemma_previous_n_keeps_items(list, len);
    assert((i + len) as int % len as int == i && (i - len) % len as int == i) by (nonlinear_arith)
        requires
            0 <= i < len,
    ;
}

/// A step up undoes a step down and a step down undoes a step up, wherever
/// an item is selected.
pub proof fn lemma_steps_are_inverse<T>(list: ListView<T>)
    requires
        list.wf(),
        list.cursor is Some,
    ensures
        list.next().previous() == list,
        list.previous().next() == list,
{
}

/// Replacing the items twice by the same sequence gives what replacing them
/// once gives.
pub proof fn lemma_replace_items_idempotent<T>(list: ListView<T>, items: Seq<T>)
    ensures
        list.replace_items(items).replace_items(items) == list.replace_items(items),
{
}

} // verus!
