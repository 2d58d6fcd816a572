//! A wrap-around cursor over an ordered sequence of items.

use vstd::prelude::*;

verus! {

/// The position after `i` in a ring of `n` positions.
pub open spec fn next_index(i: int, n: int) -> int {
    if i >= n - 1 {
        0
    } else {
        i + 1
    }
}

/// The position before `i` in a ring of `n` positions.
pub open spec fn prev_index(i: int, n: int) -> int {
    if i == 0 {
        n - 1
    } else {
        i - 1
    }
}

/// The position reached from `i` after `k` steps forward.
pub open spec fn next_steps(i: int, n: int, k: nat) -> int
    decreases k,
{
    if k == 0 {
        i
    } else {
        next_index(next_steps(i, n, (k - 1) as nat), n)
    }
}

/// The position reached from `i` after `k` steps backward.
pub open spec fn prev_steps(i: int, n: int, k: nat) -> int
    decreases k,
{
    if k == 0 {
        i
    } else {
        prev_index(prev_steps(i, n, (k - 1) as nat), n)
    }
}

/// An ordered list of items with a selection cursor. The cursor is absent
/// exactly when the list is empty, and points into the list otherwise.
pub struct StatefulList<T> {
    items: Vec<T>,
    selected: Option<usize>,
}

impl<T> StatefulList<T> {
    /// The items, in order.
    pub closed spec fn items_view(&self) -> Seq<T> {
        self.items@
    }

    /// The cursor.
    pub closed spec fn cursor(&self) -> Option<usize> {
        self.selected
    }

    /// The cursor is set exactly when there are items, and then points at one.
    pub open spec fn wf(&self) -> bool {
        match self.cursor() {
            Some(i) => i < self.items_view().len(),
            None => self.items_view().len() == 0,
        }
    }

    /// A list over `items` (cloned), with the cursor on the first item.
    pub fn with_items(items: &Vec<T>) -> (r: StatefulList<T>)
        where
            T: Clone,
        ensures
            r.wf(),
            r.items_view().len() == items@.len(),
            forall|i: int| 0 <= i < items@.len() ==> cloned(#[trigger] items@[i], r.items_view()[i]),
            r.cursor() == (if items@.len() == 0 {
                None
            } else {
                Some(0usize)
            }),
    {
        let copy = items.clone();
        let selected = if copy.len() == 0 {
            None
        } else {
            Some(0)
        };
        StatefulList { items: copy, selected }
    }

    /// The items.
    pub fn items(&self) -> (r: &Vec<T>)
        ensures
            r@ == self.items_view(),
    {
        &self.items
    }

    /// The cursor.
    pub fn selected(&self) -> (r: Option<usize>)
        ensures
            r == self.cursor(),
    {
        self.selected
    }

    /// The item under the cursor.
    pub fn selected_item(&self) -> (r: Option<&T>)
        requires
            self.wf(),
        ensures
            match self.cursor() {
                Some(i) => r == Some(&self.items_view()[i as int]),
                None => r is None,
            },
    {
        match self.selected {
            Some(i) => Some(&self.items[i]),
            None => None,
        }
    }

    /// Moves the cursor one item forward, from the last item to the first.
    pub fn next(&mut self)
        requires
            old(self).wf(),
        ensures
            final(self).wf(),
            final(self).items_view() == old(self).items_view(),
            final(self).cursor() == match old(self).cursor() {
                Some(i) => Some(next_index(i as int, old(self).items_view().len() as int) as usize),
                None => None,
            },
    {
        match self.selected {
            Some(i) => {
                let n = self.items.len();
                let j = if i >= n - 1 {
                    0
                } else {
                    i + 1
                };
                self.selected = Some(j);
            },
            None => {},
        }
    }

    /// Moves the cursor one item back, from the first item to the last.
    pub fn previous(&mut self)
        requires
            old(self).wf(),
        ensures
            final(self).wf(),
            final(self).items_view() == old(self).items_view(),
            final(self).cursor() == match old(self).cursor() {
                Some(i) => Some(prev_index(i as int, old(self).items_view().len() as int) as usize),
                None => None,
            },
    {
        match self.selected {
            Some(i) => {
                let n = self.items.len();
                let j = if i == 0 {
                    n - 1
                } else {
                    i - 1
                };
                self.selected = Some(j);
            },
            None => {},
        }
    }
}

/// Stepping forward `k` times from a position of a ring of `n` stays in the
/// ring and lands `k` places further on, modulo `n` (for `k` up to `n`).
proof fn lemma_next_steps(i: int, n: int, k: nat)
    requires
        0 <= i < n,
        k <= n,
    ensures
        next_steps(i, n, k) == if i + k < n {
            i + k
        } else {
            i + k - n
        },
    decreases k,
{
    if k > 0 {
        lemma_next_steps(i, n, (k - 1) as nat);
    }
}

/// Stepping backward `k` times lands `k` places back, modulo `n`.
proof fn lemma_prev_steps(i: int, n: int, k: nat)
    requires
        0 <= i < n,
        k <= n,
    ensures
        prev_steps(i, n, k) == if i - k >= 0 {
            i - k
        } else {
            i - k + n
        },
    decreases k,
{
    if k > 0 {
        lemma_prev_steps(i, n, (k - 1) as nat);
    }
}

/// With `n` items, `n` moves of the cursor in the same direction bring it
/// back to where it started, forward and backward alike.
pub proof fn lemma_cursor_wraps(i: int, n: int)
    requires
        0 <= i < n,
    ensures
        next_steps(i, n, n as nat) == i,
        prev_steps(i, n, n as nat) == i,
{
    lemma_next_steps(i, n, n as nat);
    lemma_prev_steps(i, n, n as nat);
}

} // verus!
