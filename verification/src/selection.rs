//! A list of labels with at most one highlighted position, and wrap-around
//! navigation over it.

use vstd::arithmetic::div_mod::{
    lemma_add_mod_noop_right, lemma_mod_add_multiples_vanish, lemma_mod_self_0,
    lemma_mod_sub_multiples_vanish, lemma_small_mod,
};
use vstd::prelude::*;

verus! {

/// Mathematical model of a selection list: the labels in order, and the
/// highlighted position, if any.
pub struct ListModel {
    pub items: Seq<Seq<char>>,
    pub selected: Option<int>,
}

impl ListModel {
    /// The highlighted position, when there is one, is a position of the list.
    pub open spec fn wf(self) -> bool {
        self.selected matches Some(i) ==> 0 <= i < self.items.len()
    }

    /// The model after one step forward: the first position if nothing was
    /// highlighted, else the following one, wrapping from the last to the
    /// first. A list without items stays as it is.
    pub open spec fn next(self) -> ListModel {
        if self.items.len() == 0 {
            self
        } else {
            ListModel {
                items: self.items,
                selected: Some(
                    match self.selected {
                        None => 0,
                        Some(i) => (i + 1) % (self.items.len() as int),
                    },
                ),
            }
        }
    }

    /// The model after one step backward: the first position if nothing was
    /// highlighted, else the preceding one, wrapping from the first to the
    /// last. A list without items stays as it is.
    pub open spec fn previous(self) -> ListModel {
        if self.items.len() == 0 {
            self
        } else {
            ListModel {
                items: self.items,
                selected: Some(
                    match self.selected {
                        None => 0,
                        Some(i) => (i - 1 + self.items.len()) % (self.items.len() as int),
                    },
                ),
            }
        }
    }

    /// The model after `n` steps forward.
    pub open spec fn next_n(self, n: nat) -> ListModel
        decreases n,
    {
        if n == 0 {
            self
        } else {
            self.next_n((n - 1) as nat).next()
        }
    }

    /// The model after `n` steps backward.
    pub open spec fn previous_n(self, n: nat) -> ListModel
        decreases n,
    {
        if n == 0 {
            self
        } else {
            self.previous_n((n - 1) as nat).previous()
        }
    }
}

/// The successor of a position modulo the length, without division.
proof fn lemma_successor(i: int, n: int)
    requires
        0 <= i < n,
    ensures
        (i + 1) % n == if i == n - 1 {
            0
        } else {
            i + 1
        },
{
    if i == n - 1 {
        lemma_mod_self_0(n);
    } else {
        lemma_small_mod((i + 1) as nat, n as nat);
    }
}

/// The predecessor of a position modulo the length, without division.
proof fn lemma_predecessor(i: int, n: int)
    requires
        0 <= i < n,
    ensures
        (i - 1 + n) % n == if i == 0 {
            n - 1
        } else {
            i - 1
        },
{
    if i == 0 {
        lemma_small_mod((n - 1) as nat, n as nat);
    } else {
        lemma_mod_add_multiples_vanish(i - 1, n);
        lemma_small_mod((i - 1) as nat, n as nat);
    }
}

/// After `k` steps forward from position `i`, the highlight is at
/// `(i + k) mod N`, and the labels are unchanged.
proof fn lemma_next_n_position(m: ListModel, i: int, k: nat)
    requires
        m.wf(),
        m.selected == Some(i),
    ensures
        m.next_n(k).items == m.items,
        m.next_n(k).selected == Some((i + k) % (m.items.len() as int)),
    decreases k,
{
    let n = m.items.len() as int;
    if k == 0 {
        lemma_small_mod(i as nat, n as nat);
    } else {
        lemma_next_n_position(m, i, (k - 1) as nat);
        lemma_add_mod_noop_right(1, i + k - 1, n);
    }
}

/// After `k` steps backward from position `i`, the highlight is at
/// `(i - k) mod N`, and the labels are unchanged.
proof fn lemma_previous_n_position(m: ListModel, i: int, k: nat)
    requires
        m.wf(),
        m.selected == Some(i),
    ensures
        m.previous_n(k).items == m.items,
        m.previous_n(k).selected == Some((i - k) % (m.items.len() as int)),
    decreases k,
{
    let n = m.items.len() as int;
    if k == 0 {
        lemma_small_mod(i as nat, n as nat);
    } else {
        lemma_previous_n_position(m, i, (k - 1) as nat);
        lemma_add_mod_noop_right(n - 1, i - k + 1, n);
        lemma_mod_add_multiples_vanish(i - k, n);
    }
}

/// On a list with at least one label and no highlight, one step in either
/// direction highlights the first label.
pub proof fn lemma_first_step_highlights_first(m: ListModel)
    requires
        m.items.len() >= 1,
        m.selected is None,
    ensures
        m.next().selected == Some(0int),
        m.previous().selected == Some(0int),
        m.next().items == m.items,
        m.previous().items == m.items,
{
}

/// From position `i` of a list of `N` labels, a step forward highlights
/// position `(i + 1) mod N`, which is the following position or, from the
/// last, the first; a step backward highlights position `(i - 1 + N) mod N`,
/// which is the preceding position or, from the first, the last. Both are
/// positions of the list, and the labels stay as they are.
pub proof fn lemma_step_wraps(m: ListModel, i: int)
    requires
        m.wf(),
        m.selected == Some(i),
    ensures
        m.next().selected == Some((i + 1) % (m.items.len() as int)),
        m.next().selected == Some(
            if i == m.items.len() - 1 {
                0
            } else {
                i + 1
            },
        ),
        m.previous().selected == Some((i - 1 + m.items.len()) % (m.items.len() as int)),
        m.previous().selected == Some(
            if i == 0 {
                m.items.len() - 1
            } else {
                i - 1
            },
        ),
        m.next().wf(),
        m.previous().wf(),
        m.next().items == m.items,
        m.previous().items == m.items,
{
    lemma_successor(i, m.items.len() as int);
    lemma_predecessor(i, m.items.len() as int);
}

/// Stepping forward as many times as the list has labels brings the
/// highlight back to where it was.
pub proof fn lemma_next_cycle(m: ListModel)
    requires
        m.wf(),
        m.selected is Some,
    ensures
        m.next_n(m.items.len()) == m,
{
    let i = m.selected->0;
    let n = m.items.len() as int;
    lemma_next_n_position(m, i, m.items.len());
    lemma_mod_add_multiples_vanish(i, n);
    lemma_small_mod(i as nat, n as nat);
}

/// Stepping backward as many times as the list has labels brings the
/// highlight back to where it was.
pub proof fn lemma_previous_cycle(m: ListModel)
    requires
        m.wf(),
        m.selected is Some,
    ensures
        m.previous_n(m.items.len()) == m,
{
    let i = m.selected->0;
    let n = m.items.len() as int;
    lemma_previous_n_position(m, i, m.items.len());
    lemma_mod_sub_multiples_vanish(i, n);
    lemma_small_mod(i as nat, n as nat);
}

/// The labels of `items`, each as its sequence of characters.
pub open spec fn labels(items: Seq<String>) -> Seq<Seq<char>> {
    items.map_values(|s: String| s@)
}

/// An ordered list of labels with at most one of them highlighted.
#[derive(Debug)]
pub struct SelectionList {
    items: Vec<String>,
    selected: Option<usize>,
}

impl View for SelectionList {
    type V = ListModel;

    closed spec fn view(&self) -> ListModel {
        ListModel {
            items: labels(self.items@),
            selected: match self.selected {
                Some(i) => Some(i as int),
                None => None,
            },
        }
    }
}

impl SelectionList {
    /// Holds of every list: its model is well formed.
    #[verifier::type_invariant]
    pub open spec fn valid(self) -> bool {
        self@.wf()
    }

    /// A list of the given labels with none of them highlighted. The list
    /// may be empty; navigation then does nothing.
    pub fn with_items(items: Vec<String>) -> (list: SelectionList)
        ensures
            list@.items == labels(items@),
            list@.selected is None,
            list@.wf(),
    {
        SelectionList { items, selected: None }
    }

    /// The labels, in order.
    pub fn items(&self) -> (items: &Vec<String>)
        ensures
            labels(items@) == self@.items,
    {
        &self.items
    }

    /// The number of labels.
    pub fn len(&self) -> (n: usize)
        ensures
            n == self@.items.len(),
    {
        self.items.len()
    }

    /// The highlighted position, if any; it is a position of the list.
    pub fn selected(&self) -> (selected: Option<usize>)
        ensures
            self@.wf(),
            self@.selected == match selected {
                Some(i) => Some(i as int),
                None => None,
            },
    {
        proof {
            use_type_invariant(self);
        }
        self.selected
    }

    /// The highlighted label, if any.
    pub fn selected_item(&self) -> (item: Option<&String>)
        ensures
            self@.wf(),
            match item {
                Some(label) => self@.selected is Some && label@ == self@.items[self@.selected->0],
                None => self@.selected is None,
            },
    {
        proof {
            use_type_invariant(self);
        }
        match self.selected {
            Some(i) => Some(&self.items[i]),
            None => None,
        }
    }

    /// Moves the highlight one position forward, wrapping from the last label
    /// to the first; highlights the first label if none was highlighted.
    /// Does nothing on a list without labels.
    pub fn next(&mut self)
        ensures
            final(self)@ == old(self)@.next(),
            final(self)@.wf(),
    {
        proof {
            use_type_invariant(&*self);
        }
        let n: usize = self.items.len();
        if n == 0 {
            return;
        }
        let i: usize = match self.selected {
            Some(i) => {
                proof {
                    lemma_successor(i as int, n as int);
                }
                if i >= n - 1 {
                    0
                } else {
                    i + 1
                }
            },
            None => 0,
        };
        self.selected = Some(i);
    }

    /// Moves the highlight one position backward, wrapping from the first
    /// label to the last; highlights the first label if none was highlighted.
    /// Does nothing on a list without labels.
    pub fn previous(&mut self)
        ensures
            final(self)@ == old(self)@.previous(),
            final(self)@.wf(),
    {
        proof {
            use_type_invariant(&*self);
        }
        let n: usize = self.items.len();
        if n == 0 {
            return;
        }
        let i: usize = match self.selected {
            Some(i) => {
                proof {
                    lemma_predecessor(i as int, n as int);
                }
                if i == 0 {
                    n - 1
                } else {
                    i - 1
                }
            },
            None => 0,
        };
        self.selected = Some(i);
    }
}

} // verus!
