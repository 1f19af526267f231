//! An ordered list with at most one highlighted position.

use vstd::prelude::*;

verus! {

/// The position that is highlighted after one step forward in a list of `len`
/// items: nothing moves in an empty list, the first step lands on the first
/// item, and the step past the last item wraps to the first.
pub open spec fn after_next(len: nat, selected: Option<nat>) -> Option<nat> {
    if len == 0 {
        selected
    } else {
        match selected {
            None => Some(0nat),
            Some(i) => if i + 1 >= len {
                Some(0nat)
            } else {
                Some(i + 1)
            },
        }
    }
}

/// The position that is highlighted after one step backward: the mirror image
/// of `after_next`, wrapping from the first item to the last. With nothing
/// highlighted the step lands on the first item.
pub open spec fn after_previous(len: nat, selected: Option<nat>) -> Option<nat> {
    if len == 0 {
        selected
    } else {
        match selected {
            None => Some(0nat),
            Some(i) => if i == 0 {
                Some((len - 1) as nat)
            } else {
                Some((i - 1) as nat)
            },
        }
    }
}

/// `after_next` applied `steps` times.
pub open spec fn after_next_steps(len: nat, selected: Option<nat>, steps: nat) -> Option<nat>
    decreases steps,
{
    if steps == 0 {
        selected
    } else {
        after_next(len, after_next_steps(len, selected, (steps - 1) as nat))
    }
}

/// `after_previous` applied `steps` times.
pub open spec fn after_previous_steps(len: nat, selected: Option<nat>, steps: nat) -> Option<nat>
    decreases steps,
{
    if steps == 0 {
        selected
    } else {
        after_previous(len, after_previous_steps(len, selected, (steps - 1) as nat))
    }
}

/// A list of items of which at most one is highlighted.
pub struct SelectableList<T> {
    items: Vec<T>,
    selected: Option<usize>,
}

impl<T> SelectableList<T> {
    #[verifier::type_invariant]
    spec fn inv(&self) -> bool {
        match self.selected {
            Some(i) => i < self.items.len(),
            None => true,
        }
    }

    /// The items, in order.
    pub closed spec fn entries(&self) -> Seq<T> {
        self.items@
    }

    /// The highlighted position, if any.
    pub closed spec fn selection(&self) -> Option<nat> {
        match self.selected {
            Some(i) => Some(i as nat),
            None => None,
        }
    }

    /// An empty list with nothing highlighted.
    pub fn new() -> (list: Self)
        ensures
            list.entries() == Seq::<T>::empty(),
            list.selection() == None::<nat>,
    {
        SelectableList { items: Vec::new(), selected: None }
    }

    /// A list of the given items with nothing highlighted.
    pub fn with_items(items: Vec<T>) -> (list: Self)
        ensures
            list.entries() == items@,
            list.selection() == None::<nat>,
    {
        SelectableList { items, selected: None }
    }

    /// Highlights the next item, wrapping past the last one to the first.
    pub fn select_next(&mut self)
        ensures
            final(self).entries() == old(self).entries(),
            final(self).selection() == after_next(old(self).entries().len(), old(self).selection()),
    {
        proof {
            use_type_invariant(&*self);
        }
        let n: usize = self.items.len();
        if n == 0 {
            return ;
        }
        let next: usize = match self.selected {
            None => 0,
            Some(i) => if i + 1 >= n {
                0
            } else {
                i + 1
            },
        };
        self.selected = Some(next);
    }

    /// Highlights the previous item, wrapping from the first one to the last.
    pub fn select_previous(&mut self)
        ensures
            final(self).entries() == old(self).entries(),
            final(self).selection() == after_previous(
                old(self).entries().len(),
                old(self).selection(),
            ),
    {
        proof {
            use_type_invariant(&*self);
        }
        let n: usize = self.items.len();
        if n == 0 {
            return ;
        }
        let previous: usize = match self.selected {
            None => 0,
            Some(i) => if i == 0 {
                n - 1
            } else {
                i - 1
            },
        };
        self.selected = Some(previous);
    }

    /// Removes the highlight, whatever it was.
    pub fn unselect(&mut self)
        ensures
            final(self).entries() == old(self).entries(),
            final(self).selection() == None::<nat>,
    {
        self.selected = None;
    }

    /// Installs new items. Nothing is highlighted afterwards: a caller that
    /// wants the highlight to follow an item selects it again.
    pub fn replace(&mut self, items: Vec<T>)
        ensures
            final(self).entries() == items@,
            final(self).selection() == None::<nat>,
    {
        self.selected = None;
        self.items = items;
    }

    /// Highlights the item at `index`, or nothing where the list has no such
    /// position.
    pub fn select(&mut self, index: usize)
        ensures
            final(self).entries() == old(self).entries(),
            final(self).selection() == if index < old(self).entries().len() {
                Some(index as nat)
            } else {
                None::<nat>
            },
    {
        if index < self.items.len() {
            self.selected = Some(index);
        } else {
            self.selected = None;
        }
    }

    /// Appends one item at the end and keeps the highlight where it is.
    pub fn push(&mut self, item: T)
        ensures
            final(self).entries() == old(self).entries().push(item),
            final(self).selection() == old(self).selection(),
    {
        proof {
            use_type_invariant(&*self);
        }
        let kept: Option<usize> = self.selected;
        self.selected = None;
        let mut items: Vec<T> = Vec::new();
        std::mem::swap(&mut self.items, &mut items);
        items.push(item);
        self.items = items;
        self.selected = kept;
    }

    /// The number of items.
    pub fn len(&self) -> (n: usize)
        ensures
            n == self.entries().len(),
    {
        self.items.len()
    }

    /// Whether the list holds no item.
    pub fn is_empty(&self) -> (empty: bool)
        ensures
            empty == (self.entries().len() == 0),
    {
        self.items.len() == 0
    }

    /// The highlighted position, if any.
    pub fn selected(&self) -> (index: Option<usize>)
        ensures
            match index {
                Some(i) => self.selection() == Some(i as nat) && i < self.entries().len(),
                None => self.selection() == None::<nat>,
            },
    {
        proof {
            use_type_invariant(self);
        }
        self.selected
    }

    /// The item at `index`, if the list has that position.
    pub fn get(&self, index: usize) -> (item: Option<&T>)
        ensures
            item == if index < self.entries().len() {
                Some(&self.entries()[index as int])
            } else {
                None
            },
    {
        if index < self.items.len() {
            Some(&self.items[index])
        } else {
            None
        }
    }

    /// The highlighted item, if any.
    pub fn selected_item(&self) -> (item: Option<&T>)
        ensures
            item == match self.selection() {
                Some(i) => Some(&self.entries()[i as int]),
                None => None,
            },
    {
        proof {
            use_type_invariant(self);
        }
        match self.selected {
            Some(i) => Some(&self.items[i]),
            None => None,
        }
    }

    /// The items, in order.
    pub fn items(&self) -> (items: &Vec<T>)
        ensures
            items@ == self.entries(),
    {
        &self.items
    }
}

/// Stepping forward `steps` times from position `start`, with `steps` no more
/// than the length, lands on `start + steps` reduced once by the length.
proof fn lemma_next_steps(len: nat, start: nat, steps: nat)
    requires
        start < len,
        steps <= len,
    ensures
        after_next_steps(len, Some(start), steps) == Some(
            if start + steps < len {
                start + steps
            } else {
                (start + steps - len) as nat
            },
        ),
    decreases steps,
{
    if steps > 0 {
        lemma_next_steps(len, start, (steps - 1) as nat);
    }
}

/// Stepping backward `steps` times from position `start`, with `steps` no more
/// than the length, lands on `start - steps` raised once by the length.
proof fn lemma_previous_steps(len: nat, start: nat, steps: nat)
    requires
        start < len,
        steps <= len,
    ensures
        after_previous_steps(len, Some(start), steps) == Some(
            if steps <= start {
                (start - steps) as nat
            } else {
                (start + len - steps) as nat
            },
        ),
    decreases steps,
{
    if steps > 0 {
        lemma_previous_steps(len, start, (steps - 1) as nat);
    }
}

/// Stepping forward as many times as the list has items returns the
/// highlight to the position it started from.
pub proof fn lemma_next_cycle(len: nat, start: nat)
    requires
        start < len,
    ensures
        after_next_steps(len, Some(start), len) == Some(start),
{
    lemma_next_steps(len, start, len);
}

/// Stepping backward as many times as the list has items returns the
/// highlight to the position it started from.
pub proof fn lemma_previous_cycle(len: nat, start: nat)
    requires
        start < len,
    ensures
        after_previous_steps(len, Some(start), len) == Some(start),
{
    lemma_previous_steps(len, start, len);
}

/// A step forward from a list with nothing highlighted lands on the first
/// item, provided there is one.
pub proof fn lemma_next_after_unselect(len: nat)
    requires
        len > 0,
    ensures
        after_next(len, None) == Some(0nat),
{
}

/// A step backward undoes a step forward from any highlighted position.
pub proof fn lemma_previous_undoes_next(len: nat, start: nat)
    requires
        start < len,
    ensures
        after_previous(len, after_next(len, Some(start))) == Some(start),
        after_next(len, after_previous(len, Some(start))) == Some(start),
{
}

} // verus!
