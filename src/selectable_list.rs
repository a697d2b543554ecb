//! A list of labels with a selection that wraps around at both ends.
use vstd::prelude::*;
use vstd::arithmetic::div_mod::{
    lemma_add_mod_noop_right,
    lemma_mod_add_multiples_vanish,
    lemma_mod_self_0,
    lemma_small_mod,
};

verus! {

/// The index after `i` in a cyclic list of `len` items.
pub open spec fn next_index(i: int, len: int) -> int {
    (i + 1) % len
}

/// The index before `i` in a cyclic list of `len` items.
pub open spec fn prev_index(i: int, len: int) -> int {
    (i + len - 1) % len
}

/// `k` steps forward from `i`.
pub open spec fn advance(i: int, len: int, k: nat) -> int
    decreases k,
{
    if k == 0 {
        i
    } else {
        next_index(advance(i, len, (k - 1) as nat), len)
    }
}

/// The selection after a step forward: unchanged on an empty list, else
/// the index after the current one (no selection counts as the first).
pub open spec fn next_selection(sel: Option<usize>, len: nat) -> Option<usize> {
    if len == 0 {
        sel
    } else {
        let i = match sel {
            Some(i) => i as int,
            None => 0,
        };
        Some(next_index(i, len as int) as usize)
    }
}

/// The selection after a step back, read as `next_selection` is.
pub open spec fn prev_selection(sel: Option<usize>, len: nat) -> Option<usize> {
    if len == 0 {
        sel
    } else {
        let i = match sel {
            Some(i) => i as int,
            None => 0,
        };
        Some(prev_index(i, len as int) as usize)
    }
}

proof fn lemma_advance_mod(i: int, len: int, k: nat)
    requires
        0 <= i < len,
    ensures
        advance(i, len, k) == (i + k) % len,
    decreases k,
{
    if k == 0 {
        lemma_small_mod(i as nat, len as nat);
    } else {
        lemma_advance_mod(i, len, (k - 1) as nat);
        lemma_add_mod_noop_right(1, i + k - 1, len);
    }
}

proof fn lemma_index_round_trip(i: int, len: int)
    requires
        0 <= i < len,
    ensures
        prev_index(next_index(i, len), len) == i,
        next_index(prev_index(i, len), len) == i,
{
    lemma_small_mod(i as nat, len as nat);
    lemma_mod_self_0(len);
    lemma_mod_add_multiples_vanish(i, len);
    if i + 1 < len {
        lemma_small_mod((i + 1) as nat, len as nat);
    } else {
        lemma_small_mod((len - 1) as nat, len as nat);
    }
    if i == 0 {
        lemma_small_mod((len - 1) as nat, len as nat);
    } else {
        lemma_mod_add_multiples_vanish(i - 1, len);
        lemma_small_mod((i - 1) as nat, len as nat);
    }
}

/// The selection after `k` steps forward.
pub open spec fn steps_forward(sel: Option<usize>, len: nat, k: nat) -> Option<usize>
    decreases k,
{
    if k == 0 {
        sel
    } else {
        next_selection(steps_forward(sel, len, (k - 1) as nat), len)
    }
}

proof fn lemma_steps_forward(i: usize, len: nat, k: nat)
    requires
        i < len <= usize::MAX,
    ensures
        steps_forward(Some(i), len, k) == Some(advance(i as int, len as int, k) as usize),
        0 <= advance(i as int, len as int, k) < len,
    decreases k,
{
    if k > 0 {
        lemma_steps_forward(i, len, (k - 1) as nat);
    }
}

/// On a list of `len` items, stepping forward `len` times brings a
/// selection back to where it started.
pub proof fn lemma_next_full_cycle(i: usize, len: nat)
    requires
        i < len <= usize::MAX,
    ensures
        steps_forward(Some(i), len, len) == Some(i),
{
    lemma_steps_forward(i, len, len);
    lemma_advance_mod(i as int, len as int, len);
    lemma_mod_add_multiples_vanish(i as int, len as int);
    lemma_small_mod(i as nat, len);
}

/// A step back undoes a step forward, and a step forward undoes a step back.
pub proof fn lemma_prev_inverts_next(i: usize, len: nat)
    requires
        i < len <= usize::MAX,
    ensures
        prev_selection(next_selection(Some(i), len), len) == Some(i),
        next_selection(prev_selection(Some(i), len), len) == Some(i),
{
    lemma_index_round_trip(i as int, len as int);
}

/// Items, selection and focus of a list panel. The selection is kept as it
/// is when the items are replaced, so it may point past the end until the
/// next step brings it back in range.
#[derive(Debug)]
pub struct SelectableListState {
    items: Vec<String>,
    selected: Option<usize>,
    is_focus: bool,
}

impl SelectableListState {
    pub closed spec fn entries(&self) -> Seq<String> {
        self.items@
    }

    pub closed spec fn selection(&self) -> Option<usize> {
        self.selected
    }

    pub closed spec fn focused(&self) -> bool {
        self.is_focus
    }

    /// The item under the selection, if the selection points at one.
    pub open spec fn selected_entry(&self) -> Option<String> {
        match self.selection() {
            Some(i) => if i < self.entries().len() {
                Some(self.entries()[i as int])
            } else {
                None
            },
            None => None,
        }
    }

    /// A list over `items`, with the first selected if there is one.
    pub fn new(items: Vec<String>) -> (r: Self)
        ensures
            r.entries() == items@,
            r.selection() == (if items@.len() > 0 {
                Some(0usize)
            } else {
                None
            }),
            !r.focused(),
    {
        let selected = if items.len() > 0 {
            Some(0)
        } else {
            None
        };
        SelectableListState { items, selected, is_focus: false }
    }

    /// Replaces the items; the selection stays as it was.
    pub fn update_items(&mut self, new_items: Vec<String>)
        ensures
            final(self).entries() == new_items@,
            final(self).selection() == old(self).selection(),
            final(self).focused() == old(self).focused(),
    {
        self.items = new_items;
    }

    /// Selects the next item, wrapping from the last to the first.
    pub fn next(&mut self)
        ensures
            final(self).entries() == old(self).entries(),
            final(self).selection() == next_selection(
                old(self).selection(),
                old(self).entries().len(),
            ),
            final(self).focused() == old(self).focused(),
    {
        let len = self.items.len();
        if len == 0 {
            return;
        }
        let i = match self.selected {
            Some(i) => i,
            None => 0,
        };
        let r = i % len;
        let n = if r + 1 == len {
            0
        } else {
            r + 1
        };
        proof {
            lemma_add_mod_noop_right(1, i as int, len as int);
            lemma_mod_self_0(len as int);
            if r + 1 < len {
                lemma_small_mod((r + 1) as nat, len as nat);
            }
        }
        self.selected = Some(n);
    }

    /// Selects the previous item, wrapping from the first to the last.
    pub fn previous(&mut self)
        ensures
            final(self).entries() == old(self).entries(),
            final(self).selection() == prev_selection(
                old(self).selection(),
                old(self).entries().len(),
            ),
            final(self).focused() == old(self).focused(),
    {
        let len = self.items.len();
        if len == 0 {
            return;
        }
        let i = match self.selected {
            Some(i) => i,
            None => 0,
        };
        let r = i % len;
        let n = if r == 0 {
            len - 1
        } else {
            r - 1
        };
        proof {
            lemma_add_mod_noop_right(len - 1, i as int, len as int);
            if r == 0 {
                lemma_small_mod((len - 1) as nat, len as nat);
            } else {
                lemma_mod_add_multiples_vanish(r - 1, len as int);
                lemma_small_mod((r - 1) as nat, len as nat);
            }
        }
        self.selected = Some(n);
    }

    pub fn selected(&self) -> (r: Option<usize>)
        ensures
            r == self.selection(),
    {
        self.selected
    }

    /// The selected item, or none if nothing is selected or the selection
    /// lies past the end.
    pub fn selected_item(&self) -> (r: Option<&str>)
        ensures
            match r {
                Some(s) => self.selected_entry() is Some && s@ == self.selected_entry()->0@,
                None => self.selected_entry() is None,
            },
    {
        match self.selected {
            Some(i) => if i < self.items.len() {
                Some(self.items[i].as_str())
            } else {
                None
            },
            None => None,
        }
    }

    pub fn items(&self) -> (r: &[String])
        ensures
            r@ == self.entries(),
    {
        self.items.as_slice()
    }

    pub fn set_focus(&mut self, focus: bool)
        ensures
            final(self).entries() == old(self).entries(),
            final(self).selection() == old(self).selection(),
            final(self).focused() == focus,
    {
        self.is_focus = focus;
    }

    pub fn is_focused(&self) -> (r: bool)
        ensures
            r == self.focused(),
    {
        self.is_focus
    }
}

/// The titled list panel that draws a `SelectableListState`.
#[derive(Debug)]
pub struct SelectableList {
    name: String,
}

impl SelectableList {
    pub closed spec fn title(&self) -> Seq<char> {
        self.name@
    }

    pub fn new(name: String) -> (r: Self)
        ensures
            r.title() == name@,
    {
        SelectableList { name }
    }

    pub fn name(&self) -> (r: &str)
        ensures
            r@ == self.title(),
    {
        self.name.as_str()
    }
}

} // verus!
