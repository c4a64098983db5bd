//! Selection state for the list menus of the control surface.
//!
//! A menu holds an ordered list of entries and an optional highlighted
//! index. Moving the highlight forward or backward wraps around the ends
//! of the list; an empty list always yields index 0, and a direct
//! `select` places the highlight without a bounds check, exactly as the
//! rendering layer tolerates.

use vstd::prelude::*;

verus! {

/// Where the highlight lands after one step forward.
pub open spec fn next_selection(selected: Option<usize>, len: usize) -> usize {
    match selected {
        Option::None => 0usize,
        Option::Some(i) => if len == 0 || i >= len - 1 {
            0usize
        } else {
            (i + 1) as usize
        },
    }
}

/// Where the highlight lands after one step backward.
pub open spec fn previous_selection(selected: Option<usize>, len: usize) -> usize {
    match selected {
        Option::None => 0usize,
        Option::Some(i) => if i == 0 {
            if len == 0 {
                0usize
            } else {
                (len - 1) as usize
            }
        } else {
            (i - 1) as usize
        },
    }
}

pub struct Menu {
    pub items: Vec<String>,
    pub selected: Option<usize>,
}

impl Menu {
    /// A fresh menu starts with nothing highlighted.
    pub fn new(items: Vec<String>) -> (m: Menu)
        ensures
            m.items == items,
            m.selected is None,
    {
        Menu { items, selected: None }
    }

    /// Replaces the entries and clears the highlight.
    pub fn set_items(&mut self, items: Vec<String>)
        ensures
            final(self).items == items,
            final(self).selected is None,
    {
        self.items = items;
        self.selected = None;
    }

    /// Moves the highlight to the next entry, wrapping to the first
    /// after the last.
    pub fn next(&mut self)
        ensures
            final(self).items == old(self).items,
            final(self).selected == Some(next_selection(old(self).selected, old(self).items.len())),
    {
        let i: usize = match self.selected {
            Some(i) => {
                if self.items.len() == 0 || i >= self.items.len() - 1 {
                    0
                } else {
                    i + 1
                }
            },
            None => 0,
        };
        self.selected = Some(i);
    }

    /// Moves the highlight to the previous entry, wrapping to the last
    /// before the first.
    pub fn previous(&mut self)
        ensures
            final(self).items == old(self).items,
            final(self).selected == Some(
                previous_selection(old(self).selected, old(self).items.len()),
            ),
    {
        let i: usize = match self.selected {
            Some(i) => {
                if i == 0 {
                    if self.items.len() == 0 {
                        0
                    } else {
                        self.items.len() - 1
                    }
                } else {
                    i - 1
                }
            },
            None => 0,
        };
        self.selected = Some(i);
    }

    /// Clears the highlight.
    pub fn deselect(&mut self)
        ensures
            final(self).items == old(self).items,
            final(self).selected is None,
    {
        self.selected = None;
    }

    /// Places the highlight on a given index, without a bounds check.
    pub fn select(&mut self, index: usize)
        ensures
            final(self).items == old(self).items,
            final(self).selected == Some(index),
    {
        self.selected = Some(index);
    }
}

} // verus!
