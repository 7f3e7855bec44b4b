//! Selectable lists and the item records they hold.
//!
//! A [`Lists`] pairs the items the program manages with the index of the
//! selected one; moving the selection wraps around at either end.

use vstd::prelude::*;

verus! {

/// One group the subject belongs to.
pub struct GroupInfo {
    pub name: String,
    pub id: String,
    /// Identifier of the group's last message.
    pub lmid: String,
    pub message_count: u64,
}

/// One direct-message conversation partner.
pub struct DirectMessage {
    pub name: String,
    pub id: String,
}

/// One fetched message, shaped for display.
pub struct MsgInfo {
    pub id: String,
    pub num_likes: usize,
    /// The image attachment addresses of the message.
    pub attachments: Vec<String>,
    /// Whether the subject already liked this message.
    pub liked: bool,
}

/// A list of items together with the selected index, if any. Whenever an
/// index is selected it lies inside the list.
pub struct Lists<T> {
    pub items: Vec<T>,
    pub selected: Option<usize>,
}

impl<T> Lists<T> {
    /// A selection, when present, stays inside the list.
    pub open spec fn inv(&self) -> bool {
        self.selected matches Some(i) ==> i < self.items.len()
    }

    /// A new list; `select_first` puts the selection on the first item of
    /// a non-empty list. An empty list starts unselected either way.
    pub fn new(items: Vec<T>, select_first: bool) -> (r: Lists<T>)
        ensures
            r.inv(),
            r.items == items,
            r.selected == if select_first && items.len() > 0 {
                Some(0usize)
            } else {
                None::<usize>
            },
    {
        let selected: Option<usize> = if select_first && items.len() > 0 {
            Some(0)
        } else {
            None
        };
        Lists { selected, items }
    }

    /// Replaces the items and clears the selection.
    pub fn set_items(&mut self, items: Vec<T>)
        ensures
            final(self).inv(),
            final(self).items == items,
            final(self).selected is None,
    {
        self.items = items;
        self.selected = None;
    }

    /// Moves the selection to the next item, wrapping to the first past
    /// the end; an empty selection lands on the first item.
    pub fn next(&mut self)
        requires
            old(self).inv(),
            old(self).items.len() > 0,
        ensures
            final(self).inv(),
            final(self).items == old(self).items,
            final(self).selected == Some(
                match old(self).selected {
                    Some(i) => if i + 1 == old(self).items.len() {
                        0usize
                    } else {
                        (i + 1) as usize
                    },
                    None => 0usize,
                },
            ),
    {
        let i: usize = match self.selected {
            Some(i) => {
                if i >= self.items.len() - 1 {
                    0
                } else {
                    i + 1
                }
            },
            None => 0,
        };
        self.selected = Some(i);
    }

    /// Moves the selection to the previous item, wrapping to the last
    /// before the first; an empty selection lands on the last item.
    pub fn previous(&mut self)
        requires
            old(self).inv(),
            old(self).items.len() > 0,
        ensures
            final(self).inv(),
            final(self).items == old(self).items,
            final(self).selected == Some(
                match old(self).selected {
                    Some(i) => if i == 0 {
                        (old(self).items.len() - 1) as usize
                    } else {
                        (i - 1) as usize
                    },
                    None => (old(self).items.len() - 1) as usize,
                },
            ),
    {
        let i: usize = match self.selected {
            Some(i) => {
                if i == 0 {
                    self.items.len() - 1
                } else {
                    i - 1
                }
            },
            None => self.items.len() - 1,
        };
        self.selected = Some(i);
    }
}

} // verus!
