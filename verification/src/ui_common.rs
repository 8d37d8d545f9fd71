//! A cursor over a list of item ids, shared by menu screens.

use vstd::prelude::*;

verus! {

/// Where the cursor lands: the new index wraps around once at either end
/// of the list.
pub open spec fn spec_wrapped_cursor(cursor: int, delta: int, len: int) -> int {
    let moved = cursor + delta;
    if moved < 0 {
        moved + len
    } else if moved >= len {
        moved - len
    } else {
        moved
    }
}

pub struct ItemMenu {
    pub item_ids: Vec<u32>,
    pub cursor_index: usize,
}

impl ItemMenu {
    pub fn new(item_ids: Vec<u32>) -> (menu: ItemMenu)
        ensures
            menu.item_ids@ == item_ids@,
            menu.cursor_index == 0,
    {
        ItemMenu { item_ids, cursor_index: 0 }
    }

    pub fn is_empty(&self) -> (r: bool)
        ensures
            r == (self.item_ids@.len() == 0),
    {
        self.item_ids.len() == 0
    }

    /// Moves the cursor by `delta`, wrapping around the list; does nothing
    /// on an empty list, whatever `delta` is. On a non-empty list a step
    /// larger than the list would wrap more than once and is excluded.
    pub fn move_cursor(&mut self, delta: i32)
        requires
            old(self).item_ids@.len() <= i32::MAX as int,
            old(self).item_ids@.len() > 0 ==> (old(self).cursor_index as int) < old(
                self,
            ).item_ids@.len() && -(old(self).item_ids@.len() as int) <= delta as int <= old(
                self,
            ).item_ids@.len() as int,
        ensures
            final(self).item_ids@ == old(self).item_ids@,
            old(self).item_ids@.len() == 0 ==> final(self).cursor_index == old(
                self,
            ).cursor_index,
            old(self).item_ids@.len() > 0 ==> final(self).cursor_index as int
                == spec_wrapped_cursor(
                old(self).cursor_index as int,
                delta as int,
                old(self).item_ids@.len() as int,
            ) && (final(self).cursor_index as int) < old(self).item_ids@.len(),
    {
        if self.is_empty() {
            return ;
        }
        let len: i64 = self.item_ids.len() as i64;
        let mut new_index: i64 = self.cursor_index as i64 + delta as i64;
        if new_index < 0 {
            new_index += len;
        }
        if new_index >= len {
            new_index -= len;
        }
        self.cursor_index = new_index as usize;
    }
}

} // verus!
