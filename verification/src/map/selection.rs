use vstd::prelude::*;
use crate::map::interaction::SelectionChange;

verus! {

/// The selected star node and the info menu on screen.
pub struct Selection {
    /// The selected node, if any: at most one node is selected at a time.
    pub selected: Option<u64>,
    /// The node that the info menu on screen describes, if a menu with content is shown.
    pub menu: Option<u64>,
}

impl Selection {
    /// Whether an info menu with content is on screen.
    pub open spec fn menu_open(self) -> bool {
        self.menu is Some
    }

    /// The menu on screen describes the selected node, and no menu is shown while no node is
    /// selected.
    pub open spec fn wf(self) -> bool {
        self.menu == self.selected
    }
}

/// The selection after a click's change: `Select(id)` selects exactly `id` and shows its
/// menu, `Clear` deselects everything and empties the menu, `Keep` changes nothing.
pub open spec fn applied(s: Selection, change: SelectionChange) -> Selection {
    match change {
        SelectionChange::Keep => s,
        SelectionChange::Select(id) => Selection { selected: Some(id), menu: Some(id) },
        SelectionChange::Clear => Selection { selected: None, menu: None },
    }
}

/// The selection after a frame of the close-menu control: a right click closes the menu and
/// deselects everything.
pub open spec fn after_close(s: Selection, right_just_pressed: bool) -> Selection {
    if right_just_pressed {
        Selection { selected: None, menu: None }
    } else {
        s
    }
}

impl Default for Selection {
    /// Nothing selected and no menu.
    fn default() -> (s: Self)
        ensures
            s.selected is None,
            s.menu is None,
            s.wf(),
    {
        Selection { selected: None, menu: None }
    }
}

impl Selection {
    /// Applies what a click decided.
    pub fn apply(&mut self, change: SelectionChange)
        ensures
            *final(self) == applied(*old(self), change),
    {
        match change {
            SelectionChange::Keep => {},
            SelectionChange::Select(id) => {
                self.selected = Some(id);
                self.menu = Some(id);
            },
            SelectionChange::Clear => {
                self.selected = None;
                self.menu = None;
            },
        }
    }

    /// Handles the close-menu control for one frame; returns whether the menu is closed (the
    /// caller then removes the menus and the selection marks).
    pub fn close_menu_step(&mut self, right_just_pressed: bool) -> (closed: bool)
        ensures
            closed == right_just_pressed,
            *final(self) == after_close(*old(self), right_just_pressed),
    {
        if right_just_pressed {
            self.selected = None;
            self.menu = None;
        }
        right_just_pressed
    }

    /// Whether `id` is the selected node.
    pub fn is_selected(&self, id: u64) -> (sel: bool)
        ensures
            sel == (self.selected == Some(id)),
    {
        match self.selected {
            Some(s) => s == id,
            None => false,
        }
    }
}

/// Every change of the selection keeps the menu with it: starting from a state where the
/// menu describes the selected node, after any click or close-menu frame a menu is open if and
/// only if a node is selected, and then it describes that node; a selecting click leaves
/// exactly the clicked node selected.
pub proof fn lemma_menu_follows_selection(s: Selection, change: SelectionChange, right: bool)
    requires
        s.wf(),
    ensures
        applied(s, change).wf(),
        after_close(s, right).wf(),
        applied(s, change).menu_open() <==> applied(s, change).selected is Some,
        after_close(s, right).menu_open() <==> after_close(s, right).selected is Some,
        change matches SelectionChange::Select(id) ==> applied(s, change).selected == Some(id),
{
}

} // verus!
