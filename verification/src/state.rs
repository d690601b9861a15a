//! Navigation state: one browser view per level, and the stack of views.

use vstd::prelude::*;
use crate::jellyfin::MediaItem;
use crate::text::str_eq;

verus! {

/// One level of the browser: the listing of a parent and the selected row.
#[derive(Debug, Clone)]
pub struct BrowserState {
    pub parent_id: Option<String>,
    pub parent_kind: Option<String>,
    pub title: String,
    pub items: Vec<MediaItem>,
    pub selected: usize,
}

/// A browser view as values: titles and ids as character sequences.
pub struct BrowserStateView {
    pub parent_id: Option<Seq<char>>,
    pub parent_kind: Option<Seq<char>>,
    pub title: Seq<char>,
    pub items: Seq<MediaItem>,
    pub selected: nat,
}

/// The characters of an optional string.
pub open spec fn opt_view(o: Option<String>) -> Option<Seq<char>> {
    match o {
        Some(s) => Some(s@),
        None => None,
    }
}

impl View for BrowserState {
    type V = BrowserStateView;

    open spec fn view(&self) -> BrowserStateView {
        BrowserStateView {
            parent_id: opt_view(self.parent_id),
            parent_kind: opt_view(self.parent_kind),
            title: self.title@,
            items: self.items@,
            selected: self.selected as nat,
        }
    }
}

/// The row after `selected` in a listing of `len` rows; it stops at the last.
pub open spec fn next_index(selected: nat, len: nat) -> nat {
    if len == 0 {
        selected
    } else if selected + 1 < len {
        selected + 1
    } else {
        (len - 1) as nat
    }
}

/// The row before `selected`; it stops at the first.
pub open spec fn previous_index(selected: nat, len: nat) -> nat {
    if len == 0 || selected == 0 {
        selected
    } else {
        (selected - 1) as nat
    }
}

/// The selection is a row of the listing, or 0 when it is empty.
pub open spec fn selection_ok(selected: nat, len: nat) -> bool {
    if len == 0 {
        selected == 0
    } else {
        selected < len
    }
}

/// The row `selected` clamped into a listing of `len` rows (row 0 when empty).
pub open spec fn clamp_selection(selected: nat, len: nat) -> nat {
    if len == 0 {
        0
    } else if selected < len {
        selected
    } else {
        (len - 1) as nat
    }
}

impl BrowserState {
    /// The selection points at a row, or is 0 on an empty listing.
    pub open spec fn wf(&self) -> bool {
        selection_ok(self.selected as nat, self.items@.len())
    }

    /// A view of `items` with the first row selected.
    pub fn new(
        parent_id: Option<String>,
        parent_kind: Option<String>,
        title: String,
        items: Vec<MediaItem>,
    ) -> (res: Self)
        ensures
            res.parent_id == parent_id,
            res.parent_kind == parent_kind,
            res.title == title,
            res.items == items,
            res.selected == 0,
            res.wf(),
    {
        Self::with_selection(parent_id, parent_kind, title, items, 0)
    }

    /// A view of `items` whose selection is `selected` clamped to the last row.
    pub fn with_selection(
        parent_id: Option<String>,
        parent_kind: Option<String>,
        title: String,
        items: Vec<MediaItem>,
        selected: usize,
    ) -> (res: Self)
        ensures
            res.parent_id == parent_id,
            res.parent_kind == parent_kind,
            res.title == title,
            res.items == items,
            res.selected == clamp_selection(selected as nat, items@.len()),
            res.wf(),
    {
        let selected = if items.len() == 0 {
            0
        } else if selected < items.len() - 1 {
            selected
        } else {
            items.len() - 1
        };
        BrowserState { parent_id, parent_kind, title, items, selected }
    }

    /// The listing shows the episodes of a season.
    pub open spec fn spec_is_season_view(&self) -> bool {
        match self.parent_kind {
            Some(k) => k@ == "Season"@,
            None => false,
        }
    }

    pub fn is_season_view(&self) -> (res: bool)
        ensures
            res == self.spec_is_season_view(),
    {
        match &self.parent_kind {
            Some(k) => str_eq(k.as_str(), "Season"),
            None => false,
        }
    }

    /// The selection after moving down one row: it stops at the last row.
    pub open spec fn next_selection(&self) -> nat {
        next_index(self.selected as nat, self.items@.len())
    }

    /// Moves the selection down one row, stopping at the last row.
    pub fn next(&mut self)
        requires
            old(self).items@.len() > 0 ==> old(self).selected < usize::MAX,
        ensures
            final(self).selected == old(self).next_selection(),
            final(self).items == old(self).items,
            final(self).parent_id == old(self).parent_id,
            final(self).parent_kind == old(self).parent_kind,
            final(self).title == old(self).title,
            old(self).wf() ==> final(self).wf(),
    {
        if self.items.len() == 0 {
            return;
        }
        let up = self.selected + 1;
        let last = self.items.len() - 1;
        self.selected = if up < last { up } else { last };
    }

    /// The selection after moving up one row: it stops at the first row.
    pub open spec fn previous_selection(&self) -> nat {
        previous_index(self.selected as nat, self.items@.len())
    }

    /// Moves the selection up one row, stopping at the first row.
    pub fn previous(&mut self)
        ensures
            final(self).selected == old(self).previous_selection(),
            final(self).items == old(self).items,
            final(self).parent_id == old(self).parent_id,
            final(self).parent_kind == old(self).parent_kind,
            final(self).title == old(self).title,
            old(self).wf() ==> final(self).wf(),
    {
        if self.items.len() == 0 {
            return;
        }
        if self.selected > 0 {
            self.selected = self.selected - 1;
        }
    }

    /// The selected item, if the selection points at a row.
    pub open spec fn spec_selected_item(&self) -> Option<MediaItem> {
        if self.selected < self.items@.len() {
            Some(self.items@[self.selected as int])
        } else {
            None
        }
    }

    pub fn selected_item(&self) -> (res: Option<&MediaItem>)
        ensures
            match res {
                Some(item) => self.spec_selected_item() == Some(*item),
                None => self.spec_selected_item() is None,
            },
    {
        if self.selected < self.items.len() {
            Some(&self.items[self.selected])
        } else {
            None
        }
    }
}

/// The stack of browser views, root first. It is never empty.
#[derive(Debug)]
pub struct Navigator {
    stack: Vec<BrowserState>,
}

impl View for Navigator {
    type V = Seq<BrowserState>;

    closed spec fn view(&self) -> Seq<BrowserState> {
        self.stack@
    }
}

/// The stack after `push`.
pub open spec fn pushed(stack: Seq<BrowserState>, state: BrowserState) -> Seq<BrowserState> {
    stack.push(state)
}

/// The stack after `pop`, and what `pop` answers: the root level is never
/// popped.
pub open spec fn popped(stack: Seq<BrowserState>) -> (Seq<BrowserState>, bool) {
    if stack.len() > 1 {
        (stack.drop_last(), true)
    } else {
        (stack, false)
    }
}

/// The stack after `replace_current`.
pub open spec fn replaced(stack: Seq<BrowserState>, state: BrowserState) -> Seq<BrowserState> {
    stack.update(stack.len() - 1, state)
}

impl Navigator {
    /// The stack is never empty: the root view stays at the bottom.
    pub open spec fn wf(&self) -> bool {
        self@.len() >= 1
    }

    /// A navigator holding only `root`.
    pub fn new(root: BrowserState) -> (res: Self)
        ensures
            res@ == seq![root],
            res.wf(),
    {
        let mut stack = Vec::new();
        stack.push(root);
        Navigator { stack }
    }

    /// The view being shown: the top of the stack.
    pub fn current(&self) -> (res: &BrowserState)
        requires
            self.wf(),
        ensures
            *res == self@.last(),
    {
        &self.stack[self.stack.len() - 1]
    }

    /// The view being shown, for changing it in place.
    pub fn current_mut(&mut self) -> (res: &mut BrowserState)
        requires
            old(self).wf(),
        ensures
            final(self).wf(),
            *res == old(self)@.last(),
            final(self)@ == replaced(old(self)@, *final(res)),
    {
        let last = self.stack.len() - 1;
        &mut self.stack[last]
    }

    /// Opens `state` on top of the current view.
    pub fn push(&mut self, state: BrowserState)
        requires
            old(self).wf(),
        ensures
            final(self)@ == pushed(old(self)@, state),
            final(self).wf(),
    {
        self.stack.push(state);
    }

    /// Goes back one level. Returns `false`, and changes nothing, at the root.
    pub fn pop(&mut self) -> (res: bool)
        requires
            old(self).wf(),
        ensures
            (final(self)@, res) == popped(old(self)@),
            final(self).wf(),
    {
        if self.stack.len() > 1 {
            self.stack.pop();
            true
        } else {
            false
        }
    }

    /// The number of levels, root included.
    pub fn depth(&self) -> (res: usize)
        requires
            self.wf(),
        ensures
            res == self@.len(),
            res >= 1,
    {
        self.stack.len()
    }

    /// The whole trail of views, root first and current last.
    pub fn trail(&self) -> (res: &[BrowserState])
        ensures
            res@ == self@,
    {
        self.stack.as_slice()
    }

    /// Replaces the current view in place, keeping the levels below it.
    pub fn replace_current(&mut self, state: BrowserState)
        requires
            old(self).wf(),
        ensures
            final(self)@ == replaced(old(self)@, state),
            final(self).wf(),
    {
        let last = self.stack.len() - 1;
        self.stack.set(last, state);
    }
}

// ---------------------------------------------------------------------------
// Laws

/// Going back right after opening a view returns to the trail as it was,
/// and reports that it went back.
pub proof fn law_pop_undoes_push(stack: Seq<BrowserState>, state: BrowserState)
    requires
        stack.len() >= 1,
    ensures
        popped(pushed(stack, state)) == (stack, true),
{
    assert(pushed(stack, state).drop_last() =~= stack);
}

/// At the root, going back changes nothing and reports so.
pub proof fn law_pop_at_root(stack: Seq<BrowserState>)
    requires
        stack.len() == 1,
    ensures
        popped(stack) == (stack, false),
{
}

/// Going back never removes the root view, so the trail is never empty.
pub proof fn law_pop_keeps_root(stack: Seq<BrowserState>)
    requires
        stack.len() >= 1,
    ensures
        popped(stack).0.len() >= 1,
        popped(stack).0[0] == stack[0],
{
}

/// Opening a view makes it current and keeps the trail below it.
pub proof fn law_push_makes_current(stack: Seq<BrowserState>, state: BrowserState)
    ensures
        pushed(stack, state).last() == state,
        pushed(stack, state).drop_last() == stack,
{
    assert(pushed(stack, state).drop_last() =~= stack);
}

/// Replacing the current view keeps the depth and every view below it.
pub proof fn law_replace_keeps_trail(stack: Seq<BrowserState>, state: BrowserState)
    requires
        stack.len() >= 1,
    ensures
        replaced(stack, state).len() == stack.len(),
        replaced(stack, state).last() == state,
        replaced(stack, state).drop_last() == stack.drop_last(),
{
    assert(replaced(stack, state).drop_last() =~= stack.drop_last());
}

/// Moving the selection keeps it on a row.
pub proof fn law_moves_stay_in_range(selected: nat, len: nat)
    requires
        selection_ok(selected, len),
    ensures
        selection_ok(next_index(selected, len), len),
        selection_ok(previous_index(selected, len), len),
        selection_ok(clamp_selection(selected, len), len),
{
}

/// Moving down and then up returns to the same row unless the selection
/// was already on the last row; moving up and then down returns unless it
/// was on the first.
pub proof fn law_moves_undo(selected: nat, len: nat)
    requires
        selection_ok(selected, len),
    ensures
        selected + 1 < len ==> previous_index(next_index(selected, len), len) == selected,
        selected > 0 ==> next_index(previous_index(selected, len), len) == selected,
{
}

/// A selection that is already on a row survives clamping unchanged.
pub proof fn law_clamp_keeps_valid(selected: nat, len: nat)
    requires
        selected < len,
    ensures
        clamp_selection(selected, len) == selected,
{
}

} // verus!
