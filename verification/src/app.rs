//! The selection cursors and the focus state machine.
//!
//! Two deliberately different navigation styles live here: the method
//! picker's cyclic selection (`StatefulList`), which wraps around, and the
//! tab strip's clamped selection (`TabContainer`), which stops at its ends.
//! `SelectionState` is the enumerated focus cursor over the interactive
//! regions, and `Rect` with `is_within_block` is the pointer hit-test.

use vstd::prelude::*;

verus! {

/// One step of cyclic selection: with nothing selected the first item is
/// selected; from the last item the selection wraps back to the first.
pub open spec fn next_selection(sel: Option<int>, len: int) -> Option<int> {
    match sel {
        Some(i) => if i >= len - 1 {
            Some(0int)
        } else {
            Some(i + 1)
        },
        None => Some(0int),
    }
}

/// One step of cyclic selection backwards: with nothing selected the first
/// item is selected; from the first item the selection wraps to the last.
pub open spec fn previous_selection(sel: Option<int>, len: int) -> Option<int> {
    match sel {
        Some(i) => if i == 0 {
            Some(len - 1)
        } else {
            Some(i - 1)
        },
        None => Some(0int),
    }
}

/// `next_selection` applied `n` times.
pub open spec fn next_selection_iter(sel: Option<int>, len: int, n: nat) -> Option<int>
    decreases n,
{
    if n == 0 {
        sel
    } else {
        next_selection_iter(next_selection(sel, len), len, (n - 1) as nat)
    }
}

proof fn lemma_next_selection_iter_add(sel: Option<int>, len: int, a: nat, b: nat)
    ensures
        next_selection_iter(sel, len, a + b) == next_selection_iter(
            next_selection_iter(sel, len, a),
            len,
            b,
        ),
    decreases a,
{
    if a > 0 {
        lemma_next_selection_iter_add(next_selection(sel, len), len, (a - 1) as nat, b);
    }
}

proof fn lemma_next_selection_iter_no_wrap(i: int, len: int, k: nat)
    requires
        0 <= i,
        i + k < len,
    ensures
        next_selection_iter(Some(i), len, k) == Some(i + k),
    decreases k,
{
    if k > 0 {
        lemma_next_selection_iter_no_wrap(i + 1, len, (k - 1) as nat);
    }
}

/// Law: cyclic closure. With nothing selected the first application selects
/// index 0; from any selected index, `next_selection` applied `len` times
/// returns to the same index — so from no selection, `len + 1` applications
/// come back to index 0, and repeated "next" cycles forever.
pub proof fn lemma_next_selection_cycles(i: int, len: int)
    requires
        0 <= i < len,
    ensures
        next_selection(None, len) == Some(0int),
        next_selection_iter(Some(i), len, len as nat) == Some(i),
        next_selection_iter(None, len, (len + 1) as nat) == Some(0int),
    decreases i,
{
    let to_last = (len - 1 - i) as nat;
    lemma_next_selection_iter_no_wrap(i, len, to_last);
    lemma_next_selection_iter_add(Some(i), len, to_last, (len - to_last) as nat);
    // from the last index, one step wraps to 0 and the remaining i steps walk back up
    assert(next_selection_iter(Some(len - 1), len, (i + 1) as nat) == next_selection_iter(
        Some(0int),
        len,
        i as nat,
    ));
    lemma_next_selection_iter_no_wrap(0, len, i as nat);
    // the first of len + 1 applications selects index 0, the rest close the cycle
    if i == 0 {
        assert(next_selection_iter(None, len, (len + 1) as nat) == next_selection_iter(
            Some(0int),
            len,
            len as nat,
        ));
    } else {
        lemma_next_selection_cycles(0, len);
    }
}

/// Cyclic single selection over a fixed ordered collection, used for the
/// HTTP-method popup. `selected` is `None` until the first navigation.
pub struct StatefulList<T> {
    pub items: Vec<T>,
    pub selected: Option<usize>,
}

impl<T> StatefulList<T> {
    /// The selection as a mathematical index.
    pub open spec fn spec_selected(&self) -> Option<int> {
        match self.selected {
            Some(i) => Some(i as int),
            None => None,
        }
    }

    /// A selected index always lies within the items.
    pub open spec fn wf(&self) -> bool {
        self.selected matches Some(i) ==> i < self.items.len()
    }

    /// A list with the given items and nothing selected.
    pub fn with_items(items: Vec<T>) -> (r: StatefulList<T>)
        ensures
            r.items@ == items@,
            r.selected is None,
            r.wf(),
    {
        StatefulList { items, selected: None }
    }

    /// Advance the selection cyclically; with nothing selected, select the
    /// first item.
    pub fn next(&mut self)
        requires
            old(self).wf(),
            old(self).items.len() > 0,
        ensures
            final(self).items@ == old(self).items@,
            final(self).spec_selected() == next_selection(
                old(self).spec_selected(),
                old(self).items@.len() as int,
            ),
            final(self).wf(),
    {
        let i = match self.selected {
            Some(i) => {
                if i >= self.items.len() - 1 {
                    0
                } else {
                    i + 1
                }
            },
            None => 0,
        };
        self.selected = Some(i);
    }

    /// Step the selection backwards cyclically; with nothing selected,
    /// select the first item.
    pub fn previous(&mut self)
        requires
            old(self).wf(),
            old(self).items.len() > 0,
        ensures
            final(self).items@ == old(self).items@,
            final(self).spec_selected() == previous_selection(
                old(self).spec_selected(),
                old(self).items@.len() as int,
            ),
            final(self).wf(),
    {
        let i = match self.selected {
            Some(i) => {
                if i == 0 {
                    self.items.len() - 1
                } else {
                    i - 1
                }
            },
            None => 0,
        };
        self.selected = Some(i);
    }

    /// The selected item, or nothing when no selection is in range.
    pub fn get(&self) -> (r: Option<&T>)
        ensures
            match r {
                Some(v) => self.selected matches Some(i) && i < self.items.len() && *v
                    == self.items@[self.selected->0 as int],
                None => !(self.selected matches Some(i) && i < self.items.len()),
            },
    {
        match self.selected {
            Some(i) => {
                if i < self.items.len() {
                    Some(&self.items[i])
                } else {
                    None
                }
            },
            None => None,
        }
    }
}

/// One step of clamped selection to the left: stops at the first item.
pub open spec fn tab_left(i: int) -> int {
    if i > 0 {
        i - 1
    } else {
        0
    }
}

/// One step of clamped selection to the right: stops at the last item.
pub open spec fn tab_right(i: int, len: int) -> int {
    if i + 1 < len {
        i + 1
    } else {
        len - 1
    }
}

/// `tab_right` applied `n` times.
pub open spec fn tab_right_iter(i: int, len: int, n: nat) -> int
    decreases n,
{
    if n == 0 {
        i
    } else {
        tab_right_iter(tab_right(i, len), len, (n - 1) as nat)
    }
}

proof fn lemma_tab_right_iter_value(i: int, len: int, n: nat)
    requires
        0 <= i < len,
    ensures
        tab_right_iter(i, len, n) == if i + n < len {
            i + n
        } else {
            len - 1
        },
    decreases n,
{
    if n > 0 {
        lemma_tab_right_iter_value(tab_right(i, len), len, (n - 1) as nat);
    }
}

/// Law: clamped saturation — the behavioral contrast to cyclic selection.
/// `tab_right` applied more than `len` times from index 0 saturates at the
/// last index instead of wrapping.
pub proof fn lemma_tab_right_saturates(len: int, n: nat)
    requires
        0 < len,
        n > len,
    ensures
        tab_right_iter(0, len, n) == len - 1,
{
    lemma_tab_right_iter_value(0, len, n);
}

/// Clamped single selection over a fixed non-empty ordered collection,
/// used for the request-detail tab strip. The index never wraps.
pub struct TabContainer<T> {
    pub items: Vec<T>,
    pub index: usize,
}

impl<T> TabContainer<T> {
    /// The index always lies within the items (so the items are non-empty).
    pub open spec fn wf(&self) -> bool {
        self.index < self.items.len()
    }

    /// Step the index left, stopping at the first item.
    pub fn move_left(&mut self)
        requires
            old(self).wf(),
        ensures
            final(self).items@ == old(self).items@,
            final(self).index as int == tab_left(old(self).index as int),
            final(self).wf(),
    {
        if self.index > 0 {
            self.index = self.index - 1;
        }
    }

    /// Step the index right, stopping at the last item.
    pub fn move_right(&mut self)
        requires
            old(self).wf(),
        ensures
            final(self).items@ == old(self).items@,
            final(self).index as int == tab_right(
                old(self).index as int,
                old(self).items@.len() as int,
            ),
            final(self).wf(),
    {
        if self.index + 1 < self.items.len() {
            self.index = self.index + 1;
        }
    }
}

/// The HTTP method of the request being composed.
#[derive(Clone, Copy, PartialEq, Eq, Structural, Debug)]
pub enum RequestType {
    Get,
    Post,
    Put,
    Delete,
    Head,
    Options,
}

impl RequestType {
    /// The method's canonical name.
    pub open spec fn spec_name(self) -> Seq<char> {
        match self {
            RequestType::Get => "GET"@,
            RequestType::Post => "POST"@,
            RequestType::Put => "PUT"@,
            RequestType::Delete => "DELETE"@,
            RequestType::Head => "HEAD"@,
            RequestType::Options => "OPTIONS"@,
        }
    }

    /// The method's name, as sent on the wire.
    pub fn as_str(&self) -> (r: &'static str)
        ensures
            r@ == self.spec_name(),
    {
        match self {
            RequestType::Get => "GET",
            RequestType::Post => "POST",
            RequestType::Put => "PUT",
            RequestType::Delete => "DELETE",
            RequestType::Head => "HEAD",
            RequestType::Options => "OPTIONS",
        }
    }
}

/// The region keyboard input is directed to. Exactly one exists per
/// application.
#[derive(Clone, Copy, PartialEq, Eq, Structural, Debug)]
pub enum SelectionState {
    Unfocused,
    MethodField,
    UrlField,
    TabStrip,
    ActivePane,
    MethodPopup,
}

/// One step forward through the focus regions: cyclic among the four main
/// regions; `Unfocused` only enters the cycle and is never returned to; the
/// popup is modal, so stepping is a no-op there.
pub open spec fn next_focus(s: SelectionState) -> SelectionState {
    match s {
        SelectionState::Unfocused => SelectionState::MethodField,
        SelectionState::MethodField => SelectionState::UrlField,
        SelectionState::UrlField => SelectionState::TabStrip,
        SelectionState::TabStrip => SelectionState::ActivePane,
        SelectionState::ActivePane => SelectionState::MethodField,
        SelectionState::MethodPopup => SelectionState::MethodPopup,
    }
}

/// One step backward: the exact reverse of `next_focus`'s cycle, again a
/// no-op on `Unfocused` and on the modal popup.
pub open spec fn previous_focus(s: SelectionState) -> SelectionState {
    match s {
        SelectionState::Unfocused => SelectionState::Unfocused,
        SelectionState::MethodField => SelectionState::ActivePane,
        SelectionState::UrlField => SelectionState::MethodField,
        SelectionState::TabStrip => SelectionState::UrlField,
        SelectionState::ActivePane => SelectionState::TabStrip,
        SelectionState::MethodPopup => SelectionState::MethodPopup,
    }
}

impl SelectionState {
    /// Advance focus to the next region.
    pub fn next(self) -> (r: Self)
        ensures
            r == next_focus(self),
    {
        match self {
            SelectionState::Unfocused => SelectionState::MethodField,
            SelectionState::MethodField => SelectionState::UrlField,
            SelectionState::UrlField => SelectionState::TabStrip,
            SelectionState::TabStrip => SelectionState::ActivePane,
            SelectionState::ActivePane => SelectionState::MethodField,
            SelectionState::MethodPopup => SelectionState::MethodPopup,
        }
    }

    /// Step focus back to the previous region.
    pub fn previous(self) -> (r: Self)
        ensures
            r == previous_focus(self),
    {
        match self {
            SelectionState::Unfocused => SelectionState::Unfocused,
            SelectionState::MethodField => SelectionState::ActivePane,
            SelectionState::UrlField => SelectionState::MethodField,
            SelectionState::TabStrip => SelectionState::UrlField,
            SelectionState::ActivePane => SelectionState::TabStrip,
            SelectionState::MethodPopup => SelectionState::MethodPopup,
        }
    }
}

/// Law: advancing four times from the method field walks the whole main
/// cycle and returns to the method field.
pub proof fn lemma_advance_cycle()
    ensures
        next_focus(
            next_focus(next_focus(next_focus(SelectionState::MethodField))),
        ) == SelectionState::MethodField,
{
}

/// Law: retreat is the exact inverse of advance on every state advance can
/// reach. From `Unfocused` the pair is not an identity: advance enters the
/// cycle (never to return to `Unfocused`) and retreat keeps walking it.
pub proof fn lemma_retreat_inverts_advance(s: SelectionState)
    requires
        s != SelectionState::Unfocused,
    ensures
        previous_focus(next_focus(s)) == s,
        next_focus(previous_focus(s)) == s,
{
}

/// A rectangle of terminal cells, as the renderer lays regions out.
#[derive(Clone, Copy, PartialEq, Eq, Structural, Debug)]
pub struct Rect {
    pub x: u16,
    pub y: u16,
    pub width: u16,
    pub height: u16,
}

impl Rect {
    /// The point lies in the rectangle, with the boundary included on every
    /// edge (the right and bottom edges extend one unit past the width and
    /// height, matching the rendering convention).
    pub open spec fn spec_contains(self, px: int, py: int) -> bool {
        &&& self.x <= px <= self.x + self.width
        &&& self.y <= py <= self.y + self.height
    }
}

/// Whether a pointer position falls within a rendered block's rectangle.
pub fn is_within_block(block: &Rect, position: (u16, u16)) -> (r: bool)
    ensures
        r == block.spec_contains(position.0 as int, position.1 as int),
{
    let px = position.0 as u32;
    let py = position.1 as u32;
    px >= block.x as u32 && px <= block.x as u32 + block.width as u32 && py >= block.y as u32 && py
        <= block.y as u32 + block.height as u32
}

} // verus!
