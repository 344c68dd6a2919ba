//! The port selector: the choice list behind the combo box. Each query of
//! the available ports fully replaces the previous choices; nothing stale is
//! retained, and the selection is reset with the list.

use vstd::prelude::*;

verus! {

/// The selector's state: the current choices and which one, if any, the user
/// has picked.
pub struct PortSelector {
    pub choices: Vec<String>,
    pub selected: Option<usize>,
}

impl PortSelector {
    /// The current choices, in display order.
    pub open spec fn choices_view(self) -> Seq<String> {
        self.choices@
    }

    /// The index of the current selection, if one is made.
    pub open spec fn selected_view(self) -> Option<usize> {
        self.selected
    }

    /// A selection, when present, points into the choices.
    pub open spec fn wf(self) -> bool {
        self.selected matches Some(i) ==> i < self.choices@.len()
    }

    /// A selector with no choices and no selection.
    pub fn new() -> (s: PortSelector)
        ensures
            s.wf(),
            s.choices_view() == Seq::<String>::empty(),
            s.selected_view() is None,
    {
        PortSelector { choices: Vec::new(), selected: None }
    }

    /// Replace the choices with a fresh query result. The previous choices
    /// are discarded entirely — an empty result leaves an empty list — and
    /// any selection is cleared.
    pub fn repopulate(&mut self, ports: Vec<String>)
        ensures
            final(self).wf(),
            final(self).choices_view() == ports@,
            final(self).selected_view() is None,
    {
        self.choices = ports;
        self.selected = None;
    }

    /// Pick the choice at `i`. Reports whether `i` named a choice; an
    /// out-of-range pick changes nothing.
    pub fn select(&mut self, i: usize) -> (ok: bool)
        requires
            old(self).wf(),
        ensures
            final(self).wf(),
            final(self).choices_view() == old(self).choices_view(),
            ok == (i < old(self).choices_view().len()),
            ok ==> final(self).selected_view() == Some(i),
            !ok ==> final(self).selected_view() == old(self).selected_view(),
    {
        if i < self.choices.len() {
            self.selected = Some(i);
            true
        } else {
            false
        }
    }

    /// The text of the current selection, if one is made.
    pub fn selection_string(&self) -> (r: Option<String>)
        requires
            self.wf(),
        ensures
            r is Some <==> self.selected_view() is Some,
            r matches Some(text) ==> {
                &&& self.selected_view() matches Some(i)
                &&& text@ == self.choices_view()[i as int]@
            },
    {
        match self.selected {
            Some(i) => Some(self.choices[i].clone()),
            None => None,
        }
    }
}

} // verus!
