//! Which row of a list is highlighted, with wrap-around navigation.

use vstd::arithmetic::div_mod::{
    lemma_add_mod_noop_right, lemma_mod_add_multiples_vanish, lemma_mod_self_0, lemma_small_mod,
};
use vstd::prelude::*;

verus! {

/// Mathematical model of a selection: the number of rows in the list and the
/// highlighted row, if any.
pub struct SelectionView {
    pub rows: nat,
    pub index: Option<nat>,
}

impl SelectionView {
    /// A highlighted row always lies inside the list. In particular nothing is
    /// highlighted in an empty list.
    pub open spec fn wf(self) -> bool {
        self.index matches Some(i) ==> i < self.rows
    }

    /// The selection of a list of `rows` rows with nothing highlighted.
    pub open spec fn unset(rows: nat) -> SelectionView {
        SelectionView { rows, index: None }
    }

    /// One step down: the first row when nothing was highlighted, else the row
    /// below, and the first row again after the last. An empty list stays as
    /// it is.
    pub open spec fn advance(self) -> SelectionView {
        if self.rows == 0 {
            self
        } else {
            match self.index {
                None => SelectionView { rows: self.rows, index: Some(0) },
                Some(i) => SelectionView { rows: self.rows, index: Some((i + 1) % self.rows) },
            }
        }
    }

    /// One step up: the first row when nothing was highlighted, else the row
    /// above, and the last row after the first. An empty list stays as it is.
    pub open spec fn retreat(self) -> SelectionView {
        if self.rows == 0 {
            self
        } else {
            match self.index {
                None => SelectionView { rows: self.rows, index: Some(0) },
                Some(i) => SelectionView {
                    rows: self.rows,
                    index: Some(if i == 0 { (self.rows - 1) as nat } else { (i - 1) as nat }),
                },
            }
        }
    }

    /// The selection carried over to a list of `rows` rows: the highlighted
    /// row is kept while it still exists and dropped otherwise.
    pub open spec fn resize(self, rows: nat) -> SelectionView {
        SelectionView {
            rows,
            index: match self.index {
                Some(i) => if i < rows { Some(i) } else { None },
                None => None,
            },
        }
    }

    /// `steps` steps down, one after the other.
    pub open spec fn advance_by(self, steps: nat) -> SelectionView
        decreases steps,
    {
        if steps == 0 {
            self
        } else {
            self.advance_by((steps - 1) as nat).advance()
        }
    }
}

/// The row below row `i` in a list of `n` rows, counted modulo `n`, is the next
/// row, or the first row when `i` is the last.
proof fn lemma_row_below(i: nat, n: nat)
    requires
        i < n,
    ensures
        (i + 1) % n == if i + 1 == n { 0 } else { i + 1 },
{
    if i + 1 == n {
        lemma_mod_self_0(n as int);
    } else {
        lemma_small_mod(i + 1, n);
    }
}

/// Navigation never leaves the list: stepping down, stepping up and carrying
/// the selection over to a list of another length all give a selection whose
/// highlighted row, if any, exists.
pub proof fn lemma_selection_stays_in_list(s: SelectionView, rows: nat)
    requires
        s.wf(),
    ensures
        s.advance().wf(),
        s.retreat().wf(),
        s.resize(rows).wf(),
        s.advance().rows == s.rows,
        s.retreat().rows == s.rows,
        s.resize(rows).rows == rows,
{
    if let Some(i) = s.index {
        lemma_row_below(i, s.rows);
    }
}

/// In an empty list nothing is highlighted, and stepping down or up changes
/// nothing.
pub proof fn lemma_empty_list_has_no_selection(s: SelectionView)
    requires
        s.wf(),
        s.rows == 0,
    ensures
        s.index is None,
        s.advance() == s,
        s.retreat() == s,
{
}

/// Stepping down from nothing highlights the first row of a list that has one.
pub proof fn lemma_first_step_selects_first_row(rows: nat)
    requires
        rows > 0,
    ensures
        SelectionView::unset(rows).advance().index == Some(0nat),
        SelectionView::unset(rows).retreat().index == Some(0nat),
{
}

/// A step down followed by a step up, and a step up followed by a step down,
/// both return to the row they started from, also across the ends of the list.
pub proof fn lemma_steps_are_inverse(s: SelectionView)
    requires
        s.wf(),
        s.index is Some,
    ensures
        s.advance().retreat() == s,
        s.retreat().advance() == s,
{
    let i = s.index->0;
    lemma_row_below(i, s.rows);
    if i > 0 {
        lemma_row_below((i - 1) as nat, s.rows);
    } else {
        lemma_row_below((s.rows - 1) as nat, s.rows);
    }
}

/// `steps` steps down from row `i` of a list of `n` rows end on row
/// `(i + steps) mod n`.
pub proof fn lemma_advance_by_adds(s: SelectionView, steps: nat)
    requires
        s.wf(),
        s.index is Some,
    ensures
        s.advance_by(steps) == (SelectionView {
            rows: s.rows,
            index: Some((s.index->0 + steps) % s.rows),
        }),
    decreases steps,
{
    let i = s.index->0;
    let n = s.rows;
    if steps == 0 {
        lemma_small_mod(i, n);
    } else {
        let before = (steps - 1) as nat;
        lemma_advance_by_adds(s, before);
        lemma_add_mod_noop_right(1, (i + before) as int, n as int);
    }
}

/// As many steps down as the list has rows lead back to the row they started
/// from.
pub proof fn lemma_advance_cycles(s: SelectionView)
    requires
        s.wf(),
        s.index is Some,
    ensures
        s.advance_by(s.rows) == s,
{
    let i = s.index->0;
    lemma_advance_by_adds(s, s.rows);
    lemma_mod_add_multiples_vanish(i as int, s.rows as int);
    lemma_small_mod(i, s.rows);
}

/// From nothing highlighted, the first step down selects the first row, and
/// as many further steps as the list has rows come back to that same row.
pub proof fn lemma_advance_cycles_from_unset(rows: nat)
    requires
        rows > 0,
    ensures
        SelectionView::unset(rows).advance().advance_by(rows) == SelectionView::unset(rows).advance(),
{
    lemma_advance_cycles(SelectionView::unset(rows).advance());
}

/// The highlighted row of a list whose length is known.
#[derive(Clone, Copy, Debug)]
pub struct Selection {
    rows: usize,
    index: Option<usize>,
}

impl View for Selection {
    type V = SelectionView;

    closed spec fn view(&self) -> SelectionView {
        SelectionView {
            rows: self.rows as nat,
            index: match self.index {
                Some(i) => Some(i as nat),
                None => None,
            },
        }
    }
}

impl Selection {
    #[verifier::type_invariant]
    spec fn inv(self) -> bool {
        self@.wf()
    }

    /// A selection over `rows` rows with nothing highlighted.
    pub fn new(rows: usize) -> (s: Selection)
        ensures
            s@ == SelectionView::unset(rows as nat),
    {
        Selection { rows, index: None }
    }

    /// The number of rows in the list.
    pub fn rows(&self) -> (n: usize)
        ensures
            n == self@.rows,
    {
        self.rows
    }

    /// The highlighted row, which always lies inside the list.
    pub fn current(&self) -> (r: Option<usize>)
        ensures
            match r {
                Some(i) => self@.index == Some(i as nat) && i < self@.rows,
                None => self@.index is None,
            },
    {
        proof {
            use_type_invariant(self);
        }
        self.index
    }

    /// Moves the highlight one row down, wrapping from the last row to the
    /// first. With nothing highlighted the first row is taken. An empty list
    /// is left alone.
    pub fn advance(&mut self)
        ensures
            final(self)@ == old(self)@.advance(),
            old(self)@.rows == 0 ==> final(self)@ == old(self)@,
        no_unwind
    {
        proof {
            use_type_invariant(&*self);
            if let Some(i) = self@.index {
                lemma_row_below(i, self@.rows);
            }
        }
        if self.rows > 0 {
            let below: usize = match self.index {
                None => 0,
                Some(i) => if i + 1 == self.rows { 0 } else { i + 1 },
            };
            self.index = Some(below);
        }
    }

    /// Moves the highlight one row up, wrapping from the first row to the
    /// last. With nothing highlighted the first row is taken. An empty list
    /// is left alone.
    pub fn retreat(&mut self)
        ensures
            final(self)@ == old(self)@.retreat(),
            old(self)@.rows == 0 ==> final(self)@ == old(self)@,
        no_unwind
    {
        proof {
            use_type_invariant(&*self);
        }
        if self.rows > 0 {
            let above: usize = match self.index {
                None => 0,
                Some(i) => if i == 0 { self.rows - 1 } else { i - 1 },
            };
            self.index = Some(above);
        }
    }

    /// Adapts the selection to a list that now has `rows` rows: a highlighted
    /// row that no longer exists is dropped, any other is kept.
    pub fn resize(&mut self, rows: usize)
        ensures
            final(self)@ == old(self)@.resize(rows as nat),
            old(self)@.index matches Some(i) && i >= rows ==> final(self)@.index is None,
        no_unwind
    {
        let kept: Option<usize> = match self.index {
            Some(i) => if i < rows { Some(i) } else { None },
            None => None,
        };
        *self = Selection { rows, index: kept };
    }
}

} // verus!
