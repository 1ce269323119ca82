//! Undo and redo for the draw view: the drawing in hand and two stacks of
//! earlier and later drawings, each capped at `MAX_HISTORY` entries.
use vstd::prelude::*;

verus! {

/// How many drawings each stack keeps.
pub const MAX_HISTORY: usize = 20;

/// A stack after `e` is pushed: when it is full the oldest entry (the
/// first) goes.
pub open spec fn history_push<T>(s: Seq<T>, e: T) -> Seq<T> {
    if s.len() == MAX_HISTORY {
        s.drop_first().push(e)
    } else {
        s.push(e)
    }
}

/// A history as values: the drawing, the undo stack and the redo stack,
/// most recent last.
pub struct HistoryV<T> {
    pub data: T,
    pub undo: Seq<T>,
    pub redo: Seq<T>,
}

/// Neither stack holds more than `MAX_HISTORY` drawings.
pub open spec fn history_wf<T>(h: HistoryV<T>) -> bool {
    h.undo.len() <= MAX_HISTORY && h.redo.len() <= MAX_HISTORY
}

/// A change was made; `previous` is the drawing before it. It joins the
/// undo stack, and nothing is left to redo.
pub open spec fn recorded<T>(h: HistoryV<T>, previous: T) -> HistoryV<T> {
    HistoryV { data: h.data, undo: history_push(h.undo, previous), redo: Seq::empty() }
}

/// Undo: the last drawing of the undo stack comes back, and the drawing in
/// hand goes onto the redo stack. Nothing happens when there is nothing to
/// undo.
pub open spec fn undone<T>(h: HistoryV<T>) -> HistoryV<T> {
    if h.undo.len() == 0 {
        h
    } else {
        HistoryV { data: h.undo.last(), undo: h.undo.drop_last(), redo: history_push(h.redo, h.data) }
    }
}

/// Redo: the mirror of `undone`.
pub open spec fn redone<T>(h: HistoryV<T>) -> HistoryV<T> {
    if h.redo.len() == 0 {
        h
    } else {
        HistoryV { data: h.redo.last(), redo: h.redo.drop_last(), undo: history_push(h.undo, h.data) }
    }
}

/// The drawing being edited with its undo and redo stacks.
pub struct DrawHistory<T> {
    pub data: T,
    pub undo_stack: Vec<T>,
    pub redo_stack: Vec<T>,
}

impl<T> DrawHistory<T> {
    /// The history as values.
    pub open spec fn view_history(&self) -> HistoryV<T> {
        HistoryV { data: self.data, undo: self.undo_stack@, redo: self.redo_stack@ }
    }

    /// A drawing with nothing to undo or redo.
    pub fn new(data: T) -> (r: DrawHistory<T>)
        ensures
            r.view_history() == (HistoryV { data, undo: Seq::<T>::empty(), redo: Seq::<T>::empty() }),
    {
        DrawHistory { data, undo_stack: Vec::new(), redo_stack: Vec::new() }
    }

    fn push_history(stack: &mut Vec<T>, data: T)
        ensures
            final(stack)@ == history_push(old(stack)@, data),
    {
        if stack.len() == MAX_HISTORY {
            let ghost before = stack@;
            stack.remove(0);
            assert(stack@ =~= before.drop_first());
        }
        stack.push(data);
    }

    /// Records that a change was made to the drawing; `previous` is the
    /// drawing before it.
    pub fn record_undo_state(&mut self, previous: T)
        ensures
            final(self).view_history() == recorded(old(self).view_history(), previous),
    {
        Self::push_history(&mut self.undo_stack, previous);
        self.redo_stack.clear();
    }

    /// Goes back one change; false when there is nothing to undo.
    pub fn undo(&mut self) -> (r: bool)
        ensures
            r == (old(self).undo_stack@.len() > 0),
            final(self).view_history() == undone(old(self).view_history()),
    {
        match self.undo_stack.pop() {
            None => false,
            Some(previous) => {
                let mut current = previous;
                std::mem::swap(&mut self.data, &mut current);
                Self::push_history(&mut self.redo_stack, current);
                true
            },
        }
    }

    /// Goes forward one undone change; false when there is nothing to redo.
    pub fn redo(&mut self) -> (r: bool)
        ensures
            r == (old(self).redo_stack@.len() > 0),
            final(self).view_history() == redone(old(self).view_history()),
    {
        match self.redo_stack.pop() {
            None => false,
            Some(next) => {
                let mut current = next;
                std::mem::swap(&mut self.data, &mut current);
                Self::push_history(&mut self.undo_stack, current);
                true
            },
        }
    }
}

/// Every operation keeps both stacks within `MAX_HISTORY` drawings.
pub proof fn history_stays_bounded<T>(h: HistoryV<T>, previous: T)
    requires
        history_wf(h),
    ensures
        history_wf(recorded(h, previous)),
        history_wf(undone(h)),
        history_wf(redone(h)),
{
}

/// Redo after undo gives back the drawing and the undo stack; the redo
/// stack too, unless it was full and lost its oldest entry.
pub proof fn redo_undoes_undo<T>(h: HistoryV<T>)
    requires
        history_wf(h),
        h.undo.len() > 0,
    ensures
        redone(undone(h)).data == h.data,
        redone(undone(h)).undo == h.undo,
        h.redo.len() < MAX_HISTORY ==> redone(undone(h)).redo == h.redo,
{
    assert(h.undo.drop_last().push(h.undo.last()) =~= h.undo);
    if h.redo.len() < MAX_HISTORY {
        assert(h.redo.push(h.data).drop_last() =~= h.redo);
    }
}

/// Undo after redo gives back the drawing and the redo stack; the undo
/// stack too, unless it was full and lost its oldest entry.
pub proof fn undo_undoes_redo<T>(h: HistoryV<T>)
    requires
        history_wf(h),
        h.redo.len() > 0,
    ensures
        undone(redone(h)).data == h.data,
        undone(redone(h)).redo == h.redo,
        h.undo.len() < MAX_HISTORY ==> undone(redone(h)).undo == h.undo,
{
    assert(h.redo.drop_last().push(h.redo.last()) =~= h.redo);
    if h.undo.len() < MAX_HISTORY {
        assert(h.undo.push(h.data).drop_last() =~= h.undo);
    }
}

/// Recording `n` changes in a row keeps the most recent `MAX_HISTORY` of
/// the earlier drawings, oldest first.
pub open spec fn recorded_all<T>(h: HistoryV<T>, previous: Seq<T>) -> HistoryV<T>
    decreases previous.len(),
{
    if previous.len() == 0 {
        h
    } else {
        recorded(recorded_all(h, previous.drop_last()), previous.last())
    }
}

/// From an empty history, recording changes keeps the last `MAX_HISTORY`
/// earlier drawings and leaves nothing to redo.
pub proof fn history_keeps_most_recent<T>(data: T, previous: Seq<T>)
    ensures
        recorded_all(HistoryV { data, undo: Seq::empty(), redo: Seq::empty() }, previous).undo
            == previous.skip(
            if previous.len() <= MAX_HISTORY {
                0
            } else {
                previous.len() - MAX_HISTORY
            },
        ),
        recorded_all(HistoryV { data, undo: Seq::empty(), redo: Seq::empty() }, previous).data == data,
        previous.len() > 0 ==> recorded_all(
            HistoryV { data, undo: Seq::empty(), redo: Seq::empty() },
            previous,
        ).redo.len() == 0,
    decreases previous.len(),
{
    if previous.len() > 0 {
        let pre = previous.drop_last();
        history_keeps_most_recent(data, pre);
        let k: int = if pre.len() <= MAX_HISTORY { 0 } else { pre.len() - MAX_HISTORY };
        let k2: int = if previous.len() <= MAX_HISTORY { 0 } else { previous.len() - MAX_HISTORY };
        let u = pre.skip(k);
        if u.len() == MAX_HISTORY {
            assert(u.drop_first().push(previous.last()) =~= previous.skip(k2));
        } else {
            assert(u.push(previous.last()) =~= previous.skip(k2));
        }
    }
}

} // verus!
