//! The undo bar of the continue list.
//!
//! Removing a card from the continue list, or moving its file to the Trash, pushes one step on a
//! LIFO stack. **Undo** restores the newest step; the × button and a ten-second timeout discard
//! the newest step only. The bar shows while steps remain and names the file that **Undo** will
//! bring back.
use vstd::prelude::*;
use vstd::string::*;
use crate::paths::{path_file_name, spec_file_name};
use crate::text::{decimal_text, spec_decimal};

verus! {

/// How a file left the continue list.
#[derive(Clone, Copy, PartialEq, Eq, Structural, Debug)]
pub enum UndoKind {
    /// Removed from the list (file untouched).
    ListRemove,
    /// Moved to the Trash.
    Trash,
}

/// One undoable step. `payload` carries what restoring needs (resume snapshot, trash location).
pub struct UndoStep<T> {
    pub kind: UndoKind,
    /// Path of the file, as text.
    pub path: String,
    /// Whether the path's file name is valid UTF-8 (otherwise the bar says "file").
    pub name_is_utf8: bool,
    pub payload: T,
}

/// What to do with the ten-second auto-dismiss timer after an operation.
#[derive(Clone, Copy, PartialEq, Eq, Structural, Debug)]
pub enum DismissTimer {
    /// Cancel any pending timeout.
    Stopped,
    /// Cancel any pending timeout and start a new one.
    Restarted,
}

/// What the bar shows.
pub struct UndoBarView {
    pub visible: bool,
    pub label: String,
    pub tooltip: Option<String>,
}

/// The undo stack, newest step last, plus whether its auto-dismiss timer runs.
pub struct UndoBar<T> {
    steps: Vec<UndoStep<T>>,
    timer_running: bool,
}

pub open spec fn kind_tail(kind: UndoKind) -> Seq<char> {
    match kind {
        UndoKind::ListRemove => "removed from list"@,
        UndoKind::Trash => "moved to Trash"@,
    }
}

/// The name shown for a step: its file name, or "file" when there is none or it is not UTF-8.
pub open spec fn step_name<T>(step: UndoStep<T>) -> Seq<char> {
    if step.name_is_utf8 && spec_file_name(step.path@) is Some {
        spec_file_name(step.path@)->0
    } else {
        "file"@
    }
}

/// Bar line for the step that Undo restores next: “name” and how it left the list.
pub open spec fn spec_undo_label<T>(step: UndoStep<T>) -> Seq<char> {
    "\u{201c}"@ + step_name(step) + "\u{201d} "@ + kind_tail(step.kind)
}

/// Undo button tooltip text for `n` pending steps.
pub open spec fn spec_undo_tooltip_text(n: nat) -> Seq<char> {
    if n == 1 {
        "Restore to the list (and from Trash if that was the last action)"@
    } else {
        "Undo newest first \u{2014} "@ + spec_decimal(n) + " steps left"@
    }
}

/// Undo button tooltip for `n` pending steps; none while the bar is hidden.
pub open spec fn spec_undo_tooltip(n: nat) -> Option<Seq<char>> {
    if n == 0 {
        None
    } else {
        Some(spec_undo_tooltip_text(n))
    }
}

impl<T> UndoBar<T> {
    /// Pending steps, oldest first.
    pub closed spec fn steps(&self) -> Seq<UndoStep<T>> {
        self.steps@
    }

    pub closed spec fn timer_running(&self) -> bool {
        self.timer_running
    }

    /// The auto-dismiss timer only runs while a step is pending.
    pub closed spec fn wf(&self) -> bool {
        self.timer_running ==> self.steps@.len() > 0
    }

    pub fn new() -> (bar: Self)
        ensures
            bar.wf(),
            bar.steps() == Seq::<UndoStep<T>>::empty(),
            !bar.timer_running(),
    {
        UndoBar { steps: Vec::new(), timer_running: false }
    }

    pub fn len(&self) -> (n: usize)
        ensures
            n == self.steps().len(),
    {
        self.steps.len()
    }

    /// A card was removed or trashed: push its step and restart the dismiss timer.
    pub fn record(&mut self, step: UndoStep<T>) -> (t: DismissTimer)
        requires
            old(self).wf(),
        ensures
            final(self).wf(),
            final(self).steps() == old(self).steps().push(step),
            final(self).timer_running(),
            t == DismissTimer::Restarted,
    {
        self.steps.push(step);
        self.timer_running = true;
        DismissTimer::Restarted
    }

    /// A card's file went to the Trash. Undo restores from the trashed copy, so the step is
    /// recorded only when that copy was found (`Some`); otherwise the bar is left as it was.
    pub fn push_card_trash_undo(&mut self, step: Option<UndoStep<T>>) -> (t: Option<DismissTimer>)
        requires
            old(self).wf(),
        ensures
            final(self).wf(),
            match step {
                Some(s) => final(self).steps() == old(self).steps().push(s) && final(self).timer_running()
                    && t == Some(DismissTimer::Restarted),
                None => final(self).steps() == old(self).steps() && final(self).timer_running() == old(
                    self,
                ).timer_running() && t is None,
            },
    {
        match step {
            Some(s) => Some(self.record(s)),
            None => None,
        }
    }

    /// A card was removed from the list: its step is recorded when the removal produced one
    /// (`Some`); otherwise the bar is left as it was.
    pub fn remove_card_action(&mut self, step: Option<UndoStep<T>>) -> (t: Option<DismissTimer>)
        requires
            old(self).wf(),
        ensures
            final(self).wf(),
            match step {
                Some(s) => final(self).steps() == old(self).steps().push(s) && final(self).timer_running()
                    && t == Some(DismissTimer::Restarted),
                None => final(self).steps() == old(self).steps() && final(self).timer_running() == old(
                    self,
                ).timer_running() && t is None,
            },
    {
        match step {
            Some(s) => Some(self.record(s)),
            None => None,
        }
    }

    /// Undo clicked: stop the timer and take the newest step to restore.
    pub fn take_for_undo(&mut self) -> (r: (Option<UndoStep<T>>, DismissTimer))
        requires
            old(self).wf(),
        ensures
            final(self).wf(),
            !final(self).timer_running(),
            r.1 == DismissTimer::Stopped,
            old(self).steps().len() == 0 ==> r.0 is None && final(self).steps() == old(self).steps(),
            old(self).steps().len() > 0 ==> r.0 == Some(old(self).steps().last())
                && final(self).steps() == old(self).steps().drop_last(),
    {
        self.timer_running = false;
        (self.steps.pop(), DismissTimer::Stopped)
    }

    /// Restoring the taken step failed: put it back on top; the timer stays stopped.
    pub fn undo_failed(&mut self, step: UndoStep<T>) -> (t: DismissTimer)
        requires
            old(self).wf(),
        ensures
            final(self).wf(),
            final(self).steps() == old(self).steps().push(step),
            final(self).timer_running() == old(self).timer_running(),
            t == DismissTimer::Stopped,
    {
        self.steps.push(step);
        DismissTimer::Stopped
    }

    /// Restoring the taken step worked: restart the timer while steps remain.
    pub fn undo_succeeded(&mut self) -> (t: DismissTimer)
        requires
            old(self).wf(),
        ensures
            final(self).wf(),
            final(self).steps() == old(self).steps(),
            final(self).timer_running() == (old(self).steps().len() > 0),
            t == (if old(self).steps().len() > 0 {
                DismissTimer::Restarted
            } else {
                DismissTimer::Stopped
            }),
    {
        if self.steps.len() > 0 {
            self.timer_running = true;
            DismissTimer::Restarted
        } else {
            self.timer_running = false;
            DismissTimer::Stopped
        }
    }

    /// Timeout or ×: discard the newest step (its removal stays); restart the timer while steps
    /// remain. Returns whether a step was discarded.
    pub fn dismiss_top_undo_step(&mut self) -> (r: (bool, DismissTimer))
        requires
            old(self).wf(),
        ensures
            final(self).wf(),
            r.0 == (old(self).steps().len() > 0),
            r.0 ==> final(self).steps() == old(self).steps().drop_last(),
            !r.0 ==> final(self).steps() == old(self).steps(),
            final(self).timer_running() == (final(self).steps().len() > 0),
            r.1 == (if final(self).steps().len() > 0 {
                DismissTimer::Restarted
            } else {
                DismissTimer::Stopped
            }),
    {
        self.timer_running = false;
        match self.steps.pop() {
            None => (false, DismissTimer::Stopped),
            Some(_) => {
                if self.steps.len() > 0 {
                    self.timer_running = true;
                    (true, DismissTimer::Restarted)
                } else {
                    (true, DismissTimer::Stopped)
                }
            },
        }
    }

    /// Leaving playback for the grid: stop the timer, and drop every step when asked.
    pub fn leave_for_browse(&mut self, clear: bool) -> (t: DismissTimer)
        requires
            old(self).wf(),
        ensures
            final(self).wf(),
            !final(self).timer_running(),
            final(self).steps() == (if clear {
                Seq::<UndoStep<T>>::empty()
            } else {
                old(self).steps()
            }),
            t == DismissTimer::Stopped,
    {
        self.timer_running = false;
        if clear {
            self.steps = Vec::new();
        }
        DismissTimer::Stopped
    }

    /// What the bar shows: hidden and empty without steps; otherwise the newest step's line and
    /// a tooltip that counts the pending steps.
    pub fn sync_undo_bar(&self) -> (v: UndoBarView)
        ensures
            v.visible == (self.steps().len() > 0),
            self.steps().len() == 0 ==> v.label@ == Seq::<char>::empty(),
            self.steps().len() > 0 ==> v.label@ == spec_undo_label(self.steps().last()),
            match v.tooltip {
                Some(t) => spec_undo_tooltip(self.steps().len()) == Some(t@),
                None => spec_undo_tooltip(self.steps().len()) is None,
            },
    {
        let n = self.steps.len();
        if n == 0 {
            return UndoBarView { visible: false, label: String::new(), tooltip: None };
        }
        let tooltip = set_undo_tooltip(n);
        let label = set_undo_top_label(&self.steps[n - 1]);
        UndoBarView { visible: true, label, tooltip: Some(tooltip) }
    }
}

/// Undo button tooltip text for `n` pending steps.
pub fn set_undo_tooltip(n: usize) -> (t: String)
    ensures
        t@ == spec_undo_tooltip_text(n as nat),
{
    proof {
        reveal_strlit("Restore to the list (and from Trash if that was the last action)");
        reveal_strlit("Undo newest first \u{2014} ");
        reveal_strlit(" steps left");
    }
    if n == 1 {
        "Restore to the list (and from Trash if that was the last action)".to_owned()
    } else {
        let mut s = "Undo newest first \u{2014} ".to_owned();
        let d = decimal_text(n as u64);
        s.append(d.as_str());
        s.append(" steps left");
        s
    }
}

/// Line naming the file the next Undo restores and how it left the list.
pub fn set_undo_top_label<T>(step: &UndoStep<T>) -> (l: String)
    ensures
        l@ == spec_undo_label(*step),
{
    proof {
        reveal_strlit("\u{201c}");
        reveal_strlit("\u{201d} ");
        reveal_strlit("removed from list");
        reveal_strlit("moved to Trash");
        reveal_strlit("file");
    }
    let mut s = "\u{201c}".to_owned();
    let name = if step.name_is_utf8 {
        path_file_name(step.path.as_str())
    } else {
        None
    };
    match name {
        Some(n) => s.append(n.as_str()),
        None => s.append("file"),
    }
    s.append("\u{201d} ");
    match step.kind {
        UndoKind::ListRemove => s.append("removed from list"),
        UndoKind::Trash => s.append("moved to Trash"),
    }
    s
}

/// Undo right after a removal gives that very step back and leaves the stack as it was.
pub proof fn law_undo_returns_last_record<T>(before: Seq<UndoStep<T>>, step: UndoStep<T>)
    ensures
        before.push(step).last() == step,
        before.push(step).drop_last() == before,
{
    assert(before.push(step).drop_last() =~= before);
}

/// A failed restore puts the step back: the stack equals the one before the Undo click.
pub proof fn law_failed_undo_keeps_stack<T>(before: Seq<UndoStep<T>>)
    requires
        before.len() > 0,
    ensures
        before.drop_last().push(before.last()) == before,
{
    assert(before.drop_last().push(before.last()) =~= before);
}

} // verus!
