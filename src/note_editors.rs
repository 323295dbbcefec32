//! The notes, in the order they were created, with the time credited to each
//! and the one that last had focus.
use crate::index_map::{
    distinct_keys, map_entries, map_get_index, map_get_index_of, map_insert, map_len, map_new,
};
use crate::savestate::{summary_text, Savefile, SavefileLogEntry};
use indexmap::IndexMap;
use vstd::prelude::*;

verus! {

/// One note: its text and the whole minutes credited to it by earlier
/// sessions.
pub struct NoteEntry {
    pub content: String,
    pub accumulated_minutes: u64,
}

/// What the window is to do at exit: the state to save, and the summary to
/// put on the clipboard if one was asked for.
pub struct ExitPlan {
    pub savefile: Savefile,
    pub clipboard: Option<String>,
}

/// The notes. A note's identity is the number of notes created before it,
/// so it is also its position; notes are only ever appended.
pub struct NoteEditors {
    entries: IndexMap<u64, NoteEntry>,
    last_focused_id: Option<u64>,
    last_app_exit: u64,
}

/// The seconds of a session that ended at `now`, or zero when the clock
/// went backwards.
pub open spec fn session_secs(last_exit: u64, now: u64) -> nat {
    if now >= last_exit {
        (now - last_exit) as nat
    } else {
        0
    }
}

/// The whole minutes of `acc_minutes` minutes plus `credit_secs` seconds,
/// held at the largest `u64`.
pub open spec fn minutes_after(acc_minutes: nat, credit_secs: nat) -> nat {
    let m = (acc_minutes * 60 + credit_secs) / 60;
    if m <= u64::MAX {
        m
    } else {
        u64::MAX as nat
    }
}

/// The text of a note that was just created.
pub open spec fn is_fresh(e: NoteEntry) -> bool {
    e.content@.len() == 0 && e.accumulated_minutes == 0
}

impl NoteEditors {
    /// The notes with their identities, in order.
    pub closed spec fn entries(&self) -> Seq<(u64, NoteEntry)> {
        map_entries(self.entries)
    }

    /// The identity of the note that last had focus.
    pub closed spec fn last_focused(&self) -> Option<u64> {
        self.last_focused_id
    }

    /// When the previous session ended, in seconds since the epoch.
    pub closed spec fn last_exit(&self) -> u64 {
        self.last_app_exit
    }

    pub open spec fn num_entries(&self) -> nat {
        self.entries().len()
    }

    pub open spec fn wf(&self) -> bool {
        &&& forall|i: int| 0 <= i < self.num_entries() ==> #[trigger] self.entries()[i].0 == i
        &&& self.last_focused() matches Some(id) ==> id < self.num_entries()
    }

    /// The notes of `self` are those of `sf`, in order, and the focus is the
    /// saved one where that names a note.
    pub open spec fn loaded_from(&self, sf: Savefile) -> bool {
        &&& self.num_entries() == sf.log_entries@.len()
        &&& forall|i: int|
            0 <= i < self.num_entries() ==> {
                &&& (#[trigger] self.entries()[i]).1.content@ == sf.log_entries@[i].notes@
                &&& self.entries()[i].1.accumulated_minutes == sf.log_entries@[i].minutes_spent
            }
        &&& self.last_exit() == sf.unix_time_last_exit
        &&& self.last_focused() == match sf.last_focused_idx {
            Some(i) => if i < sf.log_entries@.len() {
                Some(i)
            } else {
                None
            },
            None => None,
        }
    }

    /// `self` is `old` with one fresh note appended under `id`, which has
    /// focus.
    pub open spec fn note_added(&self, old: NoteEditors, id: u64) -> bool {
        &&& id == old.num_entries()
        &&& self.num_entries() == old.num_entries() + 1
        &&& self.entries().take(old.num_entries() as int) == old.entries()
        &&& self.entries().last().0 == id
        &&& is_fresh(self.entries().last().1)
        &&& self.last_focused() == Some(id)
        &&& self.last_exit() == old.last_exit()
    }

    /// `self` is `old` with the focus moved to the note at `index`.
    pub open spec fn focus_moved(&self, old: NoteEditors, index: nat) -> bool {
        &&& index < old.num_entries()
        &&& self.entries() == old.entries()
        &&& self.last_focused() == Some(old.entries()[index as int].0)
        &&& self.last_exit() == old.last_exit()
    }

    /// The seconds credited to the note at `i` when the session ends at
    /// `now`: the whole session for the focused note, nothing for the others.
    pub open spec fn credit(&self, i: int, now: u64) -> nat {
        if self.last_focused() == Some(self.entries()[i].0) {
            session_secs(self.last_exit(), now)
        } else {
            0
        }
    }

    /// `sf` is the state saved at `now`.
    pub open spec fn saved_as(&self, now: u64, sf: Savefile) -> bool {
        &&& sf.log_entries@.len() == self.num_entries()
        &&& forall|i: int|
            0 <= i < self.num_entries() ==> {
                &&& (#[trigger] sf.log_entries@[i]).notes@ == self.entries()[i].1.content@
                &&& sf.log_entries@[i].minutes_spent == minutes_after(
                    self.entries()[i].1.accumulated_minutes as nat,
                    self.credit(i, now),
                )
            }
        &&& sf.unix_time_last_exit == now
        &&& sf.last_focused_idx == self.last_focused()
    }

    /// `plan` is what exiting at `now` does.
    pub open spec fn exit_plan(&self, write_clipboard: bool, now: u64, plan: ExitPlan) -> bool {
        &&& self.saved_as(now, plan.savefile)
        &&& if write_clipboard {
            (plan.clipboard matches Some(s) && s@ == summary_text(plan.savefile.log_entries@))
        } else {
            plan.clipboard is None
        }
    }

    /// Rebuilds the notes from a saved state. A saved focus that names no
    /// note is dropped.
    pub fn new(savestate: Savefile) -> (r: NoteEditors)
        ensures
            r.wf(),
            r.loaded_from(savestate),
    {
        let mut entries = map_new();
        let n = savestate.log_entries.len();
        let mut i: usize = 0;
        while i < n
            invariant
                i <= n,
                n == savestate.log_entries@.len(),
                map_entries(entries).len() == i,
                forall|k: int|
                    0 <= k < i ==> {
                        &&& (#[trigger] map_entries(entries)[k]).0 == k
                        &&& map_entries(entries)[k].1.content@ == savestate.log_entries@[k].notes@
                        &&& map_entries(entries)[k].1.accumulated_minutes
                            == savestate.log_entries@[k].minutes_spent
                    },
            decreases n - i,
        {
            let e = &savestate.log_entries[i];
            let entry = NoteEntry { content: e.notes.clone(), accumulated_minutes: e.minutes_spent };
            let ghost before = map_entries(entries);
            map_insert(&mut entries, i as u64, entry);
            proof {
                assert forall|j: int| 0 <= j < before.len() implies before[j].0 != i as u64 by {}
            }
            i = i + 1;
        }
        let last_focused_id = match savestate.last_focused_idx {
            Some(idx) => if (idx as u128) < (n as u128) {
                Some(idx)
            } else {
                None
            },
            None => None,
        };
        NoteEditors { entries, last_focused_id, last_app_exit: savestate.unix_time_last_exit }
    }

    /// The number of notes.
    pub fn len(&self) -> (r: usize)
        ensures
            r == self.num_entries(),
    {
        map_len(&self.entries)
    }

    /// The text of the note at `index`, if there is one.
    pub fn text_at(&self, index: usize) -> (r: Option<String>)
        ensures
            index < self.num_entries() ==> (r matches Some(s) && s@ == self.entries()[index as int].1.content@),
            index >= self.num_entries() ==> r is None,
    {
        match map_get_index(&self.entries, index) {
            Some((_, e)) => Some(e.content.clone()),
            None => None,
        }
    }

    /// The identity of the note that last had focus.
    pub fn last_focused_id(&self) -> (r: Option<u64>)
        ensures
            r == self.last_focused(),
    {
        self.last_focused_id
    }

    /// Appends an empty note and gives it focus; returns its identity, for
    /// the window to move the input focus there.
    pub fn add_note(&mut self) -> (r: u64)
        requires
            old(self).wf(),
        ensures
            final(self).wf(),
            final(self).note_added(*old(self), r),
    {
        let n = map_len(&self.entries);
        let id = n as u64;
        let ghost before = map_entries(self.entries);
        proof {
            assert forall|j: int| 0 <= j < before.len() implies before[j].0 != id by {
                assert(self.entries()[j].0 == j);
            }
        }
        map_insert(&mut self.entries, id, NoteEntry { content: String::new(), accumulated_minutes: 0 });
        proof {
            let after = map_entries(self.entries);
            assert(after.take(n as int) =~= before);
            assert forall|j: int| 0 <= j < after.len() implies #[trigger] after[j].0 == j by {
                if j < n {
                    assert(after[j] == before[j]);
                    assert(old(self).entries()[j].0 == j);
                }
            }
        }
        self.last_focused_id = Some(id);
        id
    }

    /// Gives focus to the note at `entry_idx` and returns its identity; with
    /// no note there, changes nothing and returns `None`.
    pub fn focus_entry(&mut self, entry_idx: usize) -> (r: Option<u64>)
        requires
            old(self).wf(),
        ensures
            final(self).wf(),
            entry_idx < old(self).num_entries() ==> (r == Some(old(self).entries()[entry_idx as int].0)
                && final(self).focus_moved(*old(self), entry_idx as nat)),
            entry_idx >= old(self).num_entries() ==> (r is None && *final(self) == *old(self)),
    {
        match map_get_index(&self.entries, entry_idx) {
            Some((id, _)) => {
                self.last_focused_id = Some(id);
                Some(id)
            },
            None => None,
        }
    }

    /// The identity of the note that last had focus, to give it focus again.
    pub fn focus_mru_entry(&self) -> (r: Option<u64>)
        ensures
            r == self.last_focused(),
    {
        self.last_focused_id
    }

    /// Replaces the text of the note `target_id` with `edited_text`, the
    /// text after the window applied an edit to it. An unknown identity is
    /// ignored.
    pub fn perform_editor_action(&mut self, target_id: u64, edited_text: String)
        requires
            old(self).wf(),
        ensures
            final(self).wf(),
            final(self).last_focused() == old(self).last_focused(),
            final(self).last_exit() == old(self).last_exit(),
            forall|i: int|
                0 <= i < old(self).num_entries() && old(self).entries()[i].0 == target_id
                    ==> final(self).entries() == old(self).entries().update(
                    i,
                    (
                        target_id,
                        NoteEntry {
                            content: edited_text,
                            accumulated_minutes: old(self).entries()[i].1.accumulated_minutes,
                        },
                    ),
                ),
            (forall|i: int| 0 <= i < old(self).num_entries() ==> old(self).entries()[i].0 != target_id)
                ==> final(self).entries() == old(self).entries(),
    {
        let ghost before = map_entries(self.entries);
        match map_get_index_of(&self.entries, target_id) {
            Some(idx) => {
                proof {
                    assert(old(self).entries()[idx as int].0 == idx);
                }
                let acc = match map_get_index(&self.entries, idx) {
                    Some((_, e)) => e.accumulated_minutes,
                    None => 0,
                };
                let entry = NoteEntry { content: edited_text, accumulated_minutes: acc };
                let ghost updated = before.update(idx as int, (target_id, entry));
                assert(before[idx as int].0 == target_id);
                map_insert(&mut self.entries, target_id, entry);
                proof {
                    let after = map_entries(self.entries);
                    assert(after == updated);
                    assert(after.len() == before.len());
                    assert forall|j: int| 0 <= j < after.len() implies #[trigger] after[j].0 == j by {
                        assert(old(self).entries()[j].0 == j);
                        if j != idx {
                            assert(after[j] == before[j]);
                        }
                    }
                }
            },
            None => {},
        }
    }

    /// Ends the session at `now_secs`: credits the whole session to the note
    /// that had focus (none if the clock went backwards), and lays out the
    /// state to save and, if `write_clipboard`, the clipboard summary.
    pub fn save_and_exit(&self, write_clipboard: bool, now_secs: u64) -> (r: ExitPlan)
        requires
            self.wf(),
        ensures
            r.savefile.valid(),
            self.exit_plan(write_clipboard, now_secs, r),
    {
        let interval: u64 = if now_secs >= self.last_app_exit {
            now_secs - self.last_app_exit
        } else {
            0
        };
        let n = map_len(&self.entries);
        let mut log_entries: Vec<SavefileLogEntry> = Vec::new();
        let mut i: usize = 0;
        while i < n
            invariant
                i <= n,
                n == self.num_entries(),
                self.wf(),
                interval == session_secs(self.last_app_exit, now_secs),
                log_entries@.len() == i,
                forall|k: int|
                    0 <= k < i ==> {
                        &&& (#[trigger] log_entries@[k]).notes@ == self.entries()[k].1.content@
                        &&& log_entries@[k].minutes_spent == minutes_after(
                            self.entries()[k].1.accumulated_minutes as nat,
                            self.credit(k, now_secs),
                        )
                    },
            decreases n - i,
        {
            // The position is below the length, so the pair is there.
            if let Some((id, e)) = map_get_index(&self.entries, i) {
                let credit: u64 = match self.last_focused_id {
                    Some(f) => if f == id {
                        interval
                    } else {
                        0
                    },
                    None => 0,
                };
                let minutes = add_credit(e.accumulated_minutes, credit);
                log_entries.push(
                    SavefileLogEntry { notes: e.content.clone(), minutes_spent: minutes },
                );
            }
            i = i + 1;
        }
        let savefile = Savefile {
            log_entries,
            unix_time_last_exit: now_secs,
            last_focused_idx: self.last_focused_id,
        };
        let clipboard = if write_clipboard {
            Some(savefile.clipboard_summary())
        } else {
            None
        };
        ExitPlan { savefile, clipboard }
    }
}

/// Adding a note puts it at the next position, under an identity that no
/// earlier note has; all identities stay distinct.
pub proof fn lemma_add_note_fresh_identity(before: NoteEditors, after: NoteEditors, id: u64)
    requires
        before.wf(),
        after.wf(),
        after.note_added(before, id),
    ensures
        id == before.num_entries(),
        after.entries()[id as int].0 == id,
        forall|i: int| 0 <= i < before.num_entries() ==> before.entries()[i].0 != id,
        distinct_keys(after.entries()),
{
    assert forall|i: int| 0 <= i < before.num_entries() implies before.entries()[i].0 != id by {
        assert(before.entries()[i].0 == i);
    }
    assert forall|i: int, j: int|
        0 <= i < after.num_entries() && 0 <= j < after.num_entries() && i != j implies after.entries()[i].0
        != after.entries()[j].0 by {
        assert(after.entries()[i].0 == i);
        assert(after.entries()[j].0 == j);
    }
}

/// Saving the notes and loading the saved state again gives the same notes,
/// with the same text, in the same order, and the same focus.
pub proof fn lemma_save_then_load_keeps_notes(
    ed: NoteEditors,
    write_clipboard: bool,
    now: u64,
    plan: ExitPlan,
    reloaded: NoteEditors,
)
    requires
        ed.wf(),
        ed.exit_plan(write_clipboard, now, plan),
        reloaded.loaded_from(plan.savefile),
    ensures
        reloaded.num_entries() == ed.num_entries(),
        forall|i: int|
            0 <= i < ed.num_entries() ==> (#[trigger] reloaded.entries()[i]).1.content@
                == ed.entries()[i].1.content@,
        reloaded.last_focused() == ed.last_focused(),
{
    assert forall|i: int| 0 <= i < ed.num_entries() implies (#[trigger] reloaded.entries()[i]).1.content@
        == ed.entries()[i].1.content@ by {
        assert(plan.savefile.log_entries@[i].notes@ == ed.entries()[i].1.content@);
    }
}

/// No saved minute count falls below the minutes a note already had; when
/// the clock went backwards it stays exactly the same.
pub proof fn lemma_saved_minutes_never_drop(
    ed: NoteEditors,
    write_clipboard: bool,
    now: u64,
    plan: ExitPlan,
    i: int,
)
    requires
        ed.wf(),
        ed.exit_plan(write_clipboard, now, plan),
        0 <= i < ed.num_entries(),
    ensures
        plan.savefile.log_entries@[i].minutes_spent >= ed.entries()[i].1.accumulated_minutes,
        now < ed.last_exit() ==> plan.savefile.log_entries@[i].minutes_spent
            == ed.entries()[i].1.accumulated_minutes,
{
    let a = ed.entries()[i].1.accumulated_minutes as nat;
    let c = ed.credit(i, now);
    assert((a * 60 + c) / 60 >= a) by (nonlinear_arith);
    assert((a * 60 + 0) / 60 == a) by (nonlinear_arith);
    assert(plan.savefile.log_entries@[i].minutes_spent == minutes_after(a, c));
}

/// The minutes of a note after `credit_secs` more seconds.
fn add_credit(acc_minutes: u64, credit_secs: u64) -> (r: u64)
    ensures
        r == minutes_after(acc_minutes as nat, credit_secs as nat),
{
    proof {
        let a = acc_minutes as nat;
        let c = credit_secs as nat;
        assert((a * 60 + c) / 60 == a + c / 60) by (nonlinear_arith);
    }
    let extra = credit_secs / 60;
    match acc_minutes.checked_add(extra) {
        Some(m) => m,
        None => u64::MAX,
    }
}

} // verus!
