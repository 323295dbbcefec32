//! The saved state that survives a restart: one record per note, in order,
//! the time of the last exit and the note that had focus.
use crate::text::{decimal, decimal_string};
use vstd::prelude::*;
use vstd::string::*;

verus! {

/// One saved note.
pub struct SavefileLogEntry {
    pub notes: String,
    pub minutes_spent: u64,
}

/// The saved state.
pub struct Savefile {
    pub log_entries: Vec<SavefileLogEntry>,
    pub unix_time_last_exit: u64,
    pub last_focused_idx: Option<u64>,
}

/// One note in the clipboard summary: `<minutes>m: <notes>`.
pub open spec fn summary_line(e: SavefileLogEntry) -> Seq<char> {
    decimal(e.minutes_spent as nat) + seq!['m', ':', ' '] + e.notes@
}

/// The summary lines of all notes, in order, separated by a blank line.
pub open spec fn summary_text(es: Seq<SavefileLogEntry>) -> Seq<char>
    decreases es.len(),
{
    if es.len() == 0 {
        Seq::empty()
    } else if es.len() == 1 {
        summary_line(es[0])
    } else {
        summary_text(es.drop_last()) + seq!['\n', '\n'] + summary_line(es.last())
    }
}

impl Savefile {
    /// A focused index, where there is one, names a saved note.
    pub open spec fn valid(&self) -> bool {
        self.last_focused_idx matches Some(i) ==> i < self.log_entries@.len()
    }

    /// The state of a first start: no notes, no focus.
    pub fn empty(unix_time_now: u64) -> (r: Savefile)
        ensures
            r.log_entries@.len() == 0,
            r.unix_time_last_exit == unix_time_now,
            r.last_focused_idx is None,
    {
        Savefile { log_entries: Vec::new(), unix_time_last_exit: unix_time_now, last_focused_idx: None }
    }

    pub fn is_valid(&self) -> (r: bool)
        ensures
            r == self.valid(),
    {
        match self.last_focused_idx {
            Some(i) => (i as u128) < (self.log_entries.len() as u128),
            None => true,
        }
    }

    /// The text handed to the clipboard at exit.
    pub fn clipboard_summary(&self) -> (r: String)
        ensures
            r@ == summary_text(self.log_entries@),
    {
        let mut s = String::new();
        let n = self.log_entries.len();
        let mut i: usize = 0;
        while i < n
            invariant
                i <= n,
                n == self.log_entries@.len(),
                s@ == summary_text(self.log_entries@.subrange(0, i as int)),
            decreases n - i,
        {
            let ghost before = self.log_entries@.subrange(0, i as int);
            let ghost after = self.log_entries@.subrange(0, i + 1);
            assert(after.drop_last() =~= before);
            if i > 0 {
                s.append("\n\n");
                proof {
                    reveal_strlit("\n\n");
                }
            }
            let e = &self.log_entries[i];
            let m = decimal_string(e.minutes_spent);
            s.append(m.as_str());
            s.append("m: ");
            proof {
                reveal_strlit("m: ");
            }
            s.append(e.notes.as_str());
            assert(s@ =~= summary_text(after));
            i = i + 1;
        }
        assert(self.log_entries@.subrange(0, n as int) =~= self.log_entries@);
        s
    }
}

} // verus!
