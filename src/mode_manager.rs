//! The modal key handling: which mode a released key leads to, and what it
//! does to the notes.
use crate::note_editors::{ExitPlan, NoteEditors};
use crate::text::{parse_index, parsed_index};
use vstd::prelude::*;
use vstd::string::*;

verus! {

/// The input modes. `Exit` is final.
#[derive(Debug, PartialEq, Eq, Structural, Copy, Clone)]
pub enum Mode {
    Command,
    SelectEdit,
    SelectExit,
    Edit,
    Exit,
}

/// A key that is not a character; only Escape is told apart.
#[derive(Debug, PartialEq, Eq, Structural, Copy, Clone)]
pub enum NamedKey {
    Escape,
    Other,
}

/// A released key.
#[derive(Debug)]
pub enum Key {
    Named(NamedKey),
    Character(String),
    Unidentified,
}

/// The modifiers held with a key.
#[derive(Debug, PartialEq, Eq, Structural, Copy, Clone)]
pub struct Modifiers {
    pub control: bool,
}

impl Modifiers {
    pub fn control(&self) -> (r: bool)
        ensures
            r == self.control,
    {
        self.control
    }
}

/// What the window is to do after a key.
pub enum Effect {
    /// Nothing.
    NoOp,
    /// Move the input focus to the note with this identity.
    Focus(u64),
    /// Save the state, write the clipboard if asked, close the window and
    /// then end the process.
    Exit(ExitPlan),
}

/// What a key does to the notes.
pub ghost enum KeyAction {
    Nothing,
    CreateEntry,
    FocusIndex(nat),
    Finalize(bool),
}

/// A character key of exactly the character `c`.
pub open spec fn is_char(s: Seq<char>, c: char) -> bool {
    s == seq![c]
}

/// The mode a key leads to and what it does, with `n` notes present.
/// Leaving through the exit selection or through `x` puts the summary on the
/// clipboard; saving from the editor with control+s does not.
pub open spec fn key_outcome(mode: Mode, key: Key, control: bool, n: nat) -> (Mode, KeyAction) {
    match key {
        Key::Named(NamedKey::Escape) => (Mode::Command, KeyAction::Nothing),
        Key::Named(NamedKey::Other) => (mode, KeyAction::Nothing),
        Key::Unidentified => (mode, KeyAction::Nothing),
        Key::Character(c) => match mode {
            Mode::Command => if is_char(c@, 's') {
                (Mode::SelectExit, KeyAction::Nothing)
            } else if is_char(c@, 'e') {
                (Mode::SelectEdit, KeyAction::Nothing)
            } else if is_char(c@, 'n') {
                (Mode::Edit, KeyAction::CreateEntry)
            } else if is_char(c@, 'x') {
                (Mode::Exit, KeyAction::Finalize(true))
            } else {
                (Mode::Command, KeyAction::Nothing)
            },
            Mode::SelectEdit => match parsed_index(c@) {
                Some(i) => if i < n {
                    (Mode::Edit, KeyAction::FocusIndex(i))
                } else {
                    (Mode::Command, KeyAction::Nothing)
                },
                None => (Mode::Command, KeyAction::Nothing),
            },
            Mode::SelectExit => if parsed_index(c@) is Some {
                (Mode::Exit, KeyAction::Finalize(true))
            } else {
                (Mode::Command, KeyAction::Nothing)
            },
            Mode::Edit => if control && is_char(c@, 's') {
                (Mode::Exit, KeyAction::Finalize(false))
            } else {
                (Mode::Edit, KeyAction::Nothing)
            },
            Mode::Exit => (Mode::Exit, KeyAction::Nothing),
        },
    }
}

/// `r` and the notes after the key (`after`, from `before`) are what
/// `action` says, for a session ending at `now`.
pub open spec fn performed(
    action: KeyAction,
    before: NoteEditors,
    after: NoteEditors,
    now: u64,
    r: Effect,
) -> bool {
    match action {
        KeyAction::Nothing => after == before && r is NoOp,
        KeyAction::CreateEntry => r matches Effect::Focus(id) && after.note_added(before, id),
        KeyAction::FocusIndex(i) => after.focus_moved(before, i) && r == Effect::Focus(
            before.entries()[i as int].0,
        ),
        KeyAction::Finalize(clip) => after == before && (r matches Effect::Exit(plan)
            && before.exit_plan(clip, now, plan)),
    }
}

/// In the edit selection, a character that is no index leads back to
/// command mode and touches no note.
pub proof fn lemma_select_edit_non_index(c: String, control: bool, n: nat)
    requires
        parsed_index(c@) is None,
    ensures
        key_outcome(Mode::SelectEdit, Key::Character(c), control, n) == (
            Mode::Command,
            KeyAction::Nothing,
        ),
{
}

/// In edit mode, a character key without control stays in edit mode and
/// touches no note.
pub proof fn lemma_edit_keeps_mode_without_control(c: String, n: nat)
    ensures
        key_outcome(Mode::Edit, Key::Character(c), false, n) == (Mode::Edit, KeyAction::Nothing),
{
}

fn is_single(s: &str, c: char) -> (r: bool)
    ensures
        r == is_char(s@, c),
{
    if s.unicode_len() == 1 {
        let d = s.get_char(0);
        assert(s@ =~= seq![d] ==> (d == c <==> s@ == seq![c]));
        if d == c {
            assert(s@ =~= seq![c]);
        }
        d == c
    } else {
        false
    }
}

struct StateTransition {
    next_mode: Mode,
    effect: Effect,
}

/// The mode that released keys are read in.
#[derive(Debug, Copy, Clone)]
pub struct ModeManager {
    active_mode: Mode,
}

impl ModeManager {
    pub closed spec fn mode(&self) -> Mode {
        self.active_mode
    }

    /// Starts in command mode.
    pub fn new() -> (r: ModeManager)
        ensures
            r.mode() == Mode::Command,
    {
        ModeManager { active_mode: Mode::Command }
    }

    /// The current mode.
    pub fn active_mode(&self) -> (r: Mode)
        ensures
            r == self.mode(),
    {
        self.active_mode
    }

    fn handle_cmd_keypress(&self, c: &String, screen: &mut NoteEditors, now_secs: u64) -> (r:
        StateTransition)
        requires
            self.mode() == Mode::Command,
            old(screen).wf(),
        ensures
            final(screen).wf(),
            ({
                let (m, a) = key_outcome(
                    self.mode(),
                    Key::Character(*c),
                    false,
                    old(screen).num_entries(),
                );
                r.next_mode == m && performed(a, *old(screen), *final(screen), now_secs, r.effect)
            }),
    {
        let s = c.as_str();
        if is_single(s, 's') {
            return StateTransition { next_mode: Mode::SelectExit, effect: Effect::NoOp };
        }
        if is_single(s, 'e') {
            return StateTransition { next_mode: Mode::SelectEdit, effect: Effect::NoOp };
        }
        if is_single(s, 'n') {
            let id = screen.add_note();
            return StateTransition { next_mode: Mode::Edit, effect: Effect::Focus(id) };
        }
        if is_single(s, 'x') {
            let plan = screen.save_and_exit(true, now_secs);
            return StateTransition { next_mode: Mode::Exit, effect: Effect::Exit(plan) };
        }
        StateTransition { next_mode: self.active_mode, effect: Effect::NoOp }
    }

    fn handle_selectedit_keypress(&self, c: &String, screen: &mut NoteEditors) -> (r:
        StateTransition)
        requires
            self.mode() == Mode::SelectEdit,
            old(screen).wf(),
        ensures
            final(screen).wf(),
            ({
                let (m, a) = key_outcome(
                    self.mode(),
                    Key::Character(*c),
                    false,
                    old(screen).num_entries(),
                );
                r.next_mode == m && performed(a, *old(screen), *final(screen), 0, r.effect)
            }),
    {
        let fallback_to_cmd_mode = StateTransition { next_mode: Mode::Command, effect: Effect::NoOp };
        let idx = match parse_index(c.as_str()) {
            Some(idx) => idx,
            None => {
                return fallback_to_cmd_mode;
            },
        };
        match screen.focus_entry(idx) {
            Some(id) => StateTransition { next_mode: Mode::Edit, effect: Effect::Focus(id) },
            None => fallback_to_cmd_mode,
        }
    }

    fn handle_selectexit_keypress(&self, c: &String, screen: &NoteEditors, now_secs: u64) -> (r:
        StateTransition)
        requires
            self.mode() == Mode::SelectExit,
            screen.wf(),
        ensures
            ({
                let (m, a) = key_outcome(self.mode(), Key::Character(*c), false, screen.num_entries());
                r.next_mode == m && performed(a, *screen, *screen, now_secs, r.effect)
            }),
    {
        match parse_index(c.as_str()) {
            Some(_) => {
                let plan = screen.save_and_exit(true, now_secs);
                StateTransition { next_mode: Mode::Exit, effect: Effect::Exit(plan) }
            },
            None => StateTransition { next_mode: Mode::Command, effect: Effect::NoOp },
        }
    }

    fn handle_edit_keypress(
        &self,
        c: &String,
        modifier: Modifiers,
        screen: &NoteEditors,
        now_secs: u64,
    ) -> (r: StateTransition)
        requires
            self.mode() == Mode::Edit,
            screen.wf(),
        ensures
            ({
                let (m, a) = key_outcome(
                    self.mode(),
                    Key::Character(*c),
                    modifier.control,
                    screen.num_entries(),
                );
                r.next_mode == m && performed(a, *screen, *screen, now_secs, r.effect)
            }),
    {
        let no_transition = StateTransition { next_mode: self.active_mode, effect: Effect::NoOp };
        if !modifier.control() {
            return no_transition;
        }
        if is_single(c.as_str(), 's') {
            let plan = screen.save_and_exit(false, now_secs);
            return StateTransition { next_mode: Mode::Exit, effect: Effect::Exit(plan) };
        }
        no_transition
    }

    /// Reads one released key with its modifiers in the current mode: moves
    /// to the next mode and does what the key asks of the notes. A session
    /// that ends here ends at `now_secs`.
    pub fn handle_keypress(
        &mut self,
        k: Key,
        m: Modifiers,
        editors: &mut NoteEditors,
        now_secs: u64,
    ) -> (r: Effect)
        requires
            old(editors).wf(),
        ensures
            final(editors).wf(),
            ({
                let (next, action) = key_outcome(
                    old(self).mode(),
                    k,
                    m.control,
                    old(editors).num_entries(),
                );
                final(self).mode() == next && performed(
                    action,
                    *old(editors),
                    *final(editors),
                    now_secs,
                    r,
                )
            }),
    {
        let transition = match k {
            Key::Named(nk) => {
                let next_mode = match nk {
                    NamedKey::Escape => Mode::Command,
                    NamedKey::Other => self.active_mode,
                };
                StateTransition { next_mode, effect: Effect::NoOp }
            },
            Key::Character(c) => match self.active_mode {
                Mode::Command => self.handle_cmd_keypress(&c, editors, now_secs),
                Mode::SelectEdit => self.handle_selectedit_keypress(&c, editors),
                Mode::SelectExit => self.handle_selectexit_keypress(&c, editors, now_secs),
                Mode::Edit => self.handle_edit_keypress(&c, m, editors, now_secs),
                Mode::Exit => StateTransition { next_mode: self.active_mode, effect: Effect::NoOp },
            },
            Key::Unidentified => StateTransition { next_mode: self.active_mode, effect: Effect::NoOp },
        };
        self.active_mode = transition.next_mode;
        transition.effect
    }
}

} // verus!
