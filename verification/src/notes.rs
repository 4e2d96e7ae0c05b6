//! The notes editor: a strict finite state machine over the ordered
//! note list (viewing, adding, editing, delete confirmation), with
//! whitespace-blank commits discarded and destructive deletion guarded
//! by a confirmation step.

use vstd::prelude::*;
use crate::appstate::{AppState, AppStateV};
use crate::state::NotesMode;
use crate::stats::{NoteV, Note, StatisticsV};

verus! {

/// The blank characters stripped from note edges: ASCII whitespace.
pub open spec fn is_space(c: char) -> bool {
    c == ' ' || c == '\t' || c == '\n' || c == '\r'
}

/// The text with blank characters removed from both ends.
pub open spec fn trimmed(s: Seq<char>) -> Seq<char>
    decreases s.len(),
{
    if s.len() == 0 {
        s
    } else if is_space(s[0]) {
        trimmed(s.drop_first())
    } else if is_space(s.last()) {
        trimmed(s.drop_last())
    } else {
        s
    }
}

proof fn lemma_trimmed_range(s: Seq<char>, i: int, j: int)
    requires
        0 <= i <= j <= s.len(),
        forall|k: int| 0 <= k < i ==> is_space(s[k]),
        forall|k: int| j <= k < s.len() ==> is_space(s[k]),
        i < j ==> !is_space(s[i]) && !is_space(s[j - 1]),
    ensures
        trimmed(s) == s.subrange(i, j),
    decreases s.len(),
{
    if s.len() == 0 {
        assert(trimmed(s) =~= s.subrange(i, j));
    } else if is_space(s[0]) {
        let t = s.drop_first();
        if i > 0 {
            assert(forall|k: int| 0 <= k < i - 1 ==> is_space(#[trigger] t[k]));
            assert(forall|k: int| j - 1 <= k < t.len() ==> is_space(#[trigger] t[k]));
            lemma_trimmed_range(t, i - 1, j - 1);
            assert(t.subrange(i - 1, j - 1) =~= s.subrange(i, j));
        } else {
            // `i == 0`; a blank first character then forces `i == j`,
            // so every character is blank.
            assert(i == j);
            assert(forall|k: int| 0 <= k < t.len() ==> is_space(#[trigger] t[k]));
            lemma_trimmed_range(t, 0, 0);
            assert(t.subrange(0, 0) =~= s.subrange(i, j));
        }
    } else if is_space(s.last()) {
        let t = s.drop_last();
        assert(j < s.len());
        assert(forall|k: int| 0 <= k < i ==> is_space(#[trigger] t[k]));
        assert(forall|k: int| j <= k < t.len() ==> is_space(#[trigger] t[k]));
        lemma_trimmed_range(t, i, j);
        assert(t.subrange(i, j) =~= s.subrange(i, j));
    } else {
        assert(i == 0);
        assert(j == s.len());
        assert(trimmed(s) == s);
        assert(s.subrange(0, s.len() as int) =~= s);
    }
}

fn is_space_exec(c: char) -> (r: bool)
    ensures
        r == is_space(c),
{
    c == ' ' || c == '\t' || c == '\n' || c == '\r'
}

/// Strips blank characters from both ends of the text.
pub fn trim_text(s: &str) -> (r: String)
    ensures
        r@ == trimmed(s@),
{
    let n = s.unicode_len();
    let mut i: usize = 0;
    while i < n && is_space_exec(s.get_char(i))
        invariant
            n == s@.len(),
            i <= n,
            forall|k: int| 0 <= k < i ==> is_space(s@[k]),
        decreases n - i,
    {
        i = i + 1;
    }
    if i == n {
        proof {
            lemma_trimmed_range(s@, n as int, n as int);
            assert(s@.subrange(n as int, n as int) =~= Seq::<char>::empty());
        }
        return String::new();
    }
    let mut j: usize = n;
    while j > i && is_space_exec(s.get_char(j - 1))
        invariant
            n == s@.len(),
            i <= j <= n,
            i < n,
            forall|k: int| j <= k < n ==> is_space(s@[k]),
        decreases j,
    {
        j = j - 1;
    }
    proof {
        assert(!is_space(s@[i as int]));
        assert(j > i);
        assert(!is_space(s@[j - 1]));
        lemma_trimmed_range(s@, i as int, j as int);
    }
    let piece = s.substring_char(i, j);
    piece.to_owned()
}

impl AppStateV {

    /// Entering add mode with an empty buffer (viewing mode only; the
    /// dispatcher enforces that).
    pub open spec fn start_note_spec(self) -> AppStateV {
        AppStateV { notes_mode: NotesMode::Adding, notes_input: Seq::<char>::empty(), ..self }
    }

    /// Committing an added note: a blank (whitespace-only) buffer is
    /// discarded; otherwise the trimmed text is appended as a new note
    /// stamped `ts` with the running phase's slug, the new note is
    /// selected, and the ledger is marked dirty. Either way the editor
    /// returns to viewing with an empty buffer.
    pub open spec fn save_note_spec(self, ts: Seq<char>) -> AppStateV {
        let t = trimmed(self.notes_input);
        if t.len() > 0 {
            AppStateV {
                stats: StatisticsV {
                    notes: self.stats.notes.push(
                        NoteV { timestamp: ts, content: t, phase: self.phase.slug_spec() },
                    ),
                    ..self.stats
                },
                needs_stats_save: true,
                selected_note_index: Some(self.stats.notes.len() as usize),
                notes_mode: NotesMode::Viewing,
                notes_input: Seq::<char>::empty(),
                ..self
            }
        } else {
            AppStateV {
                notes_mode: NotesMode::Viewing,
                notes_input: Seq::<char>::empty(),
                ..self
            }
        }
    }

    /// Abandoning an add or edit: back to viewing, buffer discarded.
    pub open spec fn cancel_note_spec(self) -> AppStateV {
        AppStateV { notes_mode: NotesMode::Viewing, notes_input: Seq::<char>::empty(), ..self }
    }

    /// Entering edit mode on the selected note, seeding the buffer with
    /// its content; without a valid selection nothing happens.
    pub open spec fn start_edit_note_spec(self) -> AppStateV {
        match self.selected_note_index {
            Some(i) => if i < self.stats.notes.len() {
                AppStateV {
                    notes_input: self.stats.notes[i as int].content,
                    notes_mode: NotesMode::Editing,
                    ..self
                }
            } else {
                self
            },
            None => self,
        }
    }

    /// Committing an edit: with a valid selection and a non-blank
    /// buffer, the selected note's content becomes the trimmed text
    /// (timestamp and phase stay) and the ledger is marked dirty.
    /// Either way the editor returns to viewing with an empty buffer.
    pub open spec fn save_edited_note_spec(self) -> AppStateV {
        let t = trimmed(self.notes_input);
        let back = AppStateV {
            notes_mode: NotesMode::Viewing,
            notes_input: Seq::<char>::empty(),
            ..self
        };
        match self.selected_note_index {
            Some(i) => if i < self.stats.notes.len() && t.len() > 0 {
                AppStateV {
                    stats: StatisticsV {
                        notes: self.stats.notes.update(
                            i as int,
                            NoteV { content: t, ..self.stats.notes[i as int] },
                        ),
                        ..self.stats
                    },
                    needs_stats_save: true,
                    ..back
                }
            } else {
                back
            },
            None => back,
        }
    }

    /// Asking to delete: only moves to the confirmation step, and only
    /// when a note is selected.
    pub open spec fn confirm_delete_note_spec(self) -> AppStateV {
        if self.selected_note_index is Some {
            AppStateV { notes_mode: NotesMode::ConfirmingDelete, ..self }
        } else {
            self
        }
    }

    /// Confirming a delete: the selected note is removed, the ledger is
    /// marked dirty, and the selection re-clamps to the nearest valid
    /// index (the note that shifted into the slot, or the new last
    /// note, or none when the list empties). Returns to viewing.
    pub open spec fn delete_selected_note_spec(self) -> AppStateV {
        let back = AppStateV { notes_mode: NotesMode::Viewing, ..self };
        match self.selected_note_index {
            Some(i) => if i < self.stats.notes.len() {
                let rest = self.stats.notes.remove(i as int);
                let sel: Option<usize> = if rest.len() == 0 {
                    None
                } else if i >= rest.len() {
                    Some((rest.len() - 1) as usize)
                } else {
                    Some(i)
                };
                AppStateV {
                    stats: StatisticsV { notes: rest, ..self.stats },
                    needs_stats_save: true,
                    selected_note_index: sel,
                    ..back
                }
            } else {
                back
            },
            None => back,
        }
    }

    /// Declining a delete: back to viewing, nothing removed.
    pub open spec fn cancel_delete_spec(self) -> AppStateV {
        AppStateV { notes_mode: NotesMode::Viewing, ..self }
    }

    /// Moving the selection one down (towards the newest note), held at
    /// the end of the list.
    pub open spec fn select_next_note_spec(self) -> AppStateV {
        if self.stats.notes.len() > 0 {
            let sel: usize = match self.selected_note_index {
                Some(i) => if i + 1 < self.stats.notes.len() {
                    (i + 1) as usize
                } else {
                    (self.stats.notes.len() - 1) as usize
                },
                None => 0,
            };
            AppStateV { selected_note_index: Some(sel), ..self }
        } else {
            self
        }
    }

    /// Moving the selection one up (towards the oldest note), held at
    /// the start of the list.
    pub open spec fn select_prev_note_spec(self) -> AppStateV {
        if self.stats.notes.len() > 0 {
            let sel: usize = match self.selected_note_index {
                Some(i) => if i > 0 {
                    (i - 1) as usize
                } else {
                    0
                },
                None => (self.stats.notes.len() - 1) as usize,
            };
            AppStateV { selected_note_index: Some(sel), ..self }
        } else {
            self
        }
    }

    /// Scrolling the note list by `delta` rows, clamped to the scroll
    /// range; lists of ten or fewer notes do not scroll.
    pub open spec fn scroll_notes_spec(self, delta: int) -> AppStateV {
        if self.stats.notes.len() > 10 {
            let maxoff = self.stats.notes.len() - 10;
            let proposed = self.note_scroll_offset + delta;
            let clamped = if proposed < 0 {
                0
            } else if proposed > maxoff {
                maxoff as int
            } else {
                proposed
            };
            AppStateV { note_scroll_offset: clamped as usize, ..self }
        } else {
            self
        }
    }
}

impl AppState {

    /// Begins adding a note.
    pub fn start_note(&mut self)
        ensures
            final(self)@ == old(self)@.start_note_spec(),
    {
        self.notes_mode = NotesMode::Adding;
        self.notes_input = String::new();
    }

    /// Commits the note being added, stamped `ts`.
    pub fn save_note(&mut self, ts: String)
        requires
            old(self)@.wf(),
        ensures
            final(self)@ == old(self)@.save_note_spec(ts@),
            final(self)@.wf(),
    {
        let content = trim_text(self.notes_input.as_str());
        if !content.as_str().is_empty() {
            let ghost old_notes = old(self)@.stats.notes;
            let note = Note { timestamp: ts, content, phase: self.phase.slug() };
            let ghost note_v = note.deep_view();
            self.stats.notes.push(note);
            self.selected_note_index = Some(self.stats.notes.len() - 1);
            self.needs_stats_save = true;
            self.notes_mode = NotesMode::Viewing;
            self.notes_input = String::new();
            proof {
                let dv = self.stats.notes.deep_view();
                assert forall|k: int| 0 <= k < dv.len() implies #[trigger] dv[k] == old_notes.push(
                    note_v,
                )[k] by {
                    if k < old_notes.len() {
                        assert(self.stats.notes@[k] == old(self).stats.notes@[k]);
                    }
                }
                assert(dv =~= old_notes.push(note_v));
                assert(note_v =~= (NoteV {
                    timestamp: ts@,
                    content: trimmed(old(self)@.notes_input),
                    phase: old(self)@.phase.slug_spec(),
                }));
                assert(self@ =~~= old(self)@.save_note_spec(ts@));
            }
        } else {
            self.notes_mode = NotesMode::Viewing;
            self.notes_input = String::new();
            proof {
                assert(content@.len() == 0);
                assert(self@ =~~= old(self)@.save_note_spec(ts@));
            }
        }
    }

    /// Abandons the note being added or edited.
    pub fn cancel_note(&mut self)
        ensures
            final(self)@ == old(self)@.cancel_note_spec(),
    {
        self.notes_mode = NotesMode::Viewing;
        self.notes_input = String::new();
    }

    /// Begins editing the selected note.
    pub fn start_edit_note(&mut self)
        ensures
            final(self)@ == old(self)@.start_edit_note_spec(),
    {
        match self.selected_note_index {
            Some(idx) => {
                if idx < self.stats.notes.len() {
                    self.notes_input = self.stats.notes[idx].content.clone();
                    self.notes_mode = NotesMode::Editing;
                }
            },
            None => {},
        }
    }

    /// Commits the edit of the selected note.
    pub fn save_edited_note(&mut self)
        requires
            old(self)@.wf(),
        ensures
            final(self)@ == old(self)@.save_edited_note_spec(),
            final(self)@.wf(),
    {
        let content = trim_text(self.notes_input.as_str());
        let mut applied: bool = false;
        let ghost old_notes = old(self)@.stats.notes;
        match self.selected_note_index {
            Some(idx) => {
                if idx < self.stats.notes.len() && !content.as_str().is_empty() {
                    let ghost tv = content@;
                    self.stats.notes[idx].content = content;
                    self.needs_stats_save = true;
                    applied = true;
                    proof {
                        let dv = self.stats.notes.deep_view();
                        let target = old_notes.update(
                            idx as int,
                            NoteV { content: tv, ..old_notes[idx as int] },
                        );
                        assert forall|k: int| 0 <= k < dv.len() implies #[trigger] dv[k]
                            == target[k] by {
                            if k != idx {
                                assert(self.stats.notes@[k] == old(self).stats.notes@[k]);
                            }
                        }
                        assert(dv =~= target);
                    }
                }
            },
            None => {},
        }
        self.notes_mode = NotesMode::Viewing;
        self.notes_input = String::new();
        proof {
            assert(self@ =~~= old(self)@.save_edited_note_spec());
        }
    }

    /// Asks for confirmation before deleting the selected note.
    pub fn confirm_delete_note(&mut self)
        ensures
            final(self)@ == old(self)@.confirm_delete_note_spec(),
    {
        if self.selected_note_index.is_some() {
            self.notes_mode = NotesMode::ConfirmingDelete;
        }
    }

    /// Deletes the selected note after confirmation.
    #[verifier::rlimit(60)]
    pub fn delete_selected_note(&mut self)
        requires
            old(self)@.wf(),
        ensures
            final(self)@ == old(self)@.delete_selected_note_spec(),
            final(self)@.wf(),
    {
        match self.selected_note_index {
            Some(idx) => {
                if idx < self.stats.notes.len() {
                    let ghost old_notes = old(self)@.stats.notes;
                    let ghost prev = self.stats.notes@;
                    self.stats.notes.remove(idx);
                    proof {
                        prev.remove_ensures(idx as int);
                        let dv = self.stats.notes.deep_view();
                        assert forall|k: int| 0 <= k < dv.len() implies #[trigger] dv[k]
                            == old_notes.remove(idx as int)[k] by {
                            assert(self.stats.notes@[k] == prev.remove(idx as int)[k]);
                            if k < idx {
                                assert(prev.remove(idx as int)[k] == prev[k]);
                            } else {
                                assert(prev.remove(idx as int)[k] == prev[k + 1]);
                                assert(old_notes.remove(idx as int)[k] == old_notes[k + 1]);
                            }
                        }
                        assert(dv =~= old_notes.remove(idx as int));
                    }
                    self.needs_stats_save = true;
                    if self.stats.notes.len() == 0 {
                        self.selected_note_index = None;
                    } else if idx >= self.stats.notes.len() {
                        self.selected_note_index = Some(self.stats.notes.len() - 1);
                    }
                }
            },
            None => {},
        }
        self.notes_mode = NotesMode::Viewing;
        proof {
            assert(self@ =~~= old(self)@.delete_selected_note_spec());
        }
    }

    /// Declines the pending delete.
    pub fn cancel_delete(&mut self)
        ensures
            final(self)@ == old(self)@.cancel_delete_spec(),
    {
        self.notes_mode = NotesMode::Viewing;
    }

    /// Moves the selection one note towards the newest.
    pub fn select_next_note(&mut self)
        requires
            old(self)@.wf(),
        ensures
            final(self)@ == old(self)@.select_next_note_spec(),
            final(self)@.wf(),
    {
        if self.stats.notes.len() > 0 {
            let sel: usize = match self.selected_note_index {
                Some(idx) => if idx + 1 < self.stats.notes.len() {
                    idx + 1
                } else {
                    self.stats.notes.len() - 1
                },
                None => 0,
            };
            self.selected_note_index = Some(sel);
        }
    }

    /// Moves the selection one note towards the oldest.
    pub fn select_prev_note(&mut self)
        requires
            old(self)@.wf(),
        ensures
            final(self)@ == old(self)@.select_prev_note_spec(),
            final(self)@.wf(),
    {
        if self.stats.notes.len() > 0 {
            let sel: usize = match self.selected_note_index {
                Some(idx) => if idx > 0 {
                    idx - 1
                } else {
                    0
                },
                None => self.stats.notes.len() - 1,
            };
            self.selected_note_index = Some(sel);
        }
    }

    /// Scrolls the note list by `delta` rows.
    pub fn scroll_notes(&mut self, delta: i32)
        ensures
            final(self)@ == old(self)@.scroll_notes_spec(delta as int),
    {
        if self.stats.notes.len() > 10 {
            let maxoff = self.stats.notes.len() - 10;
            let moved: usize = if delta >= 0 {
                self.note_scroll_offset.saturating_add(delta as usize)
            } else {
                let magnitude = (-(delta as i64)) as u64 as usize;
                self.note_scroll_offset.saturating_sub(magnitude)
            };
            self.note_scroll_offset = if moved > maxoff {
                maxoff
            } else {
                moved
            };
            proof {
                assert(self@ =~= old(self)@.scroll_notes_spec(delta as int));
            }
        }
    }
}

} // verus!
