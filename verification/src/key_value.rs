//! The editable, ordered key-value table used for headers, query parameters
//! and authorization entries: rows of (key, value, enabled) with a two-axis
//! cursor (row index, Key|Value field).
//!
//! The row cursor ranges over `[0, entries.len()]` inclusive: the position
//! equal to the entry count is the virtual "new row" slot. An empty row is
//! never created by navigation alone; only the first keystroke typed into
//! the virtual slot materializes it.

use vstd::prelude::*;

use crate::text::pop_char;
use crate::text::push_char;

verus! {

/// One row of a key-value table.
#[derive(Debug, PartialEq)]
pub struct KeyValueEntry {
    pub key: String,
    pub value: String,
    pub enabled: bool,
}

/// Which of the two fields of a row the cursor is on.
#[derive(Debug, Clone, Copy, PartialEq, Eq, Structural)]
pub enum KeyValueField {
    Key,
    Value,
}

/// An ordered list of rows plus the two-axis cursor.
#[derive(Debug, PartialEq)]
pub struct KeyValueEntries {
    pub entries: Vec<KeyValueEntry>,
    pub focused_index: usize,
    pub focused_field: KeyValueField,
}

/// Mathematical model of one row.
pub ghost struct KvEntryModel {
    pub key: Seq<char>,
    pub value: Seq<char>,
    pub enabled: bool,
}

/// Mathematical model of a whole table.
pub ghost struct KvTableModel {
    pub entries: Seq<KvEntryModel>,
    pub focused_index: int,
    pub focused_field: KeyValueField,
}

impl View for KeyValueEntry {
    type V = KvEntryModel;

    open spec fn view(&self) -> KvEntryModel {
        KvEntryModel { key: self.key@, value: self.value@, enabled: self.enabled }
    }
}

impl View for KeyValueEntries {
    type V = KvTableModel;

    open spec fn view(&self) -> KvTableModel {
        KvTableModel {
            entries: self.entries@.map_values(|e: KeyValueEntry| e@),
            focused_index: self.focused_index as int,
            focused_field: self.focused_field,
        }
    }
}

/// A freshly materialized row: empty key, empty value, enabled.
pub open spec fn empty_entry_model() -> KvEntryModel {
    KvEntryModel { key: Seq::empty(), value: Seq::empty(), enabled: true }
}

/// `e` with `c` appended to the field `field`.
pub open spec fn append_char_model(e: KvEntryModel, field: KeyValueField, c: char) -> KvEntryModel {
    match field {
        KeyValueField::Key => KvEntryModel { key: e.key.push(c), ..e },
        KeyValueField::Value => KvEntryModel { value: e.value.push(c), ..e },
    }
}

/// `e` with the last character of the field `field` removed; unchanged if
/// that field is already empty.
pub open spec fn drop_char_model(e: KvEntryModel, field: KeyValueField) -> KvEntryModel {
    match field {
        KeyValueField::Key => if e.key.len() > 0 {
            KvEntryModel { key: e.key.drop_last(), ..e }
        } else {
            e
        },
        KeyValueField::Value => if e.value.len() > 0 {
            KvEntryModel { value: e.value.drop_last(), ..e }
        } else {
            e
        },
    }
}

impl KvTableModel {
    /// The table invariant: the row cursor stays within `[0, entries.len()]`,
    /// where the upper bound is the virtual new-row slot.
    pub open spec fn wf(self) -> bool {
        0 <= self.focused_index <= self.entries.len()
    }

    /// The table as a fresh, empty editor presents it.
    pub open spec fn empty() -> Self {
        KvTableModel {
            entries: Seq::empty(),
            focused_index: 0,
            focused_field: KeyValueField::Key,
        }
    }

    /// Row cursor moved one row up; no-op on the first row.
    pub open spec fn cursor_up(self) -> Self {
        if self.focused_index > 0 {
            KvTableModel { focused_index: self.focused_index - 1, ..self }
        } else {
            self
        }
    }

    /// Row cursor moved one row down, clamped so that it never passes the
    /// virtual new-row slot; moving down from that slot is a no-op.
    pub open spec fn cursor_down(self) -> Self {
        if self.focused_index < self.entries.len() {
            KvTableModel { focused_index: self.focused_index + 1, ..self }
        } else {
            self
        }
    }

    /// The field cursor toggled between Key and Value.
    pub open spec fn switched_field(self) -> Self {
        KvTableModel {
            focused_field: match self.focused_field {
                KeyValueField::Key => KeyValueField::Value,
                KeyValueField::Value => KeyValueField::Key,
            },
            ..self
        }
    }

    /// `c` typed into the focused field: appends to the focused row, first
    /// materializing an empty row if the cursor is on the virtual slot.
    pub open spec fn with_typed_char(self, c: char) -> Self {
        let grown = if self.focused_index == self.entries.len() {
            KvTableModel { entries: self.entries.push(empty_entry_model()), ..self }
        } else {
            self
        };
        KvTableModel {
            entries: grown.entries.update(
                grown.focused_index,
                append_char_model(grown.entries[grown.focused_index], grown.focused_field, c),
            ),
            ..grown
        }
    }

    /// Backspace in the focused field: drops its last character; a no-op on
    /// the virtual slot or an empty field. Never deletes the row itself.
    pub open spec fn with_backspace(self) -> Self {
        if self.focused_index < self.entries.len() {
            KvTableModel {
                entries: self.entries.update(
                    self.focused_index,
                    drop_char_model(self.entries[self.focused_index], self.focused_field),
                ),
                ..self
            }
        } else {
            self
        }
    }

    /// Row confirmed: materializes an empty row if on the virtual slot, then
    /// advances the row cursor (clamped to the new bound) and resets the
    /// field cursor to Key.
    pub open spec fn committed_row(self) -> Self {
        let grown = if self.focused_index >= self.entries.len() {
            KvTableModel { entries: self.entries.push(empty_entry_model()), ..self }
        } else {
            self
        };
        let advanced = if grown.focused_index + 1 > grown.entries.len() {
            grown.entries.len() as int
        } else {
            grown.focused_index + 1
        };
        KvTableModel {
            entries: grown.entries,
            focused_index: advanced,
            focused_field: KeyValueField::Key,
        }
    }

    /// The focused real row removed; if the cursor then points past the last
    /// remaining row and is positive, it moves back by one. A no-op on the
    /// virtual slot.
    pub open spec fn with_deleted_row(self) -> Self {
        if self.focused_index < self.entries.len() {
            let shrunk = self.entries.remove(self.focused_index);
            let fixed = if self.focused_index >= shrunk.len() && self.focused_index > 0 {
                self.focused_index - 1
            } else {
                self.focused_index
            };
            KvTableModel { entries: shrunk, focused_index: fixed, ..self }
        } else {
            self
        }
    }

    /// The `enabled` flag of row `index` flipped; a no-op out of range.
    pub open spec fn with_toggled(self, index: int) -> Self {
        if 0 <= index < self.entries.len() {
            KvTableModel {
                entries: self.entries.update(
                    index,
                    KvEntryModel { enabled: !self.entries[index].enabled, ..self.entries[index] },
                ),
                ..self
            }
        } else {
            self
        }
    }
}

/// The (key, value) pairs of the enabled rows of `s`, in order.
pub open spec fn enabled_pairs(s: Seq<KvEntryModel>) -> Seq<(Seq<char>, Seq<char>)>
    decreases s.len(),
{
    if s.len() == 0 {
        Seq::empty()
    } else {
        let rest = enabled_pairs(s.drop_first());
        if s[0].enabled {
            seq![(s[0].key, s[0].value)] + rest
        } else {
            rest
        }
    }
}

pub proof fn lemma_enabled_pairs_push(s: Seq<KvEntryModel>, e: KvEntryModel)
    ensures
        enabled_pairs(s.push(e)) == enabled_pairs(s) + (if e.enabled {
            seq![(e.key, e.value)]
        } else {
            Seq::<(Seq<char>, Seq<char>)>::empty()
        }),
    decreases s.len(),
{
    let tail: Seq<(Seq<char>, Seq<char>)> = if e.enabled {
        seq![(e.key, e.value)]
    } else {
        Seq::empty()
    };
    if s.len() == 0 {
        assert(s.push(e)[0] == e);
        assert(s.push(e).drop_first() =~= Seq::<KvEntryModel>::empty());
        assert(enabled_pairs(Seq::<KvEntryModel>::empty())
            == Seq::<(Seq<char>, Seq<char>)>::empty());
        assert(s =~= Seq::<KvEntryModel>::empty());
        assert(enabled_pairs(s.push(e)) =~= enabled_pairs(s) + tail);
    } else {
        assert(s.push(e)[0] == s[0]);
        assert(s.push(e).drop_first() =~= s.drop_first().push(e));
        lemma_enabled_pairs_push(s.drop_first(), e);
        assert(enabled_pairs(s.push(e)) == if s[0].enabled {
            seq![(s[0].key, s[0].value)] + enabled_pairs(s.drop_first().push(e))
        } else {
            enabled_pairs(s.drop_first().push(e))
        });
        assert(enabled_pairs(s.push(e)) =~= enabled_pairs(s) + tail);
    }
}

impl Clone for KeyValueEntry {
    /// Cloning a row preserves it exactly.
    fn clone(&self) -> (r: Self)
        ensures
            r == *self,
    {
        KeyValueEntry { key: self.key.clone(), value: self.value.clone(), enabled: self.enabled }
    }
}

impl Clone for KeyValueEntries {
    /// Cloning a table preserves its whole model.
    fn clone(&self) -> (r: Self)
        ensures
            r@ == self@,
    {
        let mut es: Vec<KeyValueEntry> = Vec::new();
        let mut i: usize = 0;
        while i < self.entries.len()
            invariant
                0 <= i <= self.entries.len(),
                es@ =~= self.entries@.take(i as int),
            decreases self.entries.len() - i,
        {
            es.push(self.entries[i].clone());
            i += 1;
        }
        assert(es@ =~= self.entries@);
        let r = KeyValueEntries {
            entries: es,
            focused_index: self.focused_index,
            focused_field: self.focused_field,
        };
        assert(r@.entries =~= self@.entries);
        r
    }
}

impl KeyValueEntry {
    /// `c` appended to the field `field` of this row.
    fn append_char(&mut self, field: KeyValueField, c: char)
        ensures
            final(self)@ == append_char_model(old(self)@, field, c),
    {
        match field {
            KeyValueField::Key => push_char(&mut self.key, c),
            KeyValueField::Value => push_char(&mut self.value, c),
        }
    }

    /// The last character of the field `field` removed, if there is one.
    fn drop_char(&mut self, field: KeyValueField)
        ensures
            final(self)@ == drop_char_model(old(self)@, field),
    {
        match field {
            KeyValueField::Key => {
                let _ = pop_char(&mut self.key);
            },
            KeyValueField::Value => {
                let _ = pop_char(&mut self.value);
            },
        }
    }
}

impl KeyValueEntries {
    /// Runtime check of the table invariant.
    pub fn check_wf(&self) -> (r: bool)
        ensures
            r == self@.wf(),
    {
        self.focused_index <= self.entries.len()
    }

    /// A fresh, empty table with the cursor on the virtual slot of row 0.
    pub fn new() -> (r: Self)
        ensures
            r@ == KvTableModel::empty(),
            r@.wf(),
    {
        let r = KeyValueEntries {
            entries: Vec::new(),
            focused_index: 0,
            focused_field: KeyValueField::Key,
        };
        assert(r@.entries =~= KvTableModel::empty().entries);
        r
    }

    /// Appends an enabled row with the given key and value; the cursor does
    /// not move.
    pub fn add_entry(&mut self, key: String, value: String)
        ensures
            final(self)@.entries == old(self)@.entries.push(
                KvEntryModel { key: key@, value: value@, enabled: true },
            ),
            final(self)@.focused_index == old(self)@.focused_index,
            final(self)@.focused_field == old(self)@.focused_field,
    {
        let ghost k: Seq<char> = key@;
        let ghost v: Seq<char> = value@;
        self.entries.push(KeyValueEntry { key, value, enabled: true });
        assert(self@.entries =~= old(self)@.entries.push(
            KvEntryModel { key: k, value: v, enabled: true },
        ));
    }

    /// Removes the row at `index` if it exists; out-of-range indices are a
    /// no-op. The cursor does not move.
    pub fn remove_entry(&mut self, index: usize)
        ensures
            index < old(self)@.entries.len() ==> final(self)@.entries == old(
                self,
            )@.entries.remove(index as int),
            index >= old(self)@.entries.len() ==> final(self)@.entries == old(self)@.entries,
            final(self)@.focused_index == old(self)@.focused_index,
            final(self)@.focused_field == old(self)@.focused_field,
    {
        if index < self.entries.len() {
            self.entries.remove(index);
            assert(self@.entries =~= old(self)@.entries.remove(index as int));
        }
    }

    /// The row at `index`, for editing, or `None` for the virtual slot and
    /// anything else out of range.
    pub fn get_selected_mut(&mut self, index: usize) -> (r: Option<&mut KeyValueEntry>)
        ensures
            index >= old(self)@.entries.len() ==> r is None && *final(self) == *old(self),
            index < old(self)@.entries.len() ==> (r matches Some(e)
                && *e == old(self).entries@[index as int]
                && final(self).entries@ == old(self).entries@.update(index as int, *final(e))
                && final(self).focused_index == old(self).focused_index
                && final(self).focused_field == old(self).focused_field),
    {
        if index < self.entries.len() {
            Some(&mut self.entries[index])
        } else {
            None
        }
    }

    /// Flips the `enabled` flag of the row at `index`; a no-op out of range.
    pub fn toggle_enabled(&mut self, index: usize)
        ensures
            final(self)@ == old(self)@.with_toggled(index as int),
    {
        if index < self.entries.len() {
            let e = &mut self.entries[index];
            e.enabled = !e.enabled;
            assert(self@.entries =~= old(self)@.with_toggled(index as int).entries);
        }
    }

    /// The (key, value) pairs of the enabled rows, in order; disabled rows
    /// are excluded from submission.
    pub fn to_pairs(&self) -> (r: Vec<(String, String)>)
        ensures
            r@.map_values(|p: (String, String)| (p.0@, p.1@)) == enabled_pairs(self@.entries),
    {
        let mut r: Vec<(String, String)> = Vec::new();
        let mut i: usize = 0;
        while i < self.entries.len()
            invariant
                0 <= i <= self.entries.len(),
                r@.map_values(|p: (String, String)| (p.0@, p.1@)) =~= enabled_pairs(
                    self@.entries.take(i as int),
                ),
            decreases self.entries.len() - i,
        {
            let ghost prefix = self@.entries.take(i as int);
            let entry = &self.entries[i];
            if entry.enabled {
                r.push((entry.key.clone(), entry.value.clone()));
            }
            proof {
                lemma_enabled_pairs_push(prefix, self@.entries[i as int]);
                assert(self@.entries.take(i + 1) =~= prefix.push(self@.entries[i as int]));
                assert(r@.map_values(|p: (String, String)| (p.0@, p.1@)) =~= enabled_pairs(
                    self@.entries.take(i + 1),
                ));
            }
            i += 1;
        }
        proof {
            assert(self@.entries.take(self.entries@.len() as int) =~= self@.entries);
        }
        r
    }

    /// Moves the row cursor one row up; a no-op on row 0.
    pub fn move_cursor_up(&mut self)
        requires
            old(self)@.wf(),
        ensures
            final(self)@ == old(self)@.cursor_up(),
            final(self)@.wf(),
    {
        if self.focused_index > 0 {
            self.focused_index -= 1;
        }
    }

    /// Moves the row cursor one row down, never past the virtual new-row
    /// slot.
    pub fn move_cursor_down(&mut self)
        requires
            old(self)@.wf(),
        ensures
            final(self)@ == old(self)@.cursor_down(),
            final(self)@.wf(),
    {
        if self.focused_index < self.entries.len() {
            self.focused_index += 1;
        }
    }

    /// Toggles the field cursor between Key and Value.
    pub fn switch_field(&mut self)
        requires
            old(self)@.wf(),
        ensures
            final(self)@ == old(self)@.switched_field(),
            final(self)@.wf(),
    {
        self.focused_field = match self.focused_field {
            KeyValueField::Key => KeyValueField::Value,
            KeyValueField::Value => KeyValueField::Key,
        };
    }

    /// Types `c` into the focused field, materializing the virtual row on
    /// its first keystroke.
    pub fn type_char(&mut self, c: char)
        requires
            old(self)@.wf(),
        ensures
            final(self)@ == old(self)@.with_typed_char(c),
            final(self)@.wf(),
    {
        if self.focused_index == self.entries.len() {
            self.entries.push(
                KeyValueEntry { key: String::new(), value: String::new(), enabled: true },
            );
            assert(self@.entries =~= old(self)@.entries.push(empty_entry_model()));
        }
        let field = self.focused_field;
        let i = self.focused_index;
        let e = &mut self.entries[i];
        e.append_char(field, c);
        assert(self@.entries =~= old(self)@.with_typed_char(c).entries);
    }

    /// Backspace in the focused field; no-op on the virtual slot or an empty
    /// field.
    pub fn backspace(&mut self)
        requires
            old(self)@.wf(),
        ensures
            final(self)@ == old(self)@.with_backspace(),
            final(self)@.wf(),
    {
        if self.focused_index < self.entries.len() {
            let field = self.focused_field;
            let i = self.focused_index;
            let e = &mut self.entries[i];
            e.drop_char(field);
            assert(self@.entries =~= old(self)@.with_backspace().entries);
        }
    }

    /// Confirms the focused row and advances: materializes the virtual row
    /// if needed, moves the cursor down (clamped), and resets the field
    /// cursor to Key.
    pub fn commit_row_and_advance(&mut self)
        requires
            old(self)@.wf(),
        ensures
            final(self)@ == old(self)@.committed_row(),
            final(self)@.wf(),
    {
        if self.focused_index >= self.entries.len() {
            self.entries.push(
                KeyValueEntry { key: String::new(), value: String::new(), enabled: true },
            );
            assert(self@.entries =~= old(self)@.entries.push(empty_entry_model()));
        }
        let n = self.entries.len();
        assert(self.focused_index < n);
        self.focused_index += 1;
        if self.focused_index > n {
            self.focused_index = n;
        }
        self.focused_field = KeyValueField::Key;
    }

    /// Deletes the focused real row and keeps the cursor on an existing row
    /// where possible; no-op on the virtual slot.
    pub fn delete_row(&mut self)
        requires
            old(self)@.wf(),
        ensures
            final(self)@ == old(self)@.with_deleted_row(),
            final(self)@.wf(),
    {
        if self.focused_index < self.entries.len() {
            let i = self.focused_index;
            self.entries.remove(i);
            assert(self@.entries =~= old(self)@.entries.remove(i as int));
            if self.focused_index >= self.entries.len() && self.focused_index > 0 {
                self.focused_index -= 1;
            }
        }
    }
}

/// Presentation-side description of one table: which table to draw, and
/// whether it is focused and being edited. Drawing itself happens outside
/// the crate; this type only fixes what the renderer is told.
pub struct KeyValueWidget<'a> {
    pub entries: &'a KeyValueEntries,
    pub is_focused: bool,
    pub is_editing: bool,
}

impl<'a> KeyValueWidget<'a> {
    /// A widget over `entries`, neither focused nor editing.
    pub fn new(entries: &'a KeyValueEntries) -> (r: Self)
        ensures
            r.entries == entries,
            !r.is_focused,
            !r.is_editing,
    {
        KeyValueWidget { entries, is_focused: false, is_editing: false }
    }

    /// The widget with its focused flag set to `is_focused`.
    pub fn focused(self, is_focused: bool) -> (r: Self)
        ensures
            r.entries == self.entries,
            r.is_focused == is_focused,
            r.is_editing == self.is_editing,
    {
        KeyValueWidget { is_focused, ..self }
    }

    /// The widget with its editing flag set to `is_editing`.
    pub fn editing(self, is_editing: bool) -> (r: Self)
        ensures
            r.entries == self.entries,
            r.is_focused == self.is_focused,
            r.is_editing == is_editing,
    {
        KeyValueWidget { is_editing, ..self }
    }
}

} // verus!
