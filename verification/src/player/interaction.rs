//! The system console: naming and annotating the targeted system, and the
//! jump terminal's `/spawn` and `/jump` commands.
use crate::persistence::DiscoveredWorld;
use crate::text::{
    byte_len, char_width, concat_str, contains_char, is_alphanumeric, is_control, lemma_byte_len_drop_last,
    lemma_byte_len_push, pop_char, push_char, split_whitespace, starts_with, starts_with_spec,
    string_byte_len, to_lowercase, trim, trim_spec, unicode_alphanumeric, unicode_control,
    lowercase_spec, words_spec,
};
use crate::text::{int_decimal, push_decimal};
use crate::universe::{star_type_name, star_type_named, GridCell, StarType};
use vstd::prelude::*;

verus! {

/// Longest name, in bytes, that typing extends.
pub const MAX_NAME_BYTES: usize = 100;

/// Longest note, in bytes, that typing extends.
pub const MAX_NOTE_BYTES: usize = 500;

/// Which field of the console receives typed text.
#[derive(Clone, Copy, Debug, PartialEq, Eq, Structural)]
pub enum ConsoleFocus {
    Name,
    Note,
}

/// The console's state.
#[derive(Debug)]
pub struct ConsoleState {
    pub active: bool,
    pub spawn_mode: bool,
    pub target_cell: Option<GridCell>,
    pub target_entity: Option<u64>,
    pub current_name: String,
    pub current_note: String,
    pub focus: ConsoleFocus,
}

/// The other field.
pub open spec fn toggled(f: ConsoleFocus) -> ConsoleFocus {
    match f {
        ConsoleFocus::Name => ConsoleFocus::Note,
        ConsoleFocus::Note => ConsoleFocus::Name,
    }
}

/// The characters a name may hold besides letters and digits.
pub open spec fn name_symbol(c: char) -> bool {
    "-+=# /_"@.contains(c)
}

/// Whether typing `c` extends the name `name`: the name is shorter than
/// the limit and `c` is a non-control letter, digit or allowed symbol.
pub open spec fn accepts_name_char(name: Seq<char>, c: char) -> bool {
    !unicode_control(c) && byte_len(name) < MAX_NAME_BYTES && (unicode_alphanumeric(c) || name_symbol(c))
}

/// Whether typing `c` extends the note `note`: the note is shorter than
/// the limit and `c` is not a control character.
pub open spec fn accepts_note_char(note: Seq<char>, c: char) -> bool {
    !unicode_control(c) && byte_len(note) < MAX_NOTE_BYTES
}

/// The star kind that an already lowercased command line asks to jump to:
/// the line starts with `/jump` or `/spawn` and its second word names a
/// star kind.
pub open spec fn jump_command_spec(line: Seq<char>) -> Option<StarType> {
    let words = words_spec(line);
    if (starts_with_spec(line, "/jump"@) || starts_with_spec(line, "/spawn"@)) && words.len() > 1 {
        star_type_named(words[1])
    } else {
        None
    }
}

/// The star kind that a console line asks to jump to, if it is a jump: the
/// command found in the trimmed, lowercased line.
pub open spec fn jump_target(name: Seq<char>) -> Option<StarType> {
    jump_command_spec(lowercase_spec(trim_spec(name)))
}

/// Reads a lowercased command line: the star kind of a `/jump` or `/spawn`
/// command whose second word names one, or `None`.
pub fn jump_command(line: &str) -> (result: Option<StarType>)
    ensures
        result == jump_command_spec(line@),
{
    if starts_with(line, "/jump") || starts_with(line, "/spawn") {
        let parts = split_whitespace(line);
        if parts.len() > 1 {
            let word = crate::text::string_of(&parts[1]);
            return StarType::from_str(word.as_str());
        }
    }
    None
}

/// Whether a trimmed name can be saved: not empty and at most the limit.
pub open spec fn saveable_name(name: Seq<char>) -> bool {
    name.len() > 0 && byte_len(name) <= MAX_NAME_BYTES
}

/// What pressing Enter or a jump button asks of the game.
#[derive(Debug)]
pub enum ConsoleCommand {
    /// Jump to a freshly generated system with a star of this kind.
    Jump(StarType),
    /// Store this registry entry.
    Save(DiscoveredWorld),
    /// Nothing beyond closing the console.
    Close,
}

/// What kind of body the console targets.
#[derive(Clone, Copy, Debug, PartialEq, Eq, Structural)]
pub enum TargetKind {
    Star,
    Planet,
    Other,
}

impl ConsoleState {
    /// A closed console with empty fields and the focus on the name.
    pub fn new() -> (result: ConsoleState)
        ensures
            !result.active,
            !result.spawn_mode,
            result.target_cell is None,
            result.target_entity is None,
            result.current_name@ == Seq::<char>::empty(),
            result.current_note@ == Seq::<char>::empty(),
            result.focus == ConsoleFocus::Name,
    {
        ConsoleState {
            active: false,
            spawn_mode: false,
            target_cell: None,
            target_entity: None,
            current_name: String::new(),
            current_note: String::new(),
            focus: ConsoleFocus::Name,
        }
    }

    /// Whether the console is open.
    pub fn console_is_active(&self) -> (result: bool)
        ensures
            result == self.active,
    {
        self.active
    }

    /// Whether the console is closed.
    pub fn console_is_inactive(&self) -> (result: bool)
        ensures
            result == !self.active,
    {
        !self.active
    }

    /// Opens the console on a target cell (and body, if one was picked),
    /// filled with the registry's name and note for it, or empty.
    pub fn open_for_target(&mut self, cell: GridCell, entity: Option<u64>, entry: Option<DiscoveredWorld>)
        ensures
            final(self).active,
            final(self).spawn_mode == old(self).spawn_mode,
            final(self).target_cell == Some(cell),
            final(self).target_entity == entity,
            final(self).focus == ConsoleFocus::Name,
            match entry {
                Some(d) => final(self).current_name@ == d.name@ && final(self).current_note@ == d.note@,
                None => final(self).current_name@ == Seq::<char>::empty() && final(self).current_note@
                    == Seq::<char>::empty(),
            },
    {
        self.active = true;
        self.target_cell = Some(cell);
        self.target_entity = entity;
        self.focus = ConsoleFocus::Name;
        match entry {
            Some(d) => {
                self.current_name = d.name;
                self.current_note = d.note;
            },
            None => {
                self.current_name = String::new();
                self.current_note = String::new();
            },
        }
    }

    /// Opens the console as the jump terminal, with `/spawn ` typed in.
    pub fn open_spawn_menu(&mut self)
        ensures
            final(self).active,
            final(self).spawn_mode == old(self).spawn_mode,
            final(self).target_cell is None,
            final(self).target_entity is None,
            final(self).current_name@ == "/spawn "@,
            final(self).current_note@ == old(self).current_note@,
            final(self).focus == ConsoleFocus::Name,
    {
        self.active = true;
        self.target_cell = None;
        self.target_entity = None;
        self.current_name = "/spawn ".to_string();
        self.focus = ConsoleFocus::Name;
    }

    /// Escape: closes the console and forgets the targeted body; the typed
    /// text stays.
    pub fn press_escape(&mut self)
        ensures
            !final(self).active,
            final(self).target_entity is None,
            final(self).target_cell == old(self).target_cell,
            final(self).current_name@ == old(self).current_name@,
            final(self).current_note@ == old(self).current_note@,
            final(self).focus == old(self).focus,
            final(self).spawn_mode == old(self).spawn_mode,
    {
        self.active = false;
        self.target_entity = None;
    }

    /// Tab: moves the focus to the other field.
    pub fn press_tab(&mut self)
        ensures
            final(self).focus == toggled(old(self).focus),
            final(self).active == old(self).active,
            final(self).target_cell == old(self).target_cell,
            final(self).target_entity == old(self).target_entity,
            final(self).current_name@ == old(self).current_name@,
            final(self).current_note@ == old(self).current_note@,
            final(self).spawn_mode == old(self).spawn_mode,
    {
        self.focus = match self.focus {
            ConsoleFocus::Name => ConsoleFocus::Note,
            ConsoleFocus::Note => ConsoleFocus::Name,
        };
    }

    /// Backspace: removes the last character of the focused field, if any.
    pub fn press_backspace(&mut self)
        ensures
            final(self).focus == old(self).focus,
            final(self).active == old(self).active,
            final(self).target_cell == old(self).target_cell,
            final(self).target_entity == old(self).target_entity,
            final(self).spawn_mode == old(self).spawn_mode,
            old(self).focus == ConsoleFocus::Name ==> final(self).current_note@ == old(self).current_note@
                && final(self).current_name@ == (if old(self).current_name@.len() > 0 {
                old(self).current_name@.drop_last()
            } else {
                old(self).current_name@
            }),
            old(self).focus == ConsoleFocus::Note ==> final(self).current_name@ == old(self).current_name@
                && final(self).current_note@ == (if old(self).current_note@.len() > 0 {
                old(self).current_note@.drop_last()
            } else {
                old(self).current_note@
            }),
    {
        match self.focus {
            ConsoleFocus::Name => {
                pop_char(&mut self.current_name);
            },
            ConsoleFocus::Note => {
                pop_char(&mut self.current_note);
            },
        }
    }

    /// A typed character: appended to the focused field if that field
    /// accepts it (see `accepts_name_char` and `accepts_note_char`).
    pub fn type_char(&mut self, c: char)
        ensures
            final(self).focus == old(self).focus,
            final(self).active == old(self).active,
            final(self).target_cell == old(self).target_cell,
            final(self).target_entity == old(self).target_entity,
            final(self).spawn_mode == old(self).spawn_mode,
            old(self).focus == ConsoleFocus::Name ==> final(self).current_note@ == old(self).current_note@
                && final(self).current_name@ == (if accepts_name_char(old(self).current_name@, c) {
                old(self).current_name@.push(c)
            } else {
                old(self).current_name@
            }),
            old(self).focus == ConsoleFocus::Note ==> final(self).current_name@ == old(self).current_name@
                && final(self).current_note@ == (if accepts_note_char(old(self).current_note@, c) {
                old(self).current_note@.push(c)
            } else {
                old(self).current_note@
            }),
    {
        if !is_control(c) {
            match self.focus {
                ConsoleFocus::Name => {
                    if string_byte_len(&self.current_name) < MAX_NAME_BYTES && (is_alphanumeric(c)
                        || contains_char("-+=# /_", c)) {
                        push_char(&mut self.current_name, c);
                    }
                },
                ConsoleFocus::Note => {
                    if string_byte_len(&self.current_note) < MAX_NOTE_BYTES {
                        push_char(&mut self.current_note, c);
                    }
                },
            }
        }
    }

    /// The space key: a space is appended to the focused field if it is
    /// shorter than its limit.
    pub fn type_space(&mut self)
        ensures
            final(self).focus == old(self).focus,
            final(self).active == old(self).active,
            final(self).target_cell == old(self).target_cell,
            final(self).target_entity == old(self).target_entity,
            final(self).spawn_mode == old(self).spawn_mode,
            old(self).focus == ConsoleFocus::Name ==> final(self).current_note@ == old(self).current_note@
                && final(self).current_name@ == (if byte_len(old(self).current_name@) < MAX_NAME_BYTES {
                old(self).current_name@.push(' ')
            } else {
                old(self).current_name@
            }),
            old(self).focus == ConsoleFocus::Note ==> final(self).current_name@ == old(self).current_name@
                && final(self).current_note@ == (if byte_len(old(self).current_note@) < MAX_NOTE_BYTES {
                old(self).current_note@.push(' ')
            } else {
                old(self).current_note@
            }),
    {
        match self.focus {
            ConsoleFocus::Name => {
                if string_byte_len(&self.current_name) < MAX_NAME_BYTES {
                    push_char(&mut self.current_name, ' ');
                }
            },
            ConsoleFocus::Note => {
                if string_byte_len(&self.current_note) < MAX_NOTE_BYTES {
                    push_char(&mut self.current_note, ' ');
                }
            },
        }
    }

    /// A jump button was pressed: the console closes with both fields
    /// cleared and the jump is requested.
    pub fn press_jump_button(&mut self, star_type: StarType) -> (result: ConsoleCommand)
        ensures
            result == ConsoleCommand::Jump(star_type),
            !final(self).active,
            final(self).current_name@ == Seq::<char>::empty(),
            final(self).current_note@ == Seq::<char>::empty(),
            final(self).target_cell == old(self).target_cell,
            final(self).target_entity == old(self).target_entity,
            final(self).focus == old(self).focus,
            final(self).spawn_mode == old(self).spawn_mode,
    {
        self.active = false;
        self.current_name = String::new();
        self.current_note = String::new();
        ConsoleCommand::Jump(star_type)
    }

    /// Enter: runs a `/jump` or `/spawn` command if the name field holds
    /// one naming a star kind (closing the console with both fields
    /// cleared); otherwise, with a target cell and a saveable trimmed name,
    /// asks to store the entry (trimmed name and note, finder
    /// `player_name`); in every case the console closes with both fields
    /// cleared and, unless a jump ran, the targeted body forgotten.
    pub fn press_enter(&mut self, player_name: &str) -> (result: ConsoleCommand)
        ensures
            !final(self).active,
            final(self).current_name@ == Seq::<char>::empty(),
            final(self).current_note@ == Seq::<char>::empty(),
            final(self).target_cell == old(self).target_cell,
            final(self).focus == old(self).focus,
            final(self).spawn_mode == old(self).spawn_mode,
            match jump_target(old(self).current_name@) {
                Some(t) => result == ConsoleCommand::Jump(t) && final(self).target_entity == old(
                    self,
                ).target_entity,
                None => final(self).target_entity is None && match old(self).target_cell {
                    Some(cell) => if saveable_name(trim_spec(old(self).current_name@)) {
                        result matches ConsoleCommand::Save(d) && d.cell_x == cell.x && d.cell_y == cell.y
                            && d.cell_z == cell.z && d.name@ == trim_spec(old(self).current_name@)
                            && d.finder@ == player_name@ && d.note@ == trim_spec(old(self).current_note@)
                            && d.date@ == "2026"@ && d.object_type@ == "Star System"@
                    } else {
                        result == ConsoleCommand::Close
                    },
                    None => result == ConsoleCommand::Close,
                },
            },
    {
        let trimmed = trim(self.current_name.as_str());
        let line = to_lowercase(trimmed.as_str());
        if let Some(star_type) = jump_command(line.as_str()) {
            self.current_name = String::new();
            self.current_note = String::new();
            self.active = false;
            return ConsoleCommand::Jump(star_type);
        }
        let mut command = ConsoleCommand::Close;
        if let Some(cell) = self.target_cell {
            let name = trimmed;
            let note = trim(self.current_note.as_str());
            if !name.as_str().is_empty() && string_byte_len(&name) <= MAX_NAME_BYTES {
                command =
                    ConsoleCommand::Save(
                        DiscoveredWorld {
                            cell_x: cell.x,
                            cell_y: cell.y,
                            cell_z: cell.z,
                            name,
                            finder: player_name.to_string(),
                            note,
                            date: "2026".to_string(),
                            object_type: "Star System".to_string(),
                        },
                    );
            }
        }
        self.current_name = String::new();
        self.current_note = String::new();
        self.active = false;
        self.target_entity = None;
        command
    }
}

/// The cursor shown after a field that has the focus.
pub open spec fn cursor(focused: bool) -> Seq<char> {
    if focused {
        "_"@
    } else {
        Seq::<char>::empty()
    }
}

/// Whether a name is a default system label (`S x,y,z`).
pub open spec fn is_default_label(name: Seq<char>) -> bool {
    starts_with_spec(name, "S "@) && name.contains(',')
}

/// The text of the name field and whether the system counts as named: an
/// empty name, or a default label while the note has the focus, shows
/// the placeholder.
pub open spec fn name_display_spec(name: Seq<char>, focus: ConsoleFocus) -> (Seq<char>, bool) {
    let c = cursor(focus == ConsoleFocus::Name);
    if name.len() == 0 {
        ("[can be named]"@ + c, false)
    } else if is_default_label(name) && focus != ConsoleFocus::Name {
        ("[can be named]"@ + c, false)
    } else {
        (name + c, true)
    }
}

/// The text of the note field: a placeholder for an empty note without
/// the focus.
pub open spec fn note_display_spec(note: Seq<char>, focus: ConsoleFocus) -> Seq<char> {
    if note.len() == 0 && focus != ConsoleFocus::Note {
        "[No Note]"@
    } else {
        note + cursor(focus == ConsoleFocus::Note)
    }
}

/// The target line for a console that targets a body of the given kind.
pub open spec fn target_label_spec(has_entity: bool, kind: TargetKind) -> Seq<char> {
    if !has_entity {
        "Target: System (General)"@
    } else {
        match kind {
            TargetKind::Star => "Target: Star"@,
            TargetKind::Planet => "Target: Planet"@,
            TargetKind::Other => "Target: Unidentified Body"@,
        }
    }
}

/// The coordinates line for a targeted cell: `Coordinates: [x, y, z]`.
pub open spec fn coordinates_text_spec(cell: GridCell) -> Seq<char> {
    "Coordinates: ["@ + int_decimal(cell.x as int) + ", "@ + int_decimal(cell.y as int) + ", "@ + int_decimal(
        cell.z as int,
    ) + "]"@
}

fn cursor_str(focused: bool) -> (result: &'static str)
    ensures
        result@ == cursor(focused),
{
    if focused {
        "_"
    } else {
        proof {
            reveal_strlit("");
        }
        ""
    }
}

impl ConsoleState {
    /// The name field's text and whether the system counts as named.
    pub fn name_display(&self) -> (result: (String, bool))
        ensures
            result.0@ == name_display_spec(self.current_name@, self.focus).0,
            result.1 == name_display_spec(self.current_name@, self.focus).1,
    {
        let c = cursor_str(self.focus == ConsoleFocus::Name);
        let is_default = starts_with(self.current_name.as_str(), "S ") && contains_char(
            self.current_name.as_str(),
            ',',
        );
        if self.current_name.as_str().is_empty() {
            (concat_str("[can be named]", c), false)
        } else if is_default && self.focus != ConsoleFocus::Name {
            (concat_str("[can be named]", c), false)
        } else {
            (concat_str(self.current_name.as_str(), c), true)
        }
    }

    /// The note field's text.
    pub fn note_display(&self) -> (result: String)
        ensures
            result@ == note_display_spec(self.current_note@, self.focus),
    {
        if self.current_note.as_str().is_empty() && self.focus != ConsoleFocus::Note {
            "[No Note]".to_string()
        } else {
            concat_str(self.current_note.as_str(), cursor_str(self.focus == ConsoleFocus::Note))
        }
    }

    /// The target line, given the kind of the targeted body.
    pub fn target_label(&self, kind: TargetKind) -> (result: String)
        ensures
            result@ == target_label_spec(self.target_entity is Some, kind),
    {
        let s: &str = if self.target_entity.is_none() {
            "Target: System (General)"
        } else {
            match kind {
                TargetKind::Star => "Target: Star",
                TargetKind::Planet => "Target: Planet",
                TargetKind::Other => "Target: Unidentified Body",
            }
        };
        s.to_string()
    }

    /// The coordinates line, when a cell is targeted.
    pub fn coordinates_text(&self) -> (result: Option<String>)
        ensures
            match self.target_cell {
                Some(cell) => result matches Some(t) && t@ == coordinates_text_spec(cell),
                None => result is None,
            },
    {
        match self.target_cell {
            Some(cell) => {
                let mut v: Vec<char> = crate::text::chars_of("Coordinates: [");
                push_decimal(&mut v, cell.x);
                v.push(',');
                v.push(' ');
                push_decimal(&mut v, cell.y);
                v.push(',');
                v.push(' ');
                push_decimal(&mut v, cell.z);
                v.push(']');
                proof {
                    reveal_strlit(", ");
                    reveal_strlit("]");
                }
                assert(v@ =~= coordinates_text_spec(cell));
                Some(crate::text::string_of(&v))
            },
            None => None,
        }
    }
}

/// The "named by" line: the player's name once the system counts as named.
pub fn named_by_text(is_named: bool, player_name: &str) -> (result: String)
    ensures
        result@ == (if is_named { "Named by: "@ + player_name@ } else { Seq::<char>::empty() }),
{
    if is_named {
        concat_str("Named by: ", player_name)
    } else {
        String::new()
    }
}

/// The toast shown when a jump starts: `JUMPING TO <kind>`.
pub fn jump_toast(star_type: StarType) -> (result: String)
    ensures
        result@ == "JUMPING TO "@ + star_type_name(star_type),
{
    concat_str("JUMPING TO ", star_type.name())
}

/// The toast shown when a registry entry was saved.
pub fn saved_toast(name: &str) -> (result: String)
    ensures
        result@ == "SYSTEM DATA SAVED: "@ + name@,
{
    concat_str("SYSTEM DATA SAVED: ", name)
}

/// Backspace undoes an accepted keystroke: removing the last character of
/// a name that accepted `c` gives the name back.
pub proof fn lemma_backspace_undoes_typing(name: Seq<char>, c: char)
    requires
        accepts_name_char(name, c),
    ensures
        name.push(c).drop_last() == name,
        byte_len(name.push(c)) == byte_len(name) + char_width(c),
{
    assert(name.push(c).drop_last() =~= name);
    lemma_byte_len_push(name, c);
}

/// Typing never extends a name already at the limit, and an accepted
/// character leaves the name at most three bytes past it.
pub proof fn lemma_name_stays_bounded(name: Seq<char>, c: char)
    ensures
        byte_len(name) >= MAX_NAME_BYTES ==> !accepts_name_char(name, c),
        accepts_name_char(name, c) ==> byte_len(name.push(c)) < MAX_NAME_BYTES + 4,
{
    lemma_byte_len_push(name, c);
}

/// Pressing Tab twice gives the focus back.
pub proof fn lemma_tab_twice(f: ConsoleFocus)
    ensures
        toggled(toggled(f)) == f,
{
}

} // verus!
