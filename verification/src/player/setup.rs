//! The welcome prompt in which a new player types a name.
use crate::text::{
    byte_len, concat_str, is_control, pop_char, push_char, string_byte_len, trim, trim_spec, unicode_control,
};
use vstd::prelude::*;

verus! {

/// Longest player name, in bytes, that typing extends.
pub const MAX_PLAYER_NAME_BYTES: usize = 24;

/// The name typed so far.
#[derive(Debug)]
pub struct SetupState {
    pub input_name: String,
}

/// Whether typing `c` extends the typed name.
pub open spec fn accepts_player_char(name: Seq<char>, c: char) -> bool {
    !unicode_control(c) && byte_len(name) < MAX_PLAYER_NAME_BYTES
}

impl SetupState {
    /// Nothing typed yet.
    pub fn new() -> (result: SetupState)
        ensures
            result.input_name@ == Seq::<char>::empty(),
    {
        SetupState { input_name: String::new() }
    }

    /// A typed character: appended unless it is a control character or the
    /// name already reached the limit.
    pub fn type_char(&mut self, c: char)
        ensures
            final(self).input_name@ == (if accepts_player_char(old(self).input_name@, c) {
                old(self).input_name@.push(c)
            } else {
                old(self).input_name@
            }),
    {
        if !is_control(c) && string_byte_len(&self.input_name) < MAX_PLAYER_NAME_BYTES {
            push_char(&mut self.input_name, c);
        }
    }

    /// The space key: a space is appended unless the name reached the limit.
    pub fn type_space(&mut self)
        ensures
            final(self).input_name@ == (if byte_len(old(self).input_name@) < MAX_PLAYER_NAME_BYTES {
                old(self).input_name@.push(' ')
            } else {
                old(self).input_name@
            }),
    {
        if string_byte_len(&self.input_name) < MAX_PLAYER_NAME_BYTES {
            push_char(&mut self.input_name, ' ');
        }
    }

    /// Backspace: removes the last character, if any.
    pub fn press_backspace(&mut self)
        ensures
            final(self).input_name@ == (if old(self).input_name@.len() > 0 {
                old(self).input_name@.drop_last()
            } else {
                old(self).input_name@
            }),
    {
        pop_char(&mut self.input_name);
    }

    /// Enter: the name to confirm, trimmed, unless it is blank.
    pub fn confirmed_name(&self) -> (result: Option<String>)
        ensures
            trim_spec(self.input_name@).len() == 0 ==> result is None,
            trim_spec(self.input_name@).len() > 0 ==> (result matches Some(n) && n@ == trim_spec(
                self.input_name@,
            )),
    {
        let t = trim(self.input_name.as_str());
        if t.as_str().is_empty() {
            None
        } else {
            Some(t)
        }
    }

    /// The prompt's text: the typed name followed by a cursor.
    pub fn prompt_text(&self) -> (result: String)
        ensures
            result@ == self.input_name@ + "_"@,
    {
        concat_str(self.input_name.as_str(), "_")
    }
}

} // verus!
