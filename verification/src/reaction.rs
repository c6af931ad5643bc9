//! Text reactions: a line that mentions a user, sent with a button by which
//! others say the same about the same message.

use crate::text::{
    decimal, decimal_string, matches_at, occurs_at, parse_u64, parsed_u64, replace_all, replaced,
};
use vstd::prelude::*;
use vstd::string::*;

verus! {

/// How a button looks.
#[derive(Debug, Clone, Copy, PartialEq, Eq, Structural)]
pub enum ButtonStyle {
    Primary,
    Secondary,
    Success,
    Danger,
}

/// A button as it is sent with a message.
#[derive(Debug, Clone)]
pub struct Button {
    pub custom_id: String,
    pub label: String,
    pub style: ButtonStyle,
}

/// `text` begins with `prefix`.
pub open spec fn begins_with(text: Seq<char>, prefix: Seq<char>) -> bool {
    occurs_at(text, prefix, 0)
}

/// The message that a pressed button refers to: the number that follows
/// `prefix` in the button's identifier, where the identifier begins with
/// `prefix`, something follows, and it writes a number other than zero.
pub open spec fn referred_message(custom_id: Seq<char>, prefix: Seq<char>) -> Option<u64> {
    if begins_with(custom_id, prefix) && custom_id.len() > prefix.len() {
        match parsed_u64(custom_id.subrange(prefix.len() as int, custom_id.len() as int)) {
            Some(id) => if id != 0 {
                Some(id)
            } else {
                None
            },
            None => None,
        }
    } else {
        None
    }
}

/// The identifier of a button: `custom_id`, followed by the message it
/// refers to where there is one.
pub open spec fn button_id(custom_id: Seq<char>, ref_msg_id: Option<u64>) -> Seq<char> {
    match ref_msg_id {
        Some(id) => custom_id + decimal(id as nat),
        None => custom_id,
    }
}

/// A line with the user's identifier in the place of every `USER`.
pub open spec fn mention(line: Seq<char>, user_id: u64) -> Seq<char> {
    replaced(line, "USER"@, decimal(user_id as nat))
}

/// Tells whether `text` begins with `prefix`.
pub fn starts_with(text: &str, prefix: &str) -> (res: bool)
    ensures
        res == begins_with(text@, prefix@),
{
    if prefix.unicode_len() > text.unicode_len() {
        false
    } else {
        matches_at(text, prefix, 0)
    }
}

/// Finds the message that a pressed button refers to.
pub fn referenced_message(custom_id: &str, prefix: &str) -> (res: Option<u64>)
    ensures
        res == referred_message(custom_id@, prefix@),
{
    if !starts_with(custom_id, prefix) {
        return None;
    }
    let n: usize = custom_id.unicode_len();
    let p: usize = prefix.unicode_len();
    if n == p {
        return None;
    }
    match parse_u64(custom_id.substring_char(p, n)) {
        Some(id) => if id != 0 {
            Some(id)
        } else {
            None
        },
        None => None,
    }
}

/// Writes a line with the user's identifier in the place of every `USER`.
pub fn mention_text(line: &str, user_id: u64) -> (s: String)
    ensures
        s@ == mention(line@, user_id),
{
    replace_all(line, "USER", decimal_string(user_id).as_str())
}

/// Collects the parts of a text reaction.
pub struct TextReactionBuilder {
    pub label: String,
    pub also_label: String,
    pub custom_id: String,
    pub button_style: ButtonStyle,
    pub button_label: String,
    pub ref_msg_id: Option<String>,
}

/// A text reaction: the line of the one who starts it, the line of those
/// who join by the button, and the button.
pub struct TextReaction {
    pub label: String,
    pub also_label: String,
    pub custom_id: String,
    pub button_label: String,
    pub button_style: ButtonStyle,
    pub ref_msg_id: Option<String>,
}

impl Default for TextReactionBuilder {
    fn default() -> (b: Self)
        ensures
            b.label@.len() == 0,
            b.also_label@.len() == 0,
            b.custom_id@.len() == 0,
            b.button_label@.len() == 0,
            b.button_style == ButtonStyle::Primary,
            b.ref_msg_id.is_none(),
    {
        TextReactionBuilder {
            label: String::new(),
            also_label: String::new(),
            custom_id: String::new(),
            button_label: String::new(),
            button_style: ButtonStyle::Primary,
            ref_msg_id: None,
        }
    }
}

impl TextReactionBuilder {
    pub fn set_label(self, label: &str) -> (b: Self)
        ensures
            b.label@ == label@,
            b == (TextReactionBuilder { label: b.label, ..self }),
    {
        let mut b = self;
        b.label = String::from_str(label);
        b
    }

    pub fn set_also_label(self, also_label: &str) -> (b: Self)
        ensures
            b.also_label@ == also_label@,
            b == (TextReactionBuilder { also_label: b.also_label, ..self }),
    {
        let mut b = self;
        b.also_label = String::from_str(also_label);
        b
    }

    pub fn set_custom_id(self, custom_id: &str) -> (b: Self)
        ensures
            b.custom_id@ == custom_id@,
            b == (TextReactionBuilder { custom_id: b.custom_id, ..self }),
    {
        let mut b = self;
        b.custom_id = String::from_str(custom_id);
        b
    }

    pub fn set_button_label(self, button_label: &str) -> (b: Self)
        ensures
            b.button_label@ == button_label@,
            b == (TextReactionBuilder { button_label: b.button_label, ..self }),
    {
        let mut b = self;
        b.button_label = String::from_str(button_label);
        b
    }

    pub fn set_button_style(self, button_style: ButtonStyle) -> (b: Self)
        ensures
            b == (TextReactionBuilder { button_style, ..self }),
    {
        let mut b = self;
        b.button_style = button_style;
        b
    }

    pub fn set_ref_msg_id(self, ref_msg_id: Option<String>) -> (b: Self)
        ensures
            b == (TextReactionBuilder { ref_msg_id, ..self }),
    {
        let mut b = self;
        b.ref_msg_id = ref_msg_id;
        b
    }

    pub fn build(self) -> (reaction: TextReaction)
        ensures
            reaction.label == self.label,
            reaction.also_label == self.also_label,
            reaction.custom_id == self.custom_id,
            reaction.button_label == self.button_label,
            reaction.button_style == self.button_style,
            reaction.ref_msg_id == self.ref_msg_id,
    {
        TextReaction {
            label: self.label,
            also_label: self.also_label,
            custom_id: self.custom_id,
            button_label: self.button_label,
            button_style: self.button_style,
            ref_msg_id: self.ref_msg_id,
        }
    }
}

impl TextReaction {
    /// The button to send, referring to `ref_msg_id` where it is given.
    pub fn create_components(&self, ref_msg_id: Option<u64>) -> (button: Button)
        ensures
            button.custom_id@ == button_id(self.custom_id@, ref_msg_id),
            button.label@ == self.button_label@,
            button.style == self.button_style,
    {
        let mut custom_id = self.custom_id.clone();
        match ref_msg_id {
            Some(id) => {
                custom_id.append(decimal_string(id).as_str());
            },
            None => {},
        }
        Button { custom_id, label: self.button_label.clone(), style: self.button_style }
    }

    /// The line of the user who starts the reaction.
    pub fn first_line(&self, user_id: u64) -> (s: String)
        ensures
            s@ == mention(self.label@, user_id),
    {
        mention_text(self.label.as_str(), user_id)
    }

    /// The line of a user who joins by the button.
    pub fn also_line(&self, user_id: u64) -> (s: String)
        ensures
            s@ == mention(self.also_label@, user_id),
    {
        mention_text(self.also_label.as_str(), user_id)
    }

    /// Tells whether a pressed button with the identifier `custom_id`
    /// belongs to this reaction.
    pub fn owns_button(&self, custom_id: &str) -> (res: bool)
        ensures
            res == begins_with(custom_id@, self.custom_id@),
    {
        starts_with(custom_id, self.custom_id.as_str())
    }

    /// The message that a pressed button of this reaction refers to.
    pub fn pressed_for(&self, custom_id: &str) -> (res: Option<u64>)
        ensures
            res == referred_message(custom_id@, self.custom_id@),
    {
        referenced_message(custom_id, self.custom_id.as_str())
    }

    /// The message that the reaction was started for, where its identifier
    /// was given and writes a number.
    pub fn referenced(&self) -> (res: Option<u64>)
        ensures
            res == match self.ref_msg_id {
                Some(text) => parsed_u64(text@),
                None => None,
            },
    {
        match &self.ref_msg_id {
            Some(text) => parse_u64(text.as_str()),
            None => None,
        }
    }
}

} // verus!
