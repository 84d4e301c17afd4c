//! The lines of text that the front end shows for chats and commands.

use vstd::prelude::*;
use vstd::string::StringExecFns;

use crate::chat::{Chat, ChatState, ChatStateView, ChatView};
use crate::chat_message::text_view;

verus! {

/// The character that stands for the digit `d`.
pub open spec fn digit_char(d: int) -> char {
    if d == 0 {
        '0'
    } else if d == 1 {
        '1'
    } else if d == 2 {
        '2'
    } else if d == 3 {
        '3'
    } else if d == 4 {
        '4'
    } else if d == 5 {
        '5'
    } else if d == 6 {
        '6'
    } else if d == 7 {
        '7'
    } else if d == 8 {
        '8'
    } else {
        '9'
    }
}

/// The number `n` in decimal digits, without leading zeros.
pub open spec fn decimal(n: nat) -> Seq<char>
    decreases n,
{
    if n < 10 {
        seq![digit_char(n as int)]
    } else {
        decimal(n / 10).push(digit_char((n % 10) as int))
    }
}

fn digit_str(d: usize) -> (text: &'static str)
    requires
        d < 10,
    ensures
        text@ == seq![digit_char(d as int)],
{
    proof {
        reveal_strlit("0");
        reveal_strlit("1");
        reveal_strlit("2");
        reveal_strlit("3");
        reveal_strlit("4");
        reveal_strlit("5");
        reveal_strlit("6");
        reveal_strlit("7");
        reveal_strlit("8");
        reveal_strlit("9");
    }
    let text = match d {
        0 => "0",
        1 => "1",
        2 => "2",
        3 => "3",
        4 => "4",
        5 => "5",
        6 => "6",
        7 => "7",
        8 => "8",
        _ => "9",
    };
    assert(text@ =~= seq![digit_char(d as int)]);
    text
}

/// Writes `n` in decimal digits at the end of `text`.
pub fn push_decimal(text: &mut String, n: usize)
    ensures
        final(text)@ == old(text)@ + decimal(n as nat),
    decreases n,
{
    if n >= 10 {
        push_decimal(text, n / 10);
    }
    text.append(digit_str(n % 10));
    assert(text@ =~= old(text)@ + decimal(n as nat));
}

impl<R> ChatView<R> {
    /// The chat's line in the list of chats: its name, then " ..." while the
    /// agent is at work, then the number of new messages in brackets where
    /// there are any.
    pub open spec fn list_label(self) -> Seq<char> {
        self.name + if self.state.is_busy() {
            " ..."@
        } else {
            Seq::empty()
        } + if self.new_message_count > 0 {
            " ("@ + decimal(self.new_message_count) + ")"@
        } else {
            Seq::empty()
        }
    }
}

/// The line that stands for `chat` in the list of chats.
pub fn format_chat_in_list<R>(chat: &Chat<R>) -> (label: String)
    ensures
        label@ == chat@.list_label(),
{
    let mut label = chat.name.clone();
    if chat.is_loading() {
        label.append(" ...");
    }
    if chat.new_message_count > 0 {
        label.append(" (");
        push_decimal(&mut label, chat.new_message_count);
        label.append(")");
    }
    assert(label@ =~= chat@.list_label());
    label
}

impl ChatStateView {
    /// What the input bar shows while the agent is at work.
    pub open spec fn loading_label(self) -> Option<Seq<char>> {
        match self {
            ChatStateView::Loading => Some("Kwaaking ..."@),
            ChatStateView::LoadingWithMessage(text) => Some("Kwaaking ("@ + text + ") ..."@),
            ChatStateView::Ready => None,
        }
    }
}

/// What the input bar shows in place of the input while the agent is at
/// work: nothing when it is not.
pub fn loading_label(state: &ChatState) -> (label: Option<String>)
    ensures
        text_view(label) == state@.loading_label(),
{
    match state {
        ChatState::Loading => Some("Kwaaking ...".to_owned()),
        ChatState::LoadingWithMessage(text) => {
            let mut label = "Kwaaking (".to_owned();
            label.append(text.as_str());
            label.append(") ...");
            Some(label)
        },
        ChatState::Ready => None,
    }
}

/// The commands, each behind a slash, with one space between two of them.
pub open spec fn commands_line(commands: Seq<Seq<char>>) -> Seq<char>
    decreases commands.len(),
{
    if commands.len() == 0 {
        Seq::empty()
    } else if commands.len() == 1 {
        "/"@ + commands[0]
    } else {
        commands_line(commands.drop_last()) + " /"@ + commands.last()
    }
}

/// The line that lists the commands that the user can give.
pub fn format_commands(commands: &Vec<String>) -> (line: String)
    ensures
        line@ == commands_line(commands@.map_values(|c: String| c@)),
{
    let ghost names = commands@.map_values(|c: String| c@);
    let mut line = String::new();
    let mut at: usize = 0;
    while at < commands.len()
        invariant
            at <= commands.len(),
            names == commands@.map_values(|c: String| c@),
            line@ == commands_line(names.take(at as int)),
        decreases commands.len() - at,
    {
        proof {
            reveal_strlit("/");
            reveal_strlit(" /");
            assert(names.take(at + 1).drop_last() =~= names.take(at as int));
            assert(names.take(at + 1).last() == commands[at as int]@);
        }
        if at == 0 {
            line.append("/");
        } else {
            line.append(" /");
        }
        line.append(commands[at].as_str());
        at += 1;
    }
    assert(names.take(at as int) =~= names);
    line
}

} // verus!
