//! The chat command: reading the player's choice and scripting the reply.

use crate::game::{compare, get_random_choice, Choice, Outcome};
use vstd::prelude::*;
use vstd::string::StrSliceExecFns;

verus! {

/// The name of the command's single argument.
pub const ARG_MESSAGE: &'static str = "choice";

/// The word by which a player names a choice.
pub open spec fn choice_token(choice: Choice) -> Seq<char> {
    match choice {
        Choice::Rock => "rock"@,
        Choice::Paper => "paper"@,
        Choice::Scissors => "scissors"@,
    }
}

/// What a piece of text selects: one of the three lower-case words, spelled
/// exactly, or nothing.
pub open spec fn parse_choice(text: Seq<char>) -> Option<Choice> {
    if text == choice_token(Choice::Rock) {
        Some(Choice::Rock)
    } else if text == choice_token(Choice::Paper) {
        Some(Choice::Paper)
    } else if text == choice_token(Choice::Scissors) {
        Some(Choice::Scissors)
    } else {
        None
    }
}

/// The three words name three different choices: no word is read as the
/// choice of another.
pub proof fn law_tokens_differ(a: Choice, b: Choice)
    ensures
        choice_token(a) == choice_token(b) <==> a == b,
{
    reveal_strlit("rock");
    reveal_strlit("paper");
    reveal_strlit("scissors");
    assert("rock"@.len() == 4 && "paper"@.len() == 5 && "scissors"@.len() == 8);
}

/// A text is read as a choice exactly when it is that choice's word; every
/// other text is read as nothing.
pub proof fn law_parse_reads_tokens_only(text: Seq<char>, choice: Choice)
    ensures
        parse_choice(text) == Some(choice) <==> text == choice_token(choice),
        parse_choice(choice_token(choice)) == Some(choice),
        parse_choice(text) is None <==> {
            &&& text != "rock"@
            &&& text != "paper"@
            &&& text != "scissors"@
        },
{
    law_tokens_differ(Choice::Rock, Choice::Paper);
    law_tokens_differ(Choice::Rock, Choice::Scissors);
    law_tokens_differ(Choice::Paper, Choice::Scissors);
}

/// Reading is case-sensitive: a text that holds a character other than a
/// lower-case letter from `a` to `z` is read as nothing.
pub proof fn law_parse_refuses_other_characters(text: Seq<char>, at: int)
    requires
        0 <= at < text.len(),
        !('a' <= text[at] <= 'z'),
    ensures
        parse_choice(text) is None,
{
    reveal_strlit("rock");
    reveal_strlit("paper");
    reveal_strlit("scissors");
}

/// A text that is not four, five or eight characters long, the empty text
/// among them, is read as nothing.
pub proof fn law_parse_refuses_other_lengths(text: Seq<char>)
    requires
        text.len() != 4,
        text.len() != 5,
        text.len() != 8,
    ensures
        parse_choice(text) is None,
{
    reveal_strlit("rock");
    reveal_strlit("paper");
    reveal_strlit("scissors");
}

/// Whether two pieces of text hold the same characters.
fn same_text(left: &str, right: &str) -> (same: bool)
    ensures
        same == (left@ == right@),
{
    let length: usize = left.unicode_len();
    if right.unicode_len() != length {
        return false;
    }
    let mut at: usize = 0;
    while at < length
        invariant
            at <= length,
            length == left@.len(),
            length == right@.len(),
            forall|i: int| 0 <= i < at ==> left@[i] == right@[i],
        decreases length - at,
    {
        if left.get_char(at) != right.get_char(at) {
            return false;
        }
        at += 1;
    }
    assert(left@ =~= right@);
    true
}

/// Reads a choice from free text. The match is case-sensitive.
pub fn str_to_choice(choice: &str) -> (parsed: Option<Choice>)
    ensures
        parsed == parse_choice(choice@),
{
    if same_text(choice, "rock") {
        Some(Choice::Rock)
    } else if same_text(choice, "paper") {
        Some(Choice::Paper)
    } else if same_text(choice, "scissors") {
        Some(Choice::Scissors)
    } else {
        None
    }
}

/// The colour in which a line of the reply is shown.
#[derive(PartialEq, Eq, Structural, Debug, Clone, Copy)]
pub enum Color {
    Aqua,
    Gold,
    Green,
    Red,
    Yellow,
}

/// One line of the reply: its text and its colour.
#[derive(PartialEq, Eq, Debug, Clone, Copy)]
pub struct Message {
    pub text: &'static str,
    pub color: Color,
}

impl View for Message {
    type V = (Seq<char>, Color);

    open spec fn view(&self) -> (Seq<char>, Color) {
        (self.text@, self.color)
    }
}

/// The views of a run of messages, in order.
pub open spec fn script_of(messages: Seq<Message>) -> Seq<(Seq<char>, Color)> {
    messages.map_values(|message: Message| message@)
}

/// The word under which the reply shows a choice.
pub open spec fn choice_word(choice: Choice) -> Seq<char> {
    match choice {
        Choice::Rock => "Rock"@,
        Choice::Paper => "Paper"@,
        Choice::Scissors => "Scissors"@,
    }
}

/// The closing line for an outcome: a win in green, a loss in red, a draw
/// in yellow.
pub open spec fn verdict(outcome: Outcome) -> (Seq<char>, Color) {
    match outcome {
        Outcome::Win => ("You win!"@, Color::Green),
        Outcome::Lose => ("You lose!"@, Color::Red),
        Outcome::Draw => ("It's a tie!"@, Color::Yellow),
    }
}

/// The five lines that answer a round: the player's choice in aqua, the
/// opponent's in gold, then the verdict for the player.
pub open spec fn round_script(player: Choice, opponent: Choice) -> Seq<(Seq<char>, Color)> {
    seq![
        ("You chose: "@, Color::Aqua),
        (choice_word(player), Color::Aqua),
        ("I chose: "@, Color::Gold),
        (choice_word(opponent), Color::Gold),
        verdict(compare(player, opponent)),
    ]
}

/// The word under which a choice is shown.
pub fn choice_name(choice: Choice) -> (name: &'static str)
    ensures
        name@ == choice_word(choice),
{
    match choice {
        Choice::Rock => "Rock",
        Choice::Paper => "Paper",
        Choice::Scissors => "Scissors",
    }
}

/// The closing line for an outcome.
pub fn outcome_message(outcome: Outcome) -> (message: Message)
    ensures
        message@ == verdict(outcome),
{
    match outcome {
        Outcome::Win => Message { text: "You win!", color: Color::Green },
        Outcome::Lose => Message { text: "You lose!", color: Color::Red },
        Outcome::Draw => Message { text: "It's a tie!", color: Color::Yellow },
    }
}

/// Scripts the reply to a round between `player` and `opponent`.
pub fn round_messages(player: Choice, opponent: Choice) -> (messages: Vec<Message>)
    ensures
        script_of(messages@) == round_script(player, opponent),
{
    let mut messages: Vec<Message> = Vec::new();
    messages.push(Message { text: "You chose: ", color: Color::Aqua });
    messages.push(Message { text: choice_name(player), color: Color::Aqua });
    messages.push(Message { text: "I chose: ", color: Color::Gold });
    messages.push(Message { text: choice_name(opponent), color: Color::Gold });
    messages.push(outcome_message(player.beats(&opponent)));
    assert(script_of(messages@) =~= round_script(player, opponent));
    messages
}

/// Why the command could not be carried out.
#[derive(PartialEq, Eq, Structural, Debug, Clone, Copy)]
pub enum CommandIssue {
    /// The argument that carries the choice was not handed over as text.
    InvalidConsumption,
    /// The text is none of the three words.
    InvalidChoice,
}

/// What goes with an issue: for a missing argument its name, for a wrong
/// word the sentence that lists the words allowed.
pub open spec fn issue_detail(issue: CommandIssue) -> Seq<char> {
    match issue {
        CommandIssue::InvalidConsumption => ARG_MESSAGE@,
        CommandIssue::InvalidChoice => "Player choice can only be \"rock\", \"paper\" or \"scissors\"."@,
    }
}

impl CommandIssue {
    /// The name of the missing argument, or the sentence shown to a player
    /// whose word was not understood.
    pub fn detail(&self) -> (detail: &'static str)
        ensures
            detail@ == issue_detail(*self),
    {
        match self {
            CommandIssue::InvalidConsumption => ARG_MESSAGE,
            CommandIssue::InvalidChoice => "Player choice can only be \"rock\", \"paper\" or \"scissors\".",
        }
    }
}

/// The choice that an argument asks for: the argument must be there, and
/// its text must be one of the three words.
pub open spec fn requested(argument: Option<Seq<char>>) -> Result<Choice, CommandIssue> {
    match argument {
        None => Err(CommandIssue::InvalidConsumption),
        Some(text) => match parse_choice(text) {
            None => Err(CommandIssue::InvalidChoice),
            Some(choice) => Ok(choice),
        },
    }
}

/// The text of an argument, where there is one.
pub open spec fn argument_text(argument: Option<&str>) -> Option<Seq<char>> {
    match argument {
        None => None,
        Some(text) => Some(text@),
    }
}

/// Reads the player's choice from the command's argument.
pub fn player_choice(argument: Option<&str>) -> (choice: Result<Choice, CommandIssue>)
    ensures
        choice == requested(argument_text(argument)),
{
    match argument {
        None => Err(CommandIssue::InvalidConsumption),
        Some(text) => match str_to_choice(text) {
            None => Err(CommandIssue::InvalidChoice),
            Some(choice) => Ok(choice),
        },
    }
}

/// Carries out the command: reads the player's choice, draws the
/// opponent's, and scripts the reply.
///
/// An argument that is missing or names no choice is refused, and nothing
/// is drawn. Otherwise the reply is the script of the round for the
/// player's choice and whichever choice was drawn.
pub fn execute(argument: Option<&str>) -> (reply: Result<Vec<Message>, CommandIssue>)
    ensures
        match requested(argument_text(argument)) {
            Err(issue) => reply == Err::<Vec<Message>, CommandIssue>(issue),
            Ok(player) => reply is Ok && exists|opponent: Choice|
                script_of(reply->Ok_0@) == round_script(player, opponent),
        },
{
    let player = match player_choice(argument) {
        Err(issue) => {
            return Err(issue);
        },
        Ok(player) => player,
    };
    let opponent = get_random_choice();
    Ok(round_messages(player, opponent))
}

} // verus!
