//! The commands of the interactive menu, and how a typed choice selects one.
use vstd::prelude::*;

verus! {

/// One entry of the interactive menu.
#[derive(Debug, Clone, Copy, PartialEq, Eq, Structural)]
pub enum MenuCommand {
    Initialize,
    RunDemo,
    SetApiKey,
    AddTemplate,
    ListTemplates,
    TestCompletion,
    Exit,
}

/// The command that the digit `c` selects.
pub open spec fn command_of_digit(c: char) -> Option<MenuCommand> {
    if c == '1' {
        Some(MenuCommand::Initialize)
    } else if c == '2' {
        Some(MenuCommand::RunDemo)
    } else if c == '3' {
        Some(MenuCommand::SetApiKey)
    } else if c == '4' {
        Some(MenuCommand::AddTemplate)
    } else if c == '5' {
        Some(MenuCommand::ListTemplates)
    } else if c == '6' {
        Some(MenuCommand::TestCompletion)
    } else if c == '7' {
        Some(MenuCommand::Exit)
    } else {
        None
    }
}

/// The command a typed choice selects: exactly one digit from 1 to 7.
pub open spec fn command_of(choice: Seq<char>) -> Option<MenuCommand> {
    if choice.len() == 1 {
        command_of_digit(choice[0])
    } else {
        None
    }
}

/// The command that `choice` selects, or `None` for anything else.
pub fn parse_menu_choice(choice: &str) -> (r: Option<MenuCommand>)
    ensures
        r == command_of(choice@),
{
    if choice.unicode_len() != 1 {
        return None;
    }
    let c = choice.get_char(0);
    if c == '1' {
        Some(MenuCommand::Initialize)
    } else if c == '2' {
        Some(MenuCommand::RunDemo)
    } else if c == '3' {
        Some(MenuCommand::SetApiKey)
    } else if c == '4' {
        Some(MenuCommand::AddTemplate)
    } else if c == '5' {
        Some(MenuCommand::ListTemplates)
    } else if c == '6' {
        Some(MenuCommand::TestCompletion)
    } else if c == '7' {
        Some(MenuCommand::Exit)
    } else {
        None
    }
}

} // verus!
