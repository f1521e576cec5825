//! The menu by which a user names a repository: a choice of how to enter
//! it, then the lines that the choice calls for.
//!
//! The menu reads and prints nothing itself. It is told each line that the
//! user typed and says what to ask for next.

use crate::input::parser::{
    format_repository, pair_view, parse_github_url, parse_owner_repo_format, trim, url_repository,
    ParseError,
};
use crate::text::{same_text, trimmed};
use vstd::prelude::*;

verus! {

/// What the menu is waiting for.
#[derive(Debug, PartialEq, Eq)]
pub enum Menu {
    /// The choice of an option, `1` to `4`.
    Choosing,
    /// The full address of the repository.
    AwaitingUrl,
    /// The repository in the form `owner/repo`.
    AwaitingPair,
    /// The owner of the repository.
    AwaitingOwner,
    /// The repository of `owner`.
    AwaitingRepo { owner: String },
}

/// What was wrong with a line. After each of these the menu is back at the
/// choice of an option.
#[derive(Debug, Clone, Copy, PartialEq, Eq, Structural)]
pub enum Complaint {
    InvalidChoice,
    EmptyUrl,
    EmptyInput,
    EmptyOwner,
    EmptyRepo,
}

/// What the menu does on a line.
#[derive(Debug, PartialEq, Eq)]
pub enum MenuStep {
    /// It asks for what `menu` waits for, after telling the user what was
    /// wrong with the line, if anything was.
    Ask { menu: Menu, complaint: Option<Complaint> },
    /// The user chose to leave.
    Exit,
    /// The user has named a repository, or what was entered names none.
    Done(Result<(String, String), ParseError>),
}

/// The menu, as its characters.
pub enum MenuView {
    Choosing,
    AwaitingUrl,
    AwaitingPair,
    AwaitingOwner,
    AwaitingRepo { owner: Seq<char> },
}

/// A step of the menu, as its characters.
pub enum MenuStepView {
    Ask { menu: MenuView, complaint: Option<Complaint> },
    Exit,
    Done(Result<(Seq<char>, Seq<char>), ParseError>),
}

impl View for Menu {
    type V = MenuView;

    open spec fn view(&self) -> MenuView {
        match self {
            Menu::Choosing => MenuView::Choosing,
            Menu::AwaitingUrl => MenuView::AwaitingUrl,
            Menu::AwaitingPair => MenuView::AwaitingPair,
            Menu::AwaitingOwner => MenuView::AwaitingOwner,
            Menu::AwaitingRepo { owner } => MenuView::AwaitingRepo { owner: owner@ },
        }
    }
}

impl View for MenuStep {
    type V = MenuStepView;

    open spec fn view(&self) -> MenuStepView {
        match self {
            MenuStep::Ask { menu, complaint } => MenuStepView::Ask {
                menu: menu@,
                complaint: *complaint,
            },
            MenuStep::Exit => MenuStepView::Exit,
            MenuStep::Done(result) => MenuStepView::Done(pair_view(*result)),
        }
    }
}

/// The menu is back at the choice of an option, after a complaint.
pub open spec fn back_to_choice(complaint: Complaint) -> MenuStepView {
    MenuStepView::Ask { menu: MenuView::Choosing, complaint: Some(complaint) }
}

/// The menu asks for what `menu` waits for.
pub open spec fn ask(menu: MenuView) -> MenuStepView {
    MenuStepView::Ask { menu, complaint: None }
}

/// What the menu does on `line`. The white space around a line does not
/// count. A choice other than `1` to `4`, and an empty line where a name
/// is asked for, lead back to the choice of an option.
pub open spec fn spec_answer(menu: MenuView, line: Seq<char>) -> MenuStepView {
    let entry = trimmed(line);
    match menu {
        MenuView::Choosing => if entry == "1"@ {
            ask(MenuView::AwaitingUrl)
        } else if entry == "2"@ {
            ask(MenuView::AwaitingPair)
        } else if entry == "3"@ {
            ask(MenuView::AwaitingOwner)
        } else if entry == "4"@ {
            MenuStepView::Exit
        } else {
            back_to_choice(Complaint::InvalidChoice)
        },
        MenuView::AwaitingUrl => if entry.len() == 0 {
            back_to_choice(Complaint::EmptyUrl)
        } else {
            MenuStepView::Done(url_repository(entry))
        },
        MenuView::AwaitingPair => if entry.len() == 0 {
            back_to_choice(Complaint::EmptyInput)
        } else {
            MenuStepView::Done(format_repository(entry))
        },
        MenuView::AwaitingOwner => if entry.len() == 0 {
            back_to_choice(Complaint::EmptyOwner)
        } else {
            ask(MenuView::AwaitingRepo { owner: entry })
        },
        MenuView::AwaitingRepo { owner } => if entry.len() == 0 {
            back_to_choice(Complaint::EmptyRepo)
        } else {
            MenuStepView::Done(Ok((owner, entry)))
        },
    }
}

fn complain(complaint: Complaint) -> (step: MenuStep)
    ensures
        step@ == back_to_choice(complaint),
{
    MenuStep::Ask { menu: Menu::Choosing, complaint: Some(complaint) }
}

impl Menu {
    /// The menu as it is first shown: at the choice of an option.
    pub fn new() -> (menu: Menu)
        ensures
            menu@ == MenuView::Choosing,
    {
        Menu::Choosing
    }

    /// Tells the menu the line that the user typed.
    pub fn answer(self, line: &str) -> (step: MenuStep)
        ensures
            step@ == spec_answer(self@, line@),
    {
        let entry = trim(line);
        let empty = entry.unicode_len() == 0;
        match self {
            Menu::Choosing => {
                if same_text(entry, "1") {
                    MenuStep::Ask { menu: Menu::AwaitingUrl, complaint: None }
                } else if same_text(entry, "2") {
                    MenuStep::Ask { menu: Menu::AwaitingPair, complaint: None }
                } else if same_text(entry, "3") {
                    MenuStep::Ask { menu: Menu::AwaitingOwner, complaint: None }
                } else if same_text(entry, "4") {
                    MenuStep::Exit
                } else {
                    complain(Complaint::InvalidChoice)
                }
            },
            Menu::AwaitingUrl => {
                if empty {
                    complain(Complaint::EmptyUrl)
                } else {
                    MenuStep::Done(parse_github_url(entry))
                }
            },
            Menu::AwaitingPair => {
                if empty {
                    complain(Complaint::EmptyInput)
                } else {
                    MenuStep::Done(parse_owner_repo_format(entry))
                }
            },
            Menu::AwaitingOwner => {
                if empty {
                    complain(Complaint::EmptyOwner)
                } else {
                    MenuStep::Ask {
                        menu: Menu::AwaitingRepo { owner: String::from_str(entry) },
                        complaint: None,
                    }
                }
            },
            Menu::AwaitingRepo { owner } => {
                if empty {
                    complain(Complaint::EmptyRepo)
                } else {
                    MenuStep::Done(Ok((owner, String::from_str(entry))))
                }
            },
        }
    }
}

} // verus!
