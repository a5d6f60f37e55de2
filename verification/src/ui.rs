//! The choices that the user is offered for a proposed name.

use vstd::prelude::*;
use vstd::string::StringExecFns;

verus! {

/// What the user may answer to a proposed name.
#[derive(Debug, Clone, Copy, PartialEq, Eq, Structural)]
pub enum UserChoice {
    /// Rename the file to the proposed name.
    Yes,
    /// Leave the file as it is.
    No,
    /// Edit the proposed name as a whole.
    Edit,
    /// Edit the author and build the name anew.
    EditAuthor,
    /// Edit the year and build the name anew.
    EditYear,
    /// Edit the title and build the name anew.
    EditTitle,
}

/// The choice at a position of the menu, counted from zero.
pub open spec fn choice_at(index: int) -> Option<UserChoice> {
    if index == 0 {
        Some(UserChoice::Yes)
    } else if index == 1 {
        Some(UserChoice::No)
    } else if index == 2 {
        Some(UserChoice::Edit)
    } else if index == 3 {
        Some(UserChoice::EditAuthor)
    } else if index == 4 {
        Some(UserChoice::EditYear)
    } else if index == 5 {
        Some(UserChoice::EditTitle)
    } else {
        None
    }
}

/// The position of a choice in the menu.
pub open spec fn position_of(choice: UserChoice) -> int {
    match choice {
        UserChoice::Yes => 0,
        UserChoice::No => 1,
        UserChoice::Edit => 2,
        UserChoice::EditAuthor => 3,
        UserChoice::EditYear => 4,
        UserChoice::EditTitle => 5,
    }
}

/// The line of the menu that stands for a choice.
pub open spec fn label_of(choice: UserChoice) -> Seq<char> {
    match choice {
        UserChoice::Yes => "Yes - rename the file"@,
        UserChoice::No => "No - cancel"@,
        UserChoice::Edit => "Edit filename - modify the complete filename"@,
        UserChoice::EditAuthor => "Edit author - change the author name"@,
        UserChoice::EditYear => "Edit year - change the publication year"@,
        UserChoice::EditTitle => "Edit title - change the paper title"@,
    }
}

impl UserChoice {
    /// The choice that a selected position of the menu stands for; none for a
    /// position beyond the menu.
    pub fn from_index(index: usize) -> (r: Option<UserChoice>)
        ensures
            r == choice_at(index as int),
    {
        if index == 0 {
            Some(UserChoice::Yes)
        } else if index == 1 {
            Some(UserChoice::No)
        } else if index == 2 {
            Some(UserChoice::Edit)
        } else if index == 3 {
            Some(UserChoice::EditAuthor)
        } else if index == 4 {
            Some(UserChoice::EditYear)
        } else if index == 5 {
            Some(UserChoice::EditTitle)
        } else {
            None
        }
    }

    /// The position of this choice in the menu.
    pub fn index(&self) -> (r: usize)
        ensures
            r == position_of(*self),
            choice_at(r as int) == Some(*self),
    {
        match self {
            UserChoice::Yes => 0,
            UserChoice::No => 1,
            UserChoice::Edit => 2,
            UserChoice::EditAuthor => 3,
            UserChoice::EditYear => 4,
            UserChoice::EditTitle => 5,
        }
    }

    /// The line of the menu that stands for this choice.
    pub fn label(&self) -> (r: String)
        ensures
            r@ == label_of(*self),
    {
        match self {
            UserChoice::Yes => String::from_str("Yes - rename the file"),
            UserChoice::No => String::from_str("No - cancel"),
            UserChoice::Edit => String::from_str("Edit filename - modify the complete filename"),
            UserChoice::EditAuthor => String::from_str("Edit author - change the author name"),
            UserChoice::EditYear => String::from_str("Edit year - change the publication year"),
            UserChoice::EditTitle => String::from_str("Edit title - change the paper title"),
        }
    }
}

/// The menu, from its first line to its last.
pub fn menu() -> (choices: Vec<UserChoice>)
    ensures
        choices@.len() == 6,
        forall|i: int| 0 <= i < 6 ==> choice_at(i) == Some(#[trigger] choices@[i]),
{
    let mut choices: Vec<UserChoice> = Vec::new();
    choices.push(UserChoice::Yes);
    choices.push(UserChoice::No);
    choices.push(UserChoice::Edit);
    choices.push(UserChoice::EditAuthor);
    choices.push(UserChoice::EditYear);
    choices.push(UserChoice::EditTitle);
    choices
}

} // verus!
