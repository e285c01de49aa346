//! Dispatch of the interactive menu.
//!
//! The menu offers six numbered actions. A choice is matched exactly against
//! the option strings; anything else is an invalid option, reported and
//! followed by the menu again.

use vstd::prelude::*;

verus! {

/// The actions the menu offers, and the rejection of any other input.
#[derive(Debug, Clone, Copy, PartialEq, Eq, Structural)]
pub enum MenuAction {
    CreateBlog,
    ListBlogs,
    DeleteBlog,
    ListComments,
    DeleteComment,
    Exit,
    Invalid,
}

/// The action a menu choice stands for. Every option string is a single
/// digit, so anything longer, shorter, or outside `1`..`6` is invalid.
pub open spec fn action_of(s: Seq<char>) -> MenuAction {
    if s.len() == 1 {
        if s[0] == '1' {
            MenuAction::CreateBlog
        } else if s[0] == '2' {
            MenuAction::ListBlogs
        } else if s[0] == '3' {
            MenuAction::DeleteBlog
        } else if s[0] == '4' {
            MenuAction::ListComments
        } else if s[0] == '5' {
            MenuAction::DeleteComment
        } else if s[0] == '6' {
            MenuAction::Exit
        } else {
            MenuAction::Invalid
        }
    } else {
        MenuAction::Invalid
    }
}

/// Map one line of menu input to the action it selects.
pub fn dispatch(choice: &str) -> (r: MenuAction)
    ensures
        r == action_of(choice@),
{
    let n = choice.unicode_len();
    if n != 1 {
        return MenuAction::Invalid;
    }
    let c = choice.get_char(0);
    if c == '1' {
        MenuAction::CreateBlog
    } else if c == '2' {
        MenuAction::ListBlogs
    } else if c == '3' {
        MenuAction::DeleteBlog
    } else if c == '4' {
        MenuAction::ListComments
    } else if c == '5' {
        MenuAction::DeleteComment
    } else if c == '6' {
        MenuAction::Exit
    } else {
        MenuAction::Invalid
    }
}

} // verus!
