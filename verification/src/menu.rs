//! Top-level menu dispatch.
//!
//! The interactive driver reads a line, trims it, and hands the bytes
//! here; the decision of what the choice means is made and verified in
//! this module, while the driver only performs the chosen action.

use vstd::prelude::*;

verus! {

/// What a menu input asks for.
#[derive(Clone, Copy, Debug, PartialEq, Eq, Structural)]
pub enum MenuAction {
    /// End the program (choice "0").
    Exit,
    /// Run one level-ice resistance calculation (choice "1").
    Calculate,
    /// Anything else: report an invalid choice and ask again.
    Invalid,
}

/// Decide what a trimmed menu line asks for: `b"0"` exits, `b"1"`
/// starts a calculation, anything else is invalid.
pub fn menu_action(choice: &[u8]) -> (r: MenuAction)
    ensures
        r == MenuAction::Exit <==> choice@ =~= seq![48u8],
        r == MenuAction::Calculate <==> choice@ =~= seq![49u8],
        r == MenuAction::Invalid <==> !(choice@ =~= seq![48u8]) && !(choice@ =~= seq![49u8]),
{
    if choice.len() == 1 {
        let c = choice[0];
        if c == 48 {
            MenuAction::Exit
        } else if c == 49 {
            MenuAction::Calculate
        } else {
            MenuAction::Invalid
        }
    } else {
        MenuAction::Invalid
    }
}

} // verus!
