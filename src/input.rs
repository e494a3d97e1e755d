use vstd::prelude::*;

verus! {

/// A key the player pressed, as far as the game tells keys apart.
#[derive(Clone, Copy, Debug, PartialEq, Eq, Structural)]
pub enum KeyCode {
    /// A printable character.
    Char(char),
    /// The escape key.
    Esc,
    /// Any other key.
    Other,
}

/// Space jumps.
pub open spec fn is_jump(code: KeyCode) -> bool {
    code == KeyCode::Char(' ')
}

/// `q` and Escape quit.
pub open spec fn is_quit(code: KeyCode) -> bool {
    code == KeyCode::Char('q') || code == KeyCode::Esc
}

/// Whether `code` asks for a jump.
pub fn is_jump_key(code: KeyCode) -> (r: bool)
    ensures
        r == is_jump(code),
{
    match code {
        KeyCode::Char(c) => c == ' ',
        _ => false,
    }
}

/// Whether `code` asks to quit.
pub fn is_quit_key(code: KeyCode) -> (r: bool)
    ensures
        r == is_quit(code),
{
    match code {
        KeyCode::Char(c) => c == 'q',
        KeyCode::Esc => true,
        KeyCode::Other => false,
    }
}

} // verus!
