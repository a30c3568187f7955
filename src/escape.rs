//! Colour escapes for bash prompts.

use vstd::prelude::*;
use crate::shell::ShellType;

verus! {

/// Returns a foreground color escape sequence
pub fn col(c: u32) -> (r: String)
    requires
        c + 30 <= u32::MAX,
    ensures
        r@ == ShellType::Bash.col_spec(c as nat),
{
    ShellType::Bash.col(c)
}

/// Returns a bold foreground color escape sequence
pub fn bcol(c: u32) -> (r: String)
    requires
        c + 30 <= u32::MAX,
    ensures
        r@ == ShellType::Bash.bcol_spec(c as nat),
{
    ShellType::Bash.bcol(c)
}

/// Resets any color sequence
pub fn reset() -> (r: String)
    ensures
        r@ == ShellType::Bash.reset_spec(),
{
    ShellType::Bash.reset()
}

} // verus!
