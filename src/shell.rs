//! The two shell dialects and the escapes that each understands.

use vstd::prelude::*;
use crate::line::{PromptLineBuilder, PromptLineType};
use crate::text::{decimal, decimal_string};

verus! {

/// The shell that a prompt is written for.
#[derive(Debug, Clone, Copy, Hash, PartialEq, Eq, Structural)]
pub enum ShellType {
    /// Bourne again shell
    Bash,
    /// Z shell
    Zsh,
}

impl ShellType {
    /// The escape that shows the working directory.
    pub open spec fn dir_escape(self) -> Seq<char> {
        match self {
            ShellType::Bash => "\\w"@,
            ShellType::Zsh => "%~"@,
        }
    }

    /// The escape that shows the host name.
    pub open spec fn hostname_escape(self) -> Seq<char> {
        match self {
            ShellType::Bash => "\\H"@,
            ShellType::Zsh => "%m"@,
        }
    }

    /// The escape that shows whether the shell runs as root.
    pub open spec fn dollar_escape(self) -> Seq<char> {
        match self {
            ShellType::Bash => "\\$"@,
            ShellType::Zsh => "%#"@,
        }
    }

    /// A terminal control sequence `ESC [ code`, wrapped in the markers by
    /// which the shell knows that it takes no room on the line.
    pub open spec fn control(self, code: Seq<char>) -> Seq<char> {
        match self {
            ShellType::Bash => "\\[\x1b["@ + code + "\\]"@,
            ShellType::Zsh => "%{\x1b["@ + code + "%}"@,
        }
    }

    /// The sequence that selects foreground colour `c`.
    pub open spec fn col_spec(self, c: nat) -> Seq<char> {
        self.control(decimal(c + 30) + "m"@)
    }

    /// The sequence that selects bold foreground colour `c`.
    pub open spec fn bcol_spec(self, c: nat) -> Seq<char> {
        self.control("1;"@ + decimal(c + 30) + "m"@)
    }

    /// The sequence that clears colour and weight.
    pub open spec fn reset_spec(self) -> Seq<char> {
        self.control("0m"@)
    }

    /// The name of the dialect as it stands in a request.
    pub open spec fn name_spec(self) -> Seq<char> {
        match self {
            ShellType::Bash => "Bash"@,
            ShellType::Zsh => "Zsh"@,
        }
    }

    /// Creates a Boxed `PromptLineBuilder`
    pub fn new_line(&self) -> (r: PromptLineBuilder)
        ensures
            r.line.level == 0,
            r.line.line_type == PromptLineType::Boxed,
            r.line.parts@.len() == 0,
            r.line.shell == *self,
            r.shell == *self,
    {
        PromptLineBuilder::new(*self)
    }

    /// Creates a Free `PromptLineBuilder`
    pub fn new_free_line(&self) -> (r: PromptLineBuilder)
        ensures
            r.line.level == 0,
            r.line.line_type == PromptLineType::Free,
            r.line.parts@.len() == 0,
            r.line.shell == *self,
            r.shell == *self,
    {
        PromptLineBuilder::new_free(*self)
    }

    /// Returns the escape for showing the working directory
    pub fn dir(&self) -> (r: &'static str)
        ensures
            r@ == self.dir_escape(),
    {
        match *self {
            ShellType::Bash => "\\w",
            ShellType::Zsh => "%~",
        }
    }

    /// Returns the escape for showing the current hostname
    pub fn hostname(&self) -> (r: &'static str)
        ensures
            r@ == self.hostname_escape(),
    {
        match *self {
            ShellType::Bash => "\\H",
            ShellType::Zsh => "%m",
        }
    }

    /// Returns the escape for showing the current root/not root state of shell
    pub fn dollar(&self) -> (r: &'static str)
        ensures
            r@ == self.dollar_escape(),
    {
        match *self {
            ShellType::Bash => "\\$",
            ShellType::Zsh => "%#",
        }
    }

    /// Returns the dialect's name, as requests carry it.
    pub fn name(&self) -> (r: &'static str)
        ensures
            r@ == self.name_spec(),
    {
        match *self {
            ShellType::Bash => "Bash",
            ShellType::Zsh => "Zsh",
        }
    }

    fn col_cmd(&self, code: &str) -> (r: String)
        ensures
            r@ == self.control(code@),
    {
        match *self {
            ShellType::Bash => {
                let mut r = String::from_str("\\[\x1b[");
                r.append(code);
                r.append("\\]");
                r
            },
            ShellType::Zsh => {
                let mut r = String::from_str("%{\x1b[");
                r.append(code);
                r.append("%}");
                r
            },
        }
    }

    /// Returns a foreground color escape sequence
    pub fn col(&self, c: u32) -> (r: String)
        requires
            c + 30 <= u32::MAX,
        ensures
            r@ == self.col_spec(c as nat),
    {
        let mut code = decimal_string(c + 30);
        code.append("m");
        self.col_cmd(code.as_str())
    }

    /// Returns a bold foreground color escape sequence
    pub fn bcol(&self, c: u32) -> (r: String)
        requires
            c + 30 <= u32::MAX,
        ensures
            r@ == self.bcol_spec(c as nat),
    {
        let mut code = String::from_str("1;");
        let digits = decimal_string(c + 30);
        code.append(digits.as_str());
        code.append("m");
        self.col_cmd(code.as_str())
    }

    /// Returns a reset sequence
    pub fn reset(&self) -> (r: String)
        ensures
            r@ == self.reset_spec(),
    {
        self.col_cmd("0m")
    }
}

} // verus!
