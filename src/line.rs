//! The pieces a prompt is drawn from: boxes of coloured text, gathered into
//! lines.

use vstd::prelude::*;
use crate::color;
use crate::shell::ShellType;

verus! {

/// Whether a colour number can be turned into an escape without overflow.
pub open spec fn color_fits(c: u32) -> bool {
    c + 30 <= u32::MAX
}

/// The possible types for prompt lines
#[derive(Debug, Clone, Copy, PartialEq, Eq, Structural)]
pub enum PromptLineType {
    /// Boxed => ┤text├
    Boxed,
    /// Free => │ text
    Free,
}

/// The smallest component of a prompt line: a text, its colour and whether
/// it is bold.
pub struct PromptBox {
    pub color: u32,
    pub text: String,
    pub is_bold: bool,
    pub shell: ShellType,
}

impl PromptBox {
    pub open spec fn wf(&self) -> bool {
        color_fits(self.color)
    }

    /// The box as it is written out: colour, text, reset.
    pub open spec fn rendered(&self) -> Seq<char> {
        (if self.is_bold {
            self.shell.bcol_spec(self.color as nat)
        } else {
            self.shell.col_spec(self.color as nat)
        }) + self.text@ + self.shell.reset_spec()
    }

    /// Creates a prompt box
    pub fn new(text: String, color: u32, is_bold: bool, shell: ShellType) -> (r: PromptBox)
        ensures
            r.text@ == text@,
            r.color == color,
            r.is_bold == is_bold,
            r.shell == shell,
    {
        PromptBox { color, text, is_bold, shell }
    }

    /// Writes the box out.
    pub fn render(&self) -> (r: String)
        requires
            self.wf(),
        ensures
            r@ == self.rendered(),
    {
        let mut r = if self.is_bold {
            self.shell.bcol(self.color)
        } else {
            self.shell.col(self.color)
        };
        r.append(self.text.as_str());
        let reset = self.shell.reset();
        r.append(reset.as_str());
        r
    }
}

impl Clone for PromptBox {
    fn clone(&self) -> (r: PromptBox)
        ensures
            r.text@ == self.text@,
            r.color == self.color,
            r.is_bold == self.is_bold,
            r.shell == self.shell,
    {
        PromptBox {
            color: self.color,
            text: self.text.clone(),
            is_bold: self.is_bold,
            shell: self.shell,
        }
    }
}

/// The small pieces used to display prompt lines
pub struct PromptLine {
    /// The indent level of the line
    pub level: u8,
    /// Boxed or Free
    pub line_type: PromptLineType,
    /// The boxes that make up the line
    pub parts: Vec<PromptBox>,
    /// Shell type to output for
    pub shell: ShellType,
}

impl PromptLine {
    /// Every box of the line can be written out.
    pub open spec fn wf(&self) -> bool {
        forall|i: int| 0 <= i < self.parts@.len() ==> #[trigger] self.parts@[i].wf()
    }

    /// An empty boxed line at level zero.
    pub fn new(shell: ShellType) -> (r: PromptLine)
        ensures
            r.level == 0,
            r.line_type == PromptLineType::Boxed,
            r.parts@.len() == 0,
            r.shell == shell,
    {
        PromptLine { level: 0, line_type: PromptLineType::Boxed, parts: Vec::new(), shell }
    }

    /// An empty free line at level zero.
    pub fn new_free(shell: ShellType) -> (r: PromptLine)
        ensures
            r.level == 0,
            r.line_type == PromptLineType::Free,
            r.parts@.len() == 0,
            r.shell == shell,
    {
        PromptLine { line_type: PromptLineType::Free, ..PromptLine::new(shell) }
    }
}

/// A list of `PromptLine`s
pub type PromptLines = Vec<PromptLine>;

/// Builds a `PromptLine` one box at a time.
pub struct PromptLineBuilder {
    pub line: PromptLine,
    pub shell: ShellType,
}

/// `b` is a box with the given text, colour and weight, for `shell`.
pub open spec fn is_box(b: PromptBox, text: Seq<char>, color: u32, bold: bool, shell: ShellType) -> bool {
    b.text@ == text && b.color == color && b.is_bold == bold && b.shell == shell
}

impl PromptLineBuilder {
    /// Creates a Boxed `PromptLineBuilder`
    pub fn new(shell: ShellType) -> (r: PromptLineBuilder)
        ensures
            r.line.level == 0,
            r.line.line_type == PromptLineType::Boxed,
            r.line.parts@.len() == 0,
            r.line.shell == shell,
            r.shell == shell,
    {
        PromptLineBuilder { line: PromptLine::new(shell), shell }
    }

    /// Creates a Free `PromptLineBuilder`
    pub fn new_free(shell: ShellType) -> (r: PromptLineBuilder)
        ensures
            r.line.level == 0,
            r.line.line_type == PromptLineType::Free,
            r.line.parts@.len() == 0,
            r.line.shell == shell,
            r.shell == shell,
    {
        PromptLineBuilder { line: PromptLine::new_free(shell), shell }
    }

    /// Increases indent by amt
    pub fn indent_by(self, amt: u8) -> (r: PromptLineBuilder)
        requires
            self.line.level + amt <= u8::MAX,
        ensures
            r.line.level == self.line.level + amt,
            r.line.line_type == self.line.line_type,
            r.line.parts@ == self.line.parts@,
            r.line.shell == self.line.shell,
            r.shell == self.shell,
    {
        let mut b = self;
        b.line.level = b.line.level + amt;
        b
    }

    /// Increases indent by 1
    pub fn indent(self) -> (r: PromptLineBuilder)
        requires
            self.line.level + 1 <= u8::MAX,
        ensures
            r.line.level == self.line.level + 1,
            r.line.line_type == self.line.line_type,
            r.line.parts@ == self.line.parts@,
            r.line.shell == self.line.shell,
            r.shell == self.shell,
    {
        self.indent_by(1)
    }

    fn add_block(self, text: &str, color: u32, bold: bool) -> (r: PromptLineBuilder)
        ensures
            r.line.level == self.line.level,
            r.line.line_type == self.line.line_type,
            r.line.parts@.len() == self.line.parts@.len() + 1,
            r.line.parts@.drop_last() == self.line.parts@,
            is_box(r.line.parts@.last(), text@, color, bold, self.shell),
            r.line.shell == self.line.shell,
            r.shell == self.shell,
    {
        let mut b = self;
        let shell = b.shell;
        b.line.parts.push(PromptBox::new(String::from_str(text), color, bold, shell));
        proof {
            assert(b.line.parts@.drop_last() =~= self.line.parts@);
        }
        b
    }

    /// Adds a block with a given text, in magenta
    pub fn block(self, text: &str) -> (r: PromptLineBuilder)
        ensures
            r.line.level == self.line.level,
            r.line.line_type == self.line.line_type,
            r.line.parts@.len() == self.line.parts@.len() + 1,
            r.line.parts@.drop_last() == self.line.parts@,
            is_box(r.line.parts@.last(), text@, color::MAGENTA, false, self.shell),
            r.line.shell == self.line.shell,
            r.shell == self.shell,
    {
        self.add_block(text, color::MAGENTA, false)
    }

    /// Adds a block with a given text and color
    pub fn colored_block(self, text: &str, c: u32) -> (r: PromptLineBuilder)
        ensures
            r.line.level == self.line.level,
            r.line.line_type == self.line.line_type,
            r.line.parts@.len() == self.line.parts@.len() + 1,
            r.line.parts@.drop_last() == self.line.parts@,
            is_box(r.line.parts@.last(), text@, c, false, self.shell),
            r.line.shell == self.line.shell,
            r.shell == self.shell,
    {
        self.add_block(text, c, false)
    }

    /// Adds an emboldened block with a given text and color
    pub fn bold_colored_block(self, text: &str, c: u32) -> (r: PromptLineBuilder)
        ensures
            r.line.level == self.line.level,
            r.line.line_type == self.line.line_type,
            r.line.parts@.len() == self.line.parts@.len() + 1,
            r.line.parts@.drop_last() == self.line.parts@,
            is_box(r.line.parts@.last(), text@, c, true, self.shell),
            r.line.shell == self.line.shell,
            r.shell == self.shell,
    {
        self.add_block(text, c, true)
    }

    /// Returns the built PromptLine
    pub fn build(self) -> (r: PromptLine)
        ensures
            r.level == self.line.level,
            r.line_type == self.line.line_type,
            r.parts@ == self.line.parts@,
            r.shell == self.line.shell,
    {
        self.line
    }
}

} // verus!
