//! Lays a list of prompt lines out as one string, joined by box-drawing
//! characters, and runs the plugins that contribute those lines.

use vstd::prelude::*;
use crate::color;
use crate::line::{is_box, PromptBox, PromptLine, PromptLineBuilder, PromptLineType};
use crate::shell::ShellType;

verus! {

/// Defines the speed at which to run the `to_string` method
#[derive(Debug, Clone, Copy, PartialEq, Eq, Structural)]
pub enum PluginSpeed {
    /// Don't run plugin
    Ignored,
    /// Don't do anything that might be slow
    Fast,
    /// Do whatever you want (still try to be fast as possible)
    Slow,
}

impl PluginSpeed {
    /// Whether plugins are skipped altogether.
    pub fn is_ignored(&self) -> (r: bool)
        ensures
            r == (*self == PluginSpeed::Ignored),
    {
        match *self {
            PluginSpeed::Ignored => true,
            _ => false,
        }
    }
}

/// A joint reaches up.
pub const TOP: i16 = 8;

/// A joint reaches down.
pub const BOTTOM: i16 = 4;

/// A joint reaches left.
pub const LEFT: i16 = 2;

/// A joint reaches right.
pub const RIGHT: i16 = 1;

/// A set of directions that some box-drawing character joins: any two or
/// more of the four.
pub open spec fn joinable(flags: i16) -> bool {
    0 < flags <= TOP + BOTTOM + LEFT + RIGHT && flags != TOP && flags != BOTTOM && flags != LEFT
        && flags != RIGHT
}

/// The box-drawing character that joins the directions in `flags`.
pub open spec fn joint_char(flags: i16) -> char {
    if flags == TOP + BOTTOM + LEFT + RIGHT {
        '┼'
    } else if flags == TOP + BOTTOM + LEFT {
        '┤'
    } else if flags == TOP + BOTTOM + RIGHT {
        '├'
    } else if flags == TOP + BOTTOM {
        '│'
    } else if flags == TOP + LEFT + RIGHT {
        '┴'
    } else if flags == TOP + LEFT {
        '┘'
    } else if flags == TOP + RIGHT {
        '└'
    } else if flags == BOTTOM + LEFT {
        '┐'
    } else if flags == BOTTOM + RIGHT {
        '┌'
    } else if flags == BOTTOM + LEFT + RIGHT {
        '┬'
    } else {
        '─'
    }
}

/// The directions joined at column `i` of a line at level `current`, whose
/// successor sits at level `after`, when the joints of the line start at
/// column `start`.
pub open spec fn joint_flags(
    current: int,
    after: int,
    start: int,
    i: int,
    has_above: bool,
    boxed: bool,
) -> i16 {
    ((if i == current && has_above {
        TOP
    } else {
        0
    }) + (if i == after {
        BOTTOM
    } else {
        0
    }) + (if i > start {
        LEFT
    } else {
        0
    }) + (if boxed || i != current {
        RIGHT
    } else {
        0
    })) as i16
}

/// The level of the line below line `ix`; the last line leads down to 0.
pub open spec fn after_level(lines: Seq<PromptLine>, ix: int) -> int {
    if ix < lines.len() - 1 {
        lines[ix + 1].level as int
    } else {
        0
    }
}

/// The first column with a joint on line `ix`.
pub open spec fn span_start(lines: Seq<PromptLine>, ix: int) -> int {
    if ix < lines.len() - 1 {
        if lines[ix].level <= lines[ix + 1].level {
            lines[ix].level as int
        } else {
            lines[ix + 1].level as int
        }
    } else {
        0
    }
}

/// The last column with a joint on line `ix`.
pub open spec fn span_end(lines: Seq<PromptLine>, ix: int) -> int {
    if ix + 1 < lines.len() && lines[ix].level < lines[ix + 1].level {
        lines[ix + 1].level as int
    } else {
        lines[ix].level as int
    }
}

/// The directions joined at column `i` of line `ix`.
pub open spec fn line_flags(lines: Seq<PromptLine>, ix: int, i: int) -> i16 {
    joint_flags(
        lines[ix].level as int,
        after_level(lines, ix),
        span_start(lines, ix),
        i,
        ix > 0,
        lines[ix].line_type == PromptLineType::Boxed,
    )
}

/// Every joint of every line has a character, and every box has a colour
/// that can be written.
pub open spec fn drawable(lines: Seq<PromptLine>) -> bool {
    &&& forall|ix: int, i: int|
        0 <= ix < lines.len() && span_start(lines, ix) <= i <= span_end(lines, ix) ==> joinable(
            #[trigger] line_flags(lines, ix, i),
        )
    &&& forall|ix: int| 0 <= ix < lines.len() ==> (#[trigger] lines[ix]).wf()
}

/// The joints of line `ix`, from its first column to its last.
pub open spec fn joints(lines: Seq<PromptLine>, ix: int) -> Seq<char> {
    Seq::new(
        (span_end(lines, ix) - span_start(lines, ix) + 1) as nat,
        |j: int| joint_char(line_flags(lines, ix, span_start(lines, ix) + j)),
    )
}

/// `n` blanks.
pub open spec fn blanks(n: int) -> Seq<char> {
    Seq::new(n as nat, |j: int| ' ')
}

/// How one box is drawn on a line of the given type.
pub open spec fn box_piece(b: PromptBox, line_type: PromptLineType) -> Seq<char> {
    match line_type {
        PromptLineType::Boxed => seq!['─', '┤'] + b.rendered() + seq!['├'],
        PromptLineType::Free => seq![' '] + b.rendered(),
    }
}

/// The boxes of a line, drawn one after another.
pub open spec fn box_pieces(parts: Seq<PromptBox>, line_type: PromptLineType) -> Seq<char>
    decreases parts.len(),
{
    if parts.len() == 0 {
        Seq::empty()
    } else {
        box_pieces(parts.drop_last(), line_type) + box_piece(parts.last(), line_type)
    }
}

/// The rule that trails off a boxed line.
pub open spec fn trail() -> Seq<char> {
    Seq::new(10, |j: int| '─')
}

/// Line `ix` as drawn, without its line break.
pub open spec fn line_text(lines: Seq<PromptLine>, ix: int) -> Seq<char> {
    blanks(span_start(lines, ix)) + joints(lines, ix) + box_pieces(
        lines[ix].parts@,
        lines[ix].line_type,
    ) + (if lines[ix].line_type == PromptLineType::Boxed {
        trail()
    } else {
        Seq::empty()
    })
}

/// The first `n` lines as drawn, each ended by a line break.
pub open spec fn drawn_lines(lines: Seq<PromptLine>, n: int) -> Seq<char>
    decreases n,
{
    if n <= 0 {
        Seq::empty()
    } else {
        drawn_lines(lines, n - 1) + line_text(lines, n - 1) + seq!['\n']
    }
}

/// The box that holds the shell's root marker, in red.
pub open spec fn dollar_box_text(shell: ShellType) -> Seq<char> {
    shell.col_spec(color::RED as nat) + shell.dollar_escape() + shell.reset_spec()
}

/// The whole prompt: the lines, then the line with the input marker.
pub open spec fn rendered(shell: ShellType, lines: Seq<PromptLine>) -> Seq<char> {
    drawn_lines(lines, lines.len() as int) + seq!['└', '─'] + dollar_box_text(shell) + seq![' ']
}

/// The line that every prompt opens with: working directory and host name.
pub open spec fn is_start_line(l: PromptLine, shell: ShellType) -> bool {
    &&& l.level == 0
    &&& l.line_type == PromptLineType::Boxed
    &&& l.shell == shell
    &&& l.parts@.len() == 2
    &&& is_box(l.parts@[0], shell.dir_escape(), color::MAGENTA, false, shell)
    &&& is_box(l.parts@[1], shell.hostname_escape(), color::MAGENTA, false, shell)
}

/// Returns the box-drawing character that joins the directions in `flags`.
pub fn get_line(flags: i16) -> (r: char)
    requires
        joinable(flags),
    ensures
        r == joint_char(flags),
{
    if flags == 15 {
        '┼'
    } else if flags == 14 {
        '┤'
    } else if flags == 13 {
        '├'
    } else if flags == 12 {
        '│'
    } else if flags == 11 {
        '┴'
    } else if flags == 10 {
        '┘'
    } else if flags == 9 {
        '└'
    } else if flags == 6 {
        '┐'
    } else if flags == 5 {
        '┌'
    } else if flags == 7 {
        '┬'
    } else {
        '─'
    }
}

fn joint_str(flags: i16) -> (r: &'static str)
    requires
        joinable(flags),
    ensures
        r@ == seq![joint_char(flags)],
{
    proof {
        reveal_strlit("┼");
        reveal_strlit("┤");
        reveal_strlit("├");
        reveal_strlit("│");
        reveal_strlit("┴");
        reveal_strlit("┘");
        reveal_strlit("└");
        reveal_strlit("┐");
        reveal_strlit("┌");
        reveal_strlit("┬");
        reveal_strlit("─");
    }
    let r = if flags == 15 {
        "┼"
    } else if flags == 14 {
        "┤"
    } else if flags == 13 {
        "├"
    } else if flags == 12 {
        "│"
    } else if flags == 11 {
        "┴"
    } else if flags == 10 {
        "┘"
    } else if flags == 9 {
        "└"
    } else if flags == 6 {
        "┐"
    } else if flags == 5 {
        "┌"
    } else if flags == 7 {
        "┬"
    } else {
        "─"
    };
    assert(r@ =~= seq![joint_char(flags)]);
    r
}

fn exec_joint_flags(current: usize, after: usize, start: usize, i: usize, has_above: bool, boxed: bool) -> (r: i16)
    ensures
        r == joint_flags(current as int, after as int, start as int, i as int, has_above, boxed),
{
    let top: i16 = if i == current && has_above { TOP } else { 0 };
    let bottom: i16 = if i == after { BOTTOM } else { 0 };
    let left: i16 = if i > start { LEFT } else { 0 };
    let right: i16 = if boxed || i != current { RIGHT } else { 0 };
    top + bottom + left + right
}

/// Returns the rule that trails off a boxed line.
pub fn trail_off() -> (r: String)
    ensures
        r@ == trail(),
{
    let mut r = String::new();
    let mut k: usize = 0;
    assert(r@ =~= Seq::new(0, |j: int| '─'));
    while k < 10
        invariant
            k <= 10,
            r@ == Seq::new(k as nat, |j: int| '─'),
        decreases 10 - k,
    {
        proof {
            reveal_strlit("─");
        }
        r.append("─");
        k = k + 1;
        assert(r@ =~= Seq::new(k as nat, |j: int| '─'));
    }
    assert(r@ =~= trail());
    r
}


fn is_joinable(flags: i16) -> (r: bool)
    ensures
        r == joinable(flags),
{
    0 < flags && flags <= TOP + BOTTOM + LEFT + RIGHT && flags != TOP && flags != BOTTOM && flags
        != LEFT && flags != RIGHT
}

/// Where the joints of line `ix` start and end, and the level below it.
fn span_of(lines: &Vec<PromptLine>, ix: usize) -> (r: (usize, usize, usize))
    requires
        ix < lines@.len(),
    ensures
        r.0 == after_level(lines@, ix as int),
        r.1 == span_start(lines@, ix as int),
        r.2 == span_end(lines@, ix as int),
        r.2 <= u8::MAX,
{
    let current = lines[ix].level as usize;
    if ix < lines.len() - 1 {
        let after = lines[ix + 1].level as usize;
        let start = if current <= after { current } else { after };
        let end = if current < after { after } else { current };
        (after, start, end)
    } else {
        (0, 0, current)
    }
}

/// Whether `lines` can be drawn: see `drawable`.
pub fn is_drawable(lines: &Vec<PromptLine>) -> (r: bool)
    ensures
        r == drawable(lines@),
{
    let n = lines.len();
    let mut ix: usize = 0;
    while ix < n
        invariant
            n == lines@.len(),
            ix <= n,
            forall|x: int, i: int|
                0 <= x < ix && span_start(lines@, x) <= i <= span_end(lines@, x) ==> joinable(
                    #[trigger] line_flags(lines@, x, i),
                ),
            forall|x: int| 0 <= x < ix ==> (#[trigger] lines@[x]).wf(),
        decreases n - ix,
    {
        let (after, start, end) = span_of(lines, ix);
        let current = lines[ix].level as usize;
        let boxed = lines[ix].line_type == PromptLineType::Boxed;
        let mut i = start;
        while i <= end
            invariant
                n == lines@.len(),
                ix < n,
                after == after_level(lines@, ix as int),
                start == span_start(lines@, ix as int),
                end == span_end(lines@, ix as int),
                end <= u8::MAX,
                current == lines@[ix as int].level,
                boxed == (lines@[ix as int].line_type == PromptLineType::Boxed),
                start <= i <= end + 1,
                forall|i2: int| start <= i2 < i ==> joinable(#[trigger] line_flags(lines@, ix as int, i2)),
            decreases end + 1 - i,
        {
            let f = exec_joint_flags(current, after, start, i, ix > 0, boxed);
            if !is_joinable(f) {
                assert(!joinable(line_flags(lines@, ix as int, i as int)));
                return false;
            }
            i = i + 1;
        }
        let parts = &lines[ix].parts;
        let mut j: usize = 0;
        while j < parts.len()
            invariant
                n == lines@.len(),
                ix < n,
                parts@ == lines@[ix as int].parts@,
                j <= parts@.len(),
                forall|j2: int| 0 <= j2 < j ==> (#[trigger] parts@[j2]).wf(),
            decreases parts@.len() - j,
        {
            if parts[j].color > u32::MAX - 30 {
                assert(!parts@[j as int].wf());
                assert(!lines@[ix as int].wf());
                return false;
            }
            j = j + 1;
        }
        assert(lines@[ix as int].wf());
        ix = ix + 1;
    }
    true
}

fn render_line(lines: &Vec<PromptLine>, ix: usize) -> (r: String)
    requires
        ix < lines@.len(),
        drawable(lines@),
    ensures
        r@ == line_text(lines@, ix as int),
{
    let ghost ls = lines@;
    let (after, start, end) = span_of(lines, ix);
    let current = lines[ix].level as usize;
    let boxed = lines[ix].line_type == PromptLineType::Boxed;
    let mut t = String::new();
    let mut k: usize = 0;
    assert(t@ =~= blanks(0));
    while k < start
        invariant
            k <= start,
            t@ == blanks(k as int),
        decreases start - k,
    {
        proof {
            reveal_strlit(" ");
        }
        t.append(" ");
        k = k + 1;
        assert(t@ =~= blanks(k as int));
    }
    let mut i = start;
    assert(t@ =~= blanks(start as int) + Seq::new(0, |j: int| joint_char(line_flags(ls, ix as int, start + j))));
    while i <= end
        invariant
            ls == lines@,
            ix < ls.len(),
            drawable(ls),
            after == after_level(ls, ix as int),
            start == span_start(ls, ix as int),
            end == span_end(ls, ix as int),
            end <= u8::MAX,
            current == ls[ix as int].level,
            boxed == (ls[ix as int].line_type == PromptLineType::Boxed),
            start <= i <= end + 1,
            t@ == blanks(start as int) + Seq::new(
                (i - start) as nat,
                |j: int| joint_char(line_flags(ls, ix as int, start + j)),
            ),
        decreases end + 1 - i,
    {
        let f = exec_joint_flags(current, after, start, i, ix > 0, boxed);
        assert(f == line_flags(ls, ix as int, i as int));
        assert(joinable(line_flags(ls, ix as int, i as int)));
        let piece = joint_str(f);
        t.append(piece);
        i = i + 1;
        assert(t@ =~= blanks(start as int) + Seq::new(
            (i - start) as nat,
            |j: int| joint_char(line_flags(ls, ix as int, start + j)),
        ));
    }
    assert(t@ =~= blanks(start as int) + joints(ls, ix as int));
    let parts = &lines[ix].parts;
    let line_type = lines[ix].line_type;
    let mut j: usize = 0;
    assert(parts@.take(0) =~= Seq::<PromptBox>::empty());
    while j < parts.len()
        invariant
            ls == lines@,
            ix < ls.len(),
            drawable(ls),
            parts@ == ls[ix as int].parts@,
            line_type == ls[ix as int].line_type,
            j <= parts@.len(),
            t@ == blanks(start as int) + joints(ls, ix as int) + box_pieces(parts@.take(j as int), line_type),
        decreases parts@.len() - j,
    {
        assert(ls[ix as int].wf());
        assert(parts@[j as int].wf());
        let text = parts[j].render();
        let ghost before = t@;
        match line_type {
            PromptLineType::Boxed => {
                proof {
                    reveal_strlit("─┤");
                    reveal_strlit("├");
                }
                t.append("─┤");
                t.append(text.as_str());
                t.append("├");
            },
            PromptLineType::Free => {
                proof {
                    reveal_strlit(" ");
                }
                t.append(" ");
                t.append(text.as_str());
            },
        }
        assert(parts@.take(j + 1).drop_last() =~= parts@.take(j as int));
        assert(t@ =~= before + box_piece(parts@[j as int], line_type));
        j = j + 1;
    }
    assert(parts@.take(parts@.len() as int) =~= parts@);
    if boxed {
        let rule = trail_off();
        t.append(rule.as_str());
    } else {
        assert(t@ =~= t@ + Seq::<char>::empty());
    }
    t
}

/// Draws `lines`, then the line where input goes.
pub fn render_lines(shell: ShellType, lines: &Vec<PromptLine>) -> (r: String)
    requires
        drawable(lines@),
    ensures
        r@ == rendered(shell, lines@),
{
    let mut out = String::new();
    let n = lines.len();
    let mut ix: usize = 0;
    assert(out@ =~= drawn_lines(lines@, 0));
    while ix < n
        invariant
            n == lines@.len(),
            ix <= n,
            drawable(lines@),
            out@ == drawn_lines(lines@, ix as int),
        decreases n - ix,
    {
        let text = render_line(lines, ix);
        proof {
            reveal_strlit("\n");
        }
        out.append(text.as_str());
        out.append("\n");
        ix = ix + 1;
        assert(out@ =~= drawn_lines(lines@, ix as int));
    }
    proof {
        reveal_strlit("└─");
        reveal_strlit(" ");
    }
    out.append("└─");
    let marker = PromptBox::new(String::from_str(shell.dollar()), color::RED, false, shell);
    let text = marker.render();
    out.append(text.as_str());
    out.append(" ");
    assert(out@ =~= rendered(shell, lines@));
    out
}

/// Implement this trait to add lines to a `PromptBuffer`'s result.
pub trait PromptBufferPlugin {
    /// Appends as many lines as it wants to `lines`; `path` is the directory
    /// that the prompt is for.
    fn run(&mut self, speed: PluginSpeed, shell: ShellType, path: &str, lines: &mut Vec<PromptLine>);
}

/// Holds the plugins of a prompt and the directory it is drawn for, and
/// draws it.
pub struct PromptBuffer<P> {
    pub plugins: Vec<P>,
    pub path: String,
    pub shell: ShellType,
}

/// What a prompt looks like when its lines are `lines`: they open with the
/// start line and can be drawn.
pub open spec fn is_prompt_of(shell: ShellType, lines: Seq<PromptLine>, r: Seq<char>) -> bool {
    &&& lines.len() >= 1
    &&& is_start_line(lines[0], shell)
    &&& drawable(lines)
    &&& r == rendered(shell, lines)
}

pub proof fn lemma_rendered_nonempty(shell: ShellType, lines: Seq<PromptLine>)
    ensures
        rendered(shell, lines).len() > 0,
{
}

impl<P: PromptBufferPlugin> PromptBuffer<P> {
    /// A prompt for `shell`, with no plugins, for the empty path.
    pub fn new(shell: ShellType) -> (r: PromptBuffer<P>)
        ensures
            r.shell == shell,
            r.plugins@.len() == 0,
            r.path@.len() == 0,
    {
        PromptBuffer { plugins: Vec::new(), path: String::new(), shell }
    }

    /// Appends the line that every prompt opens with.
    pub fn start(&self, lines: &mut Vec<PromptLine>)
        ensures
            final(lines)@.len() == old(lines)@.len() + 1,
            final(lines)@.drop_last() == old(lines)@,
            is_start_line(final(lines)@.last(), self.shell),
    {
        let shell = self.shell;
        let line = PromptLineBuilder::new(shell).block(shell.dir()).block(shell.hostname()).build();
        lines.push(line);
        assert(final(lines)@.drop_last() =~= old(lines)@);
    }

    /// Adds a plugin to the prompt buffer
    ///
    /// They will be executed in order
    pub fn add_plugin(&mut self, plugin: P)
        ensures
            final(self).plugins@ == old(self).plugins@.push(plugin),
            final(self).path == old(self).path,
            final(self).shell == old(self).shell,
    {
        self.plugins.push(plugin);
    }

    /// Store the new path for the PromptBuffer.
    ///
    /// This is sent in as context to PromptBufferPlugins
    pub fn set_path(&mut self, p: String)
        ensures
            final(self).path@ == p@,
            final(self).plugins@ == old(self).plugins@,
            final(self).shell == old(self).shell,
    {
        self.path = p;
    }

    /// Draws the prompt. Unless `speed` is `Ignored`, the plugins run first,
    /// in order, and add their lines below the start line; where what they
    /// add cannot be drawn, the prompt is drawn without it.
    pub fn convert_to_string_ext(&mut self, speed: PluginSpeed) -> (r: String)
        ensures
            final(self).plugins@.len() == old(self).plugins@.len(),
            final(self).path@ == old(self).path@,
            final(self).shell == old(self).shell,
            exists|lines: Seq<PromptLine>| is_prompt_of(old(self).shell, lines, r@),
            speed == PluginSpeed::Ignored ==> exists|l: PromptLine|
                is_start_line(l, old(self).shell) && r@ == rendered(old(self).shell, seq![l]),
            r@.len() > 0,
    {
        let shell = self.shell;
        let mut lines: Vec<PromptLine> = Vec::new();
        self.start(&mut lines);
        let ghost first = lines@[0];
        assert(lines@ =~= seq![first]);
        assert(drawable(lines@)) by {
            assert forall|ix: int, i: int|
                0 <= ix < lines@.len() && span_start(lines@, ix) <= i <= span_end(lines@, ix)
                implies joinable(#[trigger] line_flags(lines@, ix, i)) by {
                assert(ix == 0 && i == 0);
            }
            assert forall|ix: int| 0 <= ix < lines@.len() implies (#[trigger] lines@[ix]).wf() by {
                assert forall|j: int| 0 <= j < lines@[ix].parts@.len() implies #[trigger] lines@[ix].parts@[j].wf() by {
                    assert(j == 0 || j == 1);
                }
            }
        }
        if !speed.is_ignored() {
            let mut added: Vec<PromptLine> = Vec::new();
            let mut pending: Vec<P> = Vec::new();
            std::mem::swap(&mut pending, &mut self.plugins);
            let ghost count = pending@.len();
            let ghost path = self.path@;
            while pending.len() > 0
                invariant
                    self.plugins@.len() + pending@.len() == count,
                    self.shell == shell,
                    self.path@ == path,
                decreases pending@.len(),
            {
                let mut plugin = pending.remove(0);
                plugin.run(speed, shell, self.path.as_str(), &mut added);
                self.plugins.push(plugin);
            }
            let mut all: Vec<PromptLine> = Vec::new();
            self.start(&mut all);
            all.append(&mut added);
            if is_drawable(&all) {
                let r = render_lines(shell, &all);
                proof {
                    lemma_rendered_nonempty(shell, all@);
                    assert(all@[0] == all@.drop_last().push(all@.last())[0]);
                }
                assert(is_prompt_of(shell, all@, r@));
                return r;
            }
        }
        let r = render_lines(shell, &lines);
        proof {
            lemma_rendered_nonempty(shell, lines@);
        }
        assert(is_prompt_of(shell, lines@, r@));
        r
    }

    /// Returns the prompt with plugins run
    pub fn convert_to_string(&mut self) -> (r: String)
        ensures
            final(self).plugins@.len() == old(self).plugins@.len(),
            final(self).path@ == old(self).path@,
            final(self).shell == old(self).shell,
            exists|lines: Seq<PromptLine>| is_prompt_of(old(self).shell, lines, r@),
            r@.len() > 0,
    {
        self.convert_to_string_ext(PluginSpeed::Slow)
    }
}

} // verus!
