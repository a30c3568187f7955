//! The lines that describe a git repository: the status of each changed
//! file, the commits not yet pushed, and the branch. The repository is read
//! by the caller; what is read arrives here as plain values.

use vstd::prelude::*;
use crate::buffer::PluginSpeed;
use crate::color;
use crate::paths::{join, joined, make_relative, relative_to};
use crate::line::{is_box, PromptLine, PromptLineType};
use crate::shell::ShellType;
use crate::text::opt_text;

verus! {

/// The flags of a file's status, as libgit2 numbers them.
pub const INDEX_NEW: u32 = 1;

pub const INDEX_MODIFIED: u32 = 2;

pub const INDEX_DELETED: u32 = 4;

pub const INDEX_RENAMED: u32 = 8;

pub const INDEX_TYPECHANGE: u32 = 16;

pub const WT_NEW: u32 = 128;

pub const WT_MODIFIED: u32 = 256;

pub const WT_DELETED: u32 = 512;

pub const WT_TYPECHANGE: u32 = 1024;

pub const WT_RENAMED: u32 = 2048;

/// What happened to a file, in the index or in the working tree.
#[derive(Debug, Clone, Copy, PartialEq, Eq, Structural)]
pub enum StatusTypes {
    New,
    Modified,
    Deleted,
    Renamed,
    TypeChange,
    Untracked,
    Clean,
}

/// `bits` has `flag` set.
pub open spec fn has(bits: u32, flag: u32) -> bool {
    bits & flag == flag
}

/// The state of a file in the index, by the first flag that applies.
pub open spec fn index_state(bits: u32) -> StatusTypes {
    if has(bits, INDEX_NEW) {
        StatusTypes::New
    } else if has(bits, INDEX_MODIFIED) {
        StatusTypes::Modified
    } else if has(bits, INDEX_DELETED) {
        StatusTypes::Deleted
    } else if has(bits, INDEX_RENAMED) {
        StatusTypes::Renamed
    } else if has(bits, INDEX_TYPECHANGE) {
        StatusTypes::TypeChange
    } else if has(bits, WT_NEW) {
        StatusTypes::Untracked
    } else {
        StatusTypes::Clean
    }
}

/// The state of a file in the working tree, by the first flag that applies.
pub open spec fn workdir_state(bits: u32) -> StatusTypes {
    if has(bits, WT_NEW) {
        StatusTypes::Untracked
    } else if has(bits, WT_MODIFIED) {
        StatusTypes::Modified
    } else if has(bits, WT_DELETED) {
        StatusTypes::Deleted
    } else if has(bits, WT_RENAMED) {
        StatusTypes::Renamed
    } else if has(bits, WT_TYPECHANGE) {
        StatusTypes::TypeChange
    } else {
        StatusTypes::Clean
    }
}

/// The letter that stands for a state.
pub open spec fn state_letter(s: StatusTypes) -> Seq<char> {
    match s {
        StatusTypes::Clean => " "@,
        StatusTypes::Deleted => "D"@,
        StatusTypes::Modified => "M"@,
        StatusTypes::New => "A"@,
        StatusTypes::Renamed => "R"@,
        StatusTypes::TypeChange => "T"@,
        StatusTypes::Untracked => "?"@,
    }
}

/// The colour of a file in a state.
pub open spec fn state_color(s: StatusTypes) -> u32 {
    match s {
        StatusTypes::Clean | StatusTypes::Untracked => color::WHITE,
        StatusTypes::Deleted => color::RED,
        StatusTypes::Modified => color::BLUE,
        StatusTypes::New => color::GREEN,
        StatusTypes::Renamed => color::CYAN,
        StatusTypes::TypeChange => color::YELLOW,
    }
}

impl StatusTypes {
    /// Returns the letter that stands for the state.
    pub fn letter(&self) -> (r: &'static str)
        ensures
            r@ == state_letter(*self),
    {
        match *self {
            StatusTypes::Clean => " ",
            StatusTypes::Deleted => "D",
            StatusTypes::Modified => "M",
            StatusTypes::New => "A",
            StatusTypes::Renamed => "R",
            StatusTypes::TypeChange => "T",
            StatusTypes::Untracked => "?",
        }
    }

    /// Returns the colour of a file in the state.
    pub fn file_state_color(&self) -> (r: u32)
        ensures
            r == state_color(*self),
    {
        match *self {
            StatusTypes::Clean | StatusTypes::Untracked => color::WHITE,
            StatusTypes::Deleted => color::RED,
            StatusTypes::Modified => color::BLUE,
            StatusTypes::New => color::GREEN,
            StatusTypes::Renamed => color::CYAN,
            StatusTypes::TypeChange => color::YELLOW,
        }
    }
}

/// A file's state in the index and in the working tree.
#[derive(Debug, Clone, Copy, PartialEq, Eq, Structural)]
pub struct GitStatus {
    pub index: StatusTypes,
    pub workdir: StatusTypes,
}

fn flag_set(bits: u32, flag: u32) -> (r: bool)
    ensures
        r == has(bits, flag),
{
    bits & flag == flag
}

/// The colour of a status line, and whether it is bold: a change only in the
/// working tree is plain, in the colour of that change; a staged change is
/// bold, in its own colour, or in red where the working tree changed it
/// again.
pub open spec fn entry_style(s: GitStatus) -> (u32, bool) {
    match s.index {
        StatusTypes::Clean => (state_color(s.workdir), false),
        _ => match s.workdir {
            StatusTypes::Clean | StatusTypes::Untracked => (state_color(s.index), true),
            _ => (color::RED, true),
        },
    }
}

impl GitStatus {
    /// Reads a file's status flags.
    pub fn new(bits: u32) -> (r: GitStatus)
        ensures
            r.index == index_state(bits),
            r.workdir == workdir_state(bits),
    {
        let index = if flag_set(bits, INDEX_NEW) {
            StatusTypes::New
        } else if flag_set(bits, INDEX_MODIFIED) {
            StatusTypes::Modified
        } else if flag_set(bits, INDEX_DELETED) {
            StatusTypes::Deleted
        } else if flag_set(bits, INDEX_RENAMED) {
            StatusTypes::Renamed
        } else if flag_set(bits, INDEX_TYPECHANGE) {
            StatusTypes::TypeChange
        } else if flag_set(bits, WT_NEW) {
            StatusTypes::Untracked
        } else {
            StatusTypes::Clean
        };
        let workdir = if flag_set(bits, WT_NEW) {
            StatusTypes::Untracked
        } else if flag_set(bits, WT_MODIFIED) {
            StatusTypes::Modified
        } else if flag_set(bits, WT_DELETED) {
            StatusTypes::Deleted
        } else if flag_set(bits, WT_RENAMED) {
            StatusTypes::Renamed
        } else if flag_set(bits, WT_TYPECHANGE) {
            StatusTypes::TypeChange
        } else {
            StatusTypes::Clean
        };
        GitStatus { index, workdir }
    }

    /// The two letters of the status: index, then working tree.
    pub fn text(&self) -> (r: String)
        ensures
            r@ == state_letter(self.index) + state_letter(self.workdir),
    {
        let mut r = String::from_str(self.index.letter());
        r.append(self.workdir.letter());
        r
    }

    /// The colour and weight of the status line.
    pub fn style(&self) -> (r: (u32, bool))
        ensures
            r == entry_style(*self),
    {
        match self.index {
            StatusTypes::Clean => (self.workdir.file_state_color(), false),
            _ => match self.workdir {
                StatusTypes::Clean | StatusTypes::Untracked => (self.index.file_state_color(), true),
                _ => (color::RED, true),
            },
        }
    }
}

/// Where a change happened: one path, or the old and new path of a move.
pub open spec fn location(old: Seq<char>, new: Seq<char>) -> Seq<char> {
    if old == new {
        old
    } else {
        old + " -> "@ + new
    }
}

/// Writes where a change happened.
pub fn location_text(old: &str, new: &str) -> (r: String)
    ensures
        r@ == location(old@, new@),
{
    let a = String::from_str(old);
    let b = String::from_str(new);
    if a == b {
        a
    } else {
        let mut r = a;
        r.append(" -> ");
        r.append(new);
        r
    }
}

/// `l` is the line for a changed file with status `status` at `place`: a
/// free line one level in, holding the status letters, a blank and the
/// place, styled by `entry_style`.
pub open spec fn is_status_line(l: PromptLine, shell: ShellType, status: GitStatus, place: Seq<char>) -> bool {
    &&& l.level == 1
    &&& l.line_type == PromptLineType::Free
    &&& l.shell == shell
    &&& l.parts@.len() == 1
    &&& is_box(
        l.parts@[0],
        state_letter(status.index) + state_letter(status.workdir) + " "@ + place,
        entry_style(status).0,
        entry_style(status).1,
        shell,
    )
}

/// The line for one changed file.
pub fn status_entry_line(shell: ShellType, status: GitStatus, place: &str) -> (r: PromptLine)
    ensures
        is_status_line(r, shell, status, place@),
{
    let mut val = status.text();
    val.append(" ");
    val.append(place);
    let (c, bold) = status.style();
    let b = shell.new_free_line();
    let b = if bold {
        b.bold_colored_block(val.as_str(), c)
    } else {
        b.colored_block(val.as_str(), c)
    };
    assert(b.line.parts@.len() == 1);
    b.indent().build()
}

/// A boxed line at level 0 with one cyan block.
pub open spec fn is_title_line(l: PromptLine, text: Seq<char>, level: int, shell: ShellType) -> bool {
    &&& l.level == level
    &&& l.line_type == PromptLineType::Boxed
    &&& l.shell == shell
    &&& l.parts@.len() == 1
    &&& is_box(l.parts@[0], text, color::CYAN, false, shell)
}

/// The line that heads the file statuses.
pub fn status_header(shell: ShellType) -> (r: PromptLine)
    ensures
        is_title_line(r, "Git Status"@, 0, shell),
{
    shell.new_line().colored_block("Git Status", color::CYAN).build()
}

/// The line that heads the outgoing commits; one level in when statuses
/// stand above it.
pub fn outgoing_header(shell: ShellType, has_status: bool) -> (r: PromptLine)
    ensures
        is_title_line(r, "Git Outgoing"@, if has_status { 1 } else { 0 }, shell),
{
    shell.new_line().colored_block("Git Outgoing", color::CYAN).indent_by(if has_status { 1 } else { 0 }).build()
}

/// `l` is the line for an outgoing commit: a free line one level in, with
/// the reset sequence, the commit's short id, a blank and its summary.
pub open spec fn is_commit_line(l: PromptLine, shell: ShellType, short_id: Seq<char>, summary: Seq<char>) -> bool {
    &&& l.level == 1
    &&& l.line_type == PromptLineType::Free
    &&& l.shell == shell
    &&& l.parts@.len() == 1
    &&& is_box(l.parts@[0], shell.reset_spec() + short_id + " "@ + summary, color::MAGENTA, false, shell)
}

/// The line for one outgoing commit.
pub fn outgoing_line(shell: ShellType, short_id: &str, summary: &str) -> (r: PromptLine)
    ensures
        is_commit_line(r, shell, short_id@, summary@),
{
    let mut text = shell.reset();
    text.append(short_id);
    text.append(" ");
    text.append(summary);
    shell.new_free_line().indent().block(text.as_str()).build()
}

/// What the branch line says, given the branch's name and its upstream's.
pub open spec fn branch_text(shell: ShellType, name: Option<Seq<char>>, upstream: Option<Seq<char>>) -> Seq<char> {
    match (name, upstream) {
        (None, None) => "New Repository"@,
        (Some(n), None) => n,
        (Some(n), Some(u)) => n + shell.reset_spec() + " -> "@ + shell.col_spec(color::MAGENTA as nat) + u,
        (None, Some(_)) => "Unknown branch state"@,
    }
}

/// Writes what the branch line says.
pub fn branch_label(shell: ShellType, name: Option<String>, upstream: Option<String>) -> (r: String)
    ensures
        r@ == branch_text(shell, opt_text(name), opt_text(upstream)),
{
    match (name, upstream) {
        (None, None) => String::from_str("New Repository"),
        (Some(n), None) => n,
        (Some(n), Some(u)) => {
            let mut r = n;
            let reset = shell.reset();
            r.append(reset.as_str());
            r.append(" -> ");
            let col = shell.col(color::MAGENTA);
            r.append(col.as_str());
            r.append(u.as_str());
            r
        },
        (None, Some(_)) => String::from_str("Unknown branch state"),
    }
}

/// The branch line; one level in when statuses or commits stand above it.
pub fn branch_line(shell: ShellType, name: Option<String>, upstream: Option<String>, indented: bool) -> (r: PromptLine)
    ensures
        is_title_line(
            r,
            branch_text(shell, opt_text(name), opt_text(upstream)),
            if indented { 1 } else { 0 },
            shell,
        ),
{
    let label = branch_label(shell, name, upstream);
    shell.new_line().colored_block(label.as_str(), color::CYAN).indent_by(if indented { 1 } else { 0 }).build()
}

/// One changed file, as read from the repository.
pub struct FileChange {
    /// Its status flags.
    pub bits: u32,
    /// The old and new path of the change, relative to the working tree,
    /// where a diff is at hand.
    pub delta: Option<(String, String)>,
    /// The path the status entry names, used where no diff is at hand.
    pub path: String,
}

/// A path under the working tree, relative to `base`, or `/` where it has
/// no relation to `base`.
pub open spec fn place_of(workdir: Seq<char>, base: Seq<char>, file: Seq<char>) -> Seq<char> {
    match relative_to(joined(workdir, file), base, base.len()) {
        Some(r) => r,
        None => "/"@,
    }
}

/// Where a change is shown to have happened.
pub open spec fn change_place(workdir: Seq<char>, base: Seq<char>, c: FileChange) -> Seq<char> {
    match c.delta {
        Some(d) => location(place_of(workdir, base, d.0@), place_of(workdir, base, d.1@)),
        None => c.path@,
    }
}

/// `r` is the status section for `changes`: nothing when there is no
/// change, else the heading and one line per change, in order.
pub open spec fn is_status_section(
    r: Seq<PromptLine>,
    shell: ShellType,
    workdir: Seq<char>,
    base: Seq<char>,
    changes: Seq<FileChange>,
) -> bool {
    if changes.len() == 0 {
        r.len() == 0
    } else {
        &&& r.len() == changes.len() + 1
        &&& is_title_line(r[0], "Git Status"@, 0, shell)
        &&& forall|i: int|
            0 <= i < changes.len() ==> is_status_line(
                #[trigger] r[i + 1],
                shell,
                GitStatus { index: index_state(changes[i].bits), workdir: workdir_state(changes[i].bits) },
                change_place(workdir, base, changes[i]),
            )
    }
}

fn place_text(workdir: &str, base: &str, file: &str) -> (r: String)
    ensures
        r@ == place_of(workdir@, base@, file@),
{
    let full = join(workdir, file);
    match make_relative(full.as_str(), base) {
        Some(r) => r,
        None => String::from_str("/"),
    }
}

/// The status section for the changes of a repository whose working tree is
/// `workdir`, with paths shown relative to `base`.
pub fn status_lines(shell: ShellType, workdir: &str, base: &str, changes: &Vec<FileChange>) -> (r: Vec<PromptLine>)
    ensures
        is_status_section(r@, shell, workdir@, base@, changes@),
{
    let mut r: Vec<PromptLine> = Vec::new();
    if changes.len() == 0 {
        return r;
    }
    r.push(status_header(shell));
    let mut i: usize = 0;
    while i < changes.len()
        invariant
            i <= changes@.len(),
            r@.len() == i + 1,
            is_title_line(r@[0], "Git Status"@, 0, shell),
            forall|j: int|
                0 <= j < i ==> is_status_line(
                    #[trigger] r@[j + 1],
                    shell,
                    GitStatus { index: index_state(changes@[j].bits), workdir: workdir_state(changes@[j].bits) },
                    change_place(workdir@, base@, changes@[j]),
                ),
        decreases changes@.len() - i,
    {
        let c = &changes[i];
        let place = match &c.delta {
            Some(d) => {
                let old = place_text(workdir, base, d.0.as_str());
                let new = place_text(workdir, base, d.1.as_str());
                location_text(old.as_str(), new.as_str())
            },
            None => c.path.clone(),
        };
        let line = status_entry_line(shell, GitStatus::new(c.bits), place.as_str());
        let ghost before = r@;
        r.push(line);
        assert(forall|j: int| 0 <= j < i ==> #[trigger] r@[j + 1] == before[j + 1]);
        i = i + 1;
    }
    r
}

/// One outgoing commit, as read from the repository: its short id, and its
/// summary where it has one.
pub struct CommitInfo {
    pub short_id: String,
    pub summary: Option<String>,
}

/// The commits that have a summary, in order.
pub open spec fn summarized(c: Seq<CommitInfo>) -> Seq<CommitInfo>
    decreases c.len(),
{
    if c.len() == 0 {
        Seq::empty()
    } else if c.last().summary is Some {
        summarized(c.drop_last()).push(c.last())
    } else {
        summarized(c.drop_last())
    }
}

/// `r` is the outgoing section for `commits`: nothing when there is none,
/// else the heading and one line per commit with a summary.
pub open spec fn is_outgoing_section(r: Seq<PromptLine>, shell: ShellType, has_status: bool, commits: Seq<CommitInfo>) -> bool {
    if commits.len() == 0 {
        r.len() == 0
    } else {
        &&& r.len() == summarized(commits).len() + 1
        &&& is_title_line(r[0], "Git Outgoing"@, if has_status { 1 } else { 0 }, shell)
        &&& forall|i: int|
            0 <= i < summarized(commits).len() ==> is_commit_line(
                #[trigger] r[i + 1],
                shell,
                summarized(commits)[i].short_id@,
                summarized(commits)[i].summary->0@,
            )
    }
}

/// The outgoing section for `commits`, one level in when statuses stand
/// above it.
pub fn outgoing_lines(shell: ShellType, has_status: bool, commits: &Vec<CommitInfo>) -> (r: Vec<PromptLine>)
    ensures
        is_outgoing_section(r@, shell, has_status, commits@),
{
    let mut r: Vec<PromptLine> = Vec::new();
    if commits.len() == 0 {
        return r;
    }
    r.push(outgoing_header(shell, has_status));
    let mut i: usize = 0;
    assert(commits@.take(0) =~= Seq::<CommitInfo>::empty());
    while i < commits.len()
        invariant
            i <= commits@.len(),
            r@.len() == summarized(commits@.take(i as int)).len() + 1,
            is_title_line(r@[0], "Git Outgoing"@, if has_status { 1 } else { 0 }, shell),
            forall|j: int|
                0 <= j < summarized(commits@.take(i as int)).len() ==> is_commit_line(
                    #[trigger] r@[j + 1],
                    shell,
                    summarized(commits@.take(i as int))[j].short_id@,
                    summarized(commits@.take(i as int))[j].summary->0@,
                ),
        decreases commits@.len() - i,
    {
        let ghost prev = commits@.take(i as int);
        let ghost next = commits@.take(i as int + 1);
        assert(next.drop_last() =~= prev);
        assert(next.last() == commits@[i as int]);
        let c = &commits[i];
        match &c.summary {
            Some(text) => {
                let line = outgoing_line(shell, c.short_id.as_str(), text.as_str());
                let ghost before = r@;
                r.push(line);
                assert(summarized(next) == summarized(prev).push(commits@[i as int]));
                assert forall|j: int| 0 <= j < summarized(next).len() implies is_commit_line(
                    #[trigger] r@[j + 1],
                    shell,
                    summarized(next)[j].short_id@,
                    summarized(next)[j].summary->0@,
                ) by {
                    if j < summarized(prev).len() {
                        assert(r@[j + 1] == before[j + 1]);
                        assert(summarized(next)[j] == summarized(prev)[j]);
                    }
                }
            },
            None => {
                assert(summarized(next) == summarized(prev));
            },
        }
        i = i + 1;
    }
    assert(commits@.take(commits@.len() as int) =~= commits@);
    r
}

/// Whether file statuses are read at this speed: only at full speed.
pub fn reads_status(speed: PluginSpeed) -> (r: bool)
    ensures
        r == (speed == PluginSpeed::Slow),
{
    match speed {
        PluginSpeed::Slow => true,
        _ => false,
    }
}

/// What a repository contributes to a prompt: the status section (where
/// statuses were read), the outgoing section, one level in below statuses,
/// and the branch line (where the branch could be read), one level in below
/// either section.
pub fn repo_lines(
    shell: ShellType,
    workdir: &str,
    base: &str,
    changes: Option<&Vec<FileChange>>,
    commits: &Vec<CommitInfo>,
    branch: Option<(Option<String>, Option<String>)>,
) -> (r: Vec<PromptLine>)
    ensures
        exists|a: int, b: int|
            0 <= a <= b <= r@.len() && (match changes {
                Some(c) => is_status_section(r@.take(a), shell, workdir@, base@, c@),
                None => a == 0,
            }) && is_outgoing_section(r@.subrange(a, b), shell, a > 0, commits@) && (match branch {
                Some(br) => r@.len() == b + 1 && is_title_line(
                    r@[b],
                    branch_text(shell, opt_text(br.0), opt_text(br.1)),
                    if b > 0 { 1 } else { 0 },
                    shell,
                ),
                None => r@.len() == b,
            }),
{
    let mut r = match changes {
        Some(c) => status_lines(shell, workdir, base, c),
        None => Vec::new(),
    };
    let a = r.len();
    let has_status = a > 0;
    let mut out = outgoing_lines(shell, has_status, commits);
    let ghost first = r@;
    let ghost second = out@;
    r.append(&mut out);
    let b = r.len();
    assert(r@.take(a as int) =~= first);
    assert(r@.subrange(a as int, b as int) =~= second);
    match branch {
        Some(br) => {
            let line = branch_line(shell, br.0, br.1, b > 0);
            r.push(line);
            assert(r@.take(a as int) =~= first);
            assert(r@.subrange(a as int, b as int) =~= second);
        },
        None => {},
    }
    r
}

} // verus!
