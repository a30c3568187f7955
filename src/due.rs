//! The due-date line: a `.due` file in the working directory or above it
//! names a project and when it is due, and the prompt says how far off that
//! is. Reading the file and measuring the time are the caller's; the
//! directories to look in, the unit names and the line are decided here.

use vstd::prelude::*;
use crate::color;
use crate::line::{is_box, PromptLine, PromptLineType};
use crate::paths::{ancestors, climbs, parent_of};
use crate::shell::ShellType;

verus! {

/// What `str::trim` leaves of `s`.
pub uninterp spec fn trimmed(s: Seq<char>) -> Seq<char>;

/// Relies on `str::trim`: `s` without leading and trailing white space.
#[verifier::external_body]
fn trim(s: &str) -> (r: String)
    ensures
        r@ == trimmed(s@),
{
    s.trim().to_string()
}

/// A unit of time, named in the singular and the plural.
pub struct TimePeriod {
    pub singular: String,
    pub plural: String,
}

impl TimePeriod {
    /// A unit whose plural adds an `s`.
    pub fn regular(name: &str) -> (r: TimePeriod)
        ensures
            r.singular@ == name@,
            r.plural@ == name@ + "s"@,
    {
        let mut plural = String::from_str(name);
        plural.append("s");
        TimePeriod { singular: String::from_str(name), plural }
    }

    /// A unit with a plural of its own.
    pub fn irregular(singular: &str, plural: &str) -> (r: TimePeriod)
        ensures
            r.singular@ == singular@,
            r.plural@ == plural@,
    {
        TimePeriod { singular: String::from_str(singular), plural: String::from_str(plural) }
    }
}

/// The units a due date is told in, largest first.
pub fn time_periods() -> (r: Vec<TimePeriod>)
    ensures
        r@.len() == 9,
        r@[0].singular@ == "millenium"@ && r@[0].plural@ == "millenia"@,
        r@[1].singular@ == "century"@ && r@[1].plural@ == "centuries"@,
        r@[2].singular@ == "decade"@ && r@[2].plural@ == "decade"@ + "s"@,
        r@[3].singular@ == "year"@ && r@[3].plural@ == "year"@ + "s"@,
        r@[4].singular@ == "month"@ && r@[4].plural@ == "month"@ + "s"@,
        r@[5].singular@ == "day"@ && r@[5].plural@ == "day"@ + "s"@,
        r@[6].singular@ == "hour"@ && r@[6].plural@ == "hour"@ + "s"@,
        r@[7].singular@ == "minute"@ && r@[7].plural@ == "minute"@ + "s"@,
        r@[8].singular@ == "second"@ && r@[8].plural@ == "second"@ + "s"@,
{
    let mut r: Vec<TimePeriod> = Vec::new();
    r.push(TimePeriod::irregular("millenium", "millenia"));
    r.push(TimePeriod::irregular("century", "centuries"));
    r.push(TimePeriod::regular("decade"));
    r.push(TimePeriod::regular("year"));
    r.push(TimePeriod::regular("month"));
    r.push(TimePeriod::regular("day"));
    r.push(TimePeriod::regular("hour"));
    r.push(TimePeriod::regular("minute"));
    r.push(TimePeriod::regular("second"));
    r
}

/// The text of the due-date line: the project's title and the phrase for
/// the date in magenta, then the distance in red with ` ago` when the date
/// has passed, else in cyan.
pub open spec fn due_text(
    shell: ShellType,
    title: Seq<char>,
    future: Seq<char>,
    past: Seq<char>,
    past_due: bool,
    distance: Seq<char>,
) -> Seq<char> {
    shell.col_spec(color::MAGENTA as nat) + trimmed(title) + " "@ + trimmed(if past_due {
        past
    } else {
        future
    }) + ": "@ + shell.col_spec(
        if past_due {
            color::RED
        } else {
            color::CYAN
        } as nat,
    ) + trimmed(distance) + (if past_due {
        " ago"@
    } else {
        ""@
    })
}

/// Looks for `.due` files in the directories above the working one.
#[derive(Debug, Clone, Copy, Default)]
pub struct DueDatePlugin;

impl DueDatePlugin {
    pub fn new() -> DueDatePlugin {
        DueDatePlugin
    }

    /// The directories to look in for a `.due` file: `path` and each one
    /// above it, nearest first.
    pub fn search_dirs(&self, path: &str) -> (r: Vec<String>)
        ensures
            climbs(r@, path@),
            r@.len() == path@.len() + 1 || parent_of(r@.last()@) is None,
    {
        ancestors(path)
    }

    /// The due-date line for a project: `title`, the phrases `future` and
    /// `past` for a date to come and a date gone, whether the date has
    /// passed, and how far off it is.
    pub fn due_line(
        &self,
        shell: ShellType,
        title: &str,
        future: &str,
        past: &str,
        past_due: bool,
        distance: &str,
    ) -> (r: PromptLine)
        ensures
            r.level == 0,
            r.line_type == PromptLineType::Boxed,
            r.shell == shell,
            r.parts@.len() == 1,
            is_box(
                r.parts@[0],
                due_text(shell, title@, future@, past@, past_due, distance@),
                color::MAGENTA,
                false,
                shell,
            ),
    {
        let mut text = shell.col(color::MAGENTA);
        let t = trim(title);
        text.append(t.as_str());
        text.append(" ");
        let when = if past_due {
            trim(past)
        } else {
            trim(future)
        };
        text.append(when.as_str());
        text.append(": ");
        let c = shell.col(if past_due {
            color::RED
        } else {
            color::CYAN
        });
        text.append(c.as_str());
        let d = trim(distance);
        text.append(d.as_str());
        if past_due {
            text.append(" ago");
        } else {
            proof {
                reveal_strlit("");
            }
            assert(text@ =~= text@ + ""@);
        }
        shell.new_line().block(text.as_str()).build()
    }
}

} // verus!
