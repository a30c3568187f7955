//! What travels over the daemon's socket: a request names a directory and a
//! shell dialect; a reply is prompt text, to which a marker is appended when
//! the daemon is about to restart.

use vstd::prelude::*;
use crate::shell::ShellType;

verus! {

/// One independent cache line: a working directory and a shell dialect.
pub struct Key {
    pub path: String,
    pub shell: ShellType,
}

impl View for Key {
    type V = (Seq<char>, ShellType);

    open spec fn view(&self) -> (Seq<char>, ShellType) {
        (self.path@, self.shell)
    }
}

impl Key {
    /// Whether two keys name the same cache line.
    pub fn same(&self, other: &Key) -> (r: bool)
        ensures
            r == (self@ == other@),
    {
        self.shell == other.shell && self.path == other.path
    }

}

/// The first index at or after `from` that holds a blank, or the length of
/// `s` where there is none.
pub open spec fn field_end(s: Seq<char>, from: int) -> int
    decreases s.len() - from,
{
    if from < 0 || from >= s.len() {
        s.len() as int
    } else if s[from] == ' ' {
        from
    } else {
        field_end(s, from + 1)
    }
}

/// The dialect a name in a request stands for; an unknown name means bash.
pub open spec fn shell_named(name: Seq<char>) -> ShellType {
    if name == "Zsh"@ {
        ShellType::Zsh
    } else {
        ShellType::Bash
    }
}

/// What a request payload asks for. The versioned form is `!2 `, the path,
/// a blank, and the dialect's name, with anything after a further blank
/// ignored; it names no key when the blank after the path is missing. Any
/// other payload is the path itself, for bash.
pub open spec fn parsed_request(p: Seq<char>) -> Option<(Seq<char>, ShellType)> {
    if p.len() >= 3 && p.take(3) == "!2 "@ {
        let path_end = field_end(p, 3);
        if path_end < p.len() {
            Some((p.subrange(3, path_end), shell_named(p.subrange(path_end + 1, field_end(p, path_end + 1)))))
        } else {
            None
        }
    } else {
        Some((p, ShellType::Bash))
    }
}

/// The versioned request for `path` in `shell`.
pub open spec fn request_text(path: Seq<char>, shell: ShellType) -> Seq<char> {
    "!2 "@ + path + " "@ + shell.name_spec()
}

/// The marker appended to a reply when the daemon restarts after it.
pub open spec fn restart_marker() -> Seq<char> {
    "♻  "@
}

proof fn lemma_field_end(s: Seq<char>, from: int, end: int)
    requires
        0 <= from <= end <= s.len(),
        forall|k: int| from <= k < end ==> s[k] != ' ',
        end == s.len() || s[end] == ' ',
    ensures
        field_end(s, from) == end,
    decreases end - from,
{
    if from < end {
        lemma_field_end(s, from + 1, end);
    }
}

fn find_blank(s: &str, from: usize) -> (r: usize)
    requires
        from <= s@.len(),
    ensures
        r == field_end(s@, from as int),
        from <= r <= s@.len(),
{
    let n = s.unicode_len();
    let mut i = from;
    while i < n && s.get_char(i) != ' '
        invariant
            n == s@.len(),
            from <= i <= n,
            field_end(s@, from as int) == field_end(s@, i as int),
        decreases n - i,
    {
        i = i + 1;
    }
    i
}

fn shell_from_name(name: &str) -> (r: ShellType)
    ensures
        r == shell_named(name@),
{
    proof {
        reveal_strlit("Zsh");
    }
    if name.unicode_len() == 3 && name.get_char(0) == 'Z' && name.get_char(1) == 's' && name.get_char(2) == 'h' {
        assert(name@ =~= "Zsh"@);
        ShellType::Zsh
    } else {
        ShellType::Bash
    }
}

/// Reads the key that a request payload names, if it names one.
pub fn parse_request(payload: &str) -> (r: Option<Key>)
    ensures
        r matches Some(k) <==> parsed_request(payload@) is Some,
        r matches Some(k) ==> parsed_request(payload@) == Some(k@),
{
    proof {
        reveal_strlit("!2 ");
    }
    let n = payload.unicode_len();
    if n >= 3 && payload.get_char(0) == '!' && payload.get_char(1) == '2' && payload.get_char(2) == ' ' {
        assert(payload@.take(3) =~= "!2 "@);
        let path_end = find_blank(payload, 3);
        if path_end >= n {
            return None;
        }
        let name_end = find_blank(payload, path_end + 1);
        let path = String::from_str(payload.substring_char(3, path_end));
        let shell = shell_from_name(payload.substring_char(path_end + 1, name_end));
        Some(Key { path, shell })
    } else {
        assert(payload@.len() >= 3 ==> payload@.take(3) != "!2 "@) by {
            if payload@.len() >= 3 && payload@.take(3) == "!2 "@ {
                assert(payload@.take(3)[0] == '!');
                assert(payload@.take(3)[1] == '2');
                assert(payload@.take(3)[2] == ' ');
            }
        }
        Some(Key { path: String::from_str(payload), shell: ShellType::Bash })
    }
}

/// Writes the versioned request for `path` in `shell`.
pub fn encode_request(path: &str, shell: ShellType) -> (r: String)
    ensures
        r@ == request_text(path@, shell),
{
    let mut r = String::from_str("!2 ");
    r.append(path);
    r.append(" ");
    r.append(shell.name());
    r
}

/// A request for a path without blanks reads back as the key it was written
/// for.
pub proof fn lemma_request_round_trip(path: Seq<char>, shell: ShellType)
    requires
        forall|i: int| 0 <= i < path.len() ==> path[i] != ' ',
    ensures
        parsed_request(request_text(path, shell)) == Some((path, shell)),
{
    reveal_strlit("!2 ");
    reveal_strlit(" ");
    reveal_strlit("Bash");
    reveal_strlit("Zsh");
    let p = request_text(path, shell);
    let path_end: int = 3 + path.len() as int;
    assert(p.take(3) =~= "!2 "@);
    assert(p[path_end] == ' ');
    lemma_field_end(p, 3, path_end);
    lemma_field_end(p, path_end + 1, p.len() as int);
    assert(p.subrange(3, path_end) =~= path);
    assert(p.subrange(path_end + 1, p.len() as int) =~= shell.name_spec());
}

/// The reply to a request: the prompt text, followed by the restart marker
/// when the daemon is about to exit.
pub fn reply_text(answer: &str, restarting: bool) -> (r: String)
    ensures
        r@ == (if restarting {
            answer@ + restart_marker()
        } else {
            answer@
        }),
{
    let mut r = String::from_str(answer);
    if restarting {
        r.append("♻  ");
    }
    r
}

} // verus!
