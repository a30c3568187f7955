//! Paths as the prompt needs them: relative to a base directory, and the
//! chain of directories above one. The component arithmetic is std's.

use vstd::prelude::*;
use crate::text::opt_text;

verus! {

/// What `std::path::Path::strip_prefix` leaves of `p` after `base`.
pub uninterp spec fn stripped(p: Seq<char>, base: Seq<char>) -> Option<Seq<char>>;

/// What `std::path::Path::parent` gives for `p`.
pub uninterp spec fn parent_of(p: Seq<char>) -> Option<Seq<char>>;

/// What `std::path::Path::join` gives for `a` and `b`.
pub uninterp spec fn joined(a: Seq<char>, b: Seq<char>) -> Seq<char>;

/// Relies on `std::path::Path::strip_prefix`: `None` unless `base` is a
/// leading run of the components of `p`, else the rest.
#[verifier::external_body]
fn strip_prefix(p: &str, base: &str) -> (r: Option<String>)
    ensures
        opt_text(r) == stripped(p@, base@),
{
    match std::path::Path::new(p).strip_prefix(base) {
        Ok(rest) => Some(rest.to_string_lossy().into_owned()),
        Err(_) => None,
    }
}

/// Relies on `std::path::Path::parent`: the path without its last
/// component, `None` at a root or for the empty path.
#[verifier::external_body]
pub(crate) fn parent(p: &str) -> (r: Option<String>)
    ensures
        opt_text(r) == parent_of(p@),
{
    match std::path::Path::new(p).parent() {
        Some(q) => Some(q.to_string_lossy().into_owned()),
        None => None,
    }
}

/// Relies on `std::path::Path::join`: `b` below `a`, or `b` itself where it
/// is absolute.
#[verifier::external_body]
pub(crate) fn join(a: &str, b: &str) -> (r: String)
    ensures
        r@ == joined(a@, b@),
{
    std::path::Path::new(a).join(b).to_string_lossy().into_owned()
}

/// `p` relative to `base`: what is left after `base` where `base` leads
/// `p`, else `..` joined to `p` relative to the parent of `base`, looking
/// at most `fuel` parents up.
pub open spec fn relative_to(p: Seq<char>, base: Seq<char>, fuel: nat) -> Option<Seq<char>>
    decreases fuel,
{
    match stripped(p, base) {
        Some(rest) => Some(rest),
        None => if fuel == 0 {
            None
        } else {
            match parent_of(base) {
                Some(up) => match relative_to(p, up, (fuel - 1) as nat) {
                    Some(s) => Some(joined(".."@, s)),
                    None => None,
                },
                None => None,
            }
        },
    }
}

fn relative_with(p: &str, base: &str, fuel: usize) -> (r: Option<String>)
    ensures
        opt_text(r) == relative_to(p@, base@, fuel as nat),
    decreases fuel,
{
    match strip_prefix(p, base) {
        Some(rest) => Some(rest),
        None => {
            if fuel == 0 {
                return None;
            }
            match parent(base) {
                Some(up) => match relative_with(p, up.as_str(), fuel - 1) {
                    Some(s) => Some(join("..", s.as_str())),
                    None => None,
                },
                None => None,
            }
        },
    }
}

/// `p` relative to `base`, climbing out of `base` with `..` as far as
/// needed; `None` where no ancestor of `base` leads `p`. A path has no more
/// components than characters, so the climb looks at every ancestor.
pub fn make_relative(p: &str, base: &str) -> (r: Option<String>)
    ensures
        opt_text(r) == relative_to(p@, base@, base@.len()),
{
    relative_with(p, base, base.unicode_len())
}

/// `dirs` starts with `p` and goes up one parent at a time.
pub open spec fn climbs(dirs: Seq<String>, p: Seq<char>) -> bool {
    &&& dirs.len() >= 1
    &&& dirs[0]@ == p
    &&& forall|i: int| 0 <= i < dirs.len() - 1 ==> parent_of(#[trigger] dirs[i]@) == Some(dirs[i + 1]@)
}

/// The directory `p` and every directory above it, nearest first, up to the
/// one without a parent (or as many as `p` has characters, plus one).
pub fn ancestors(p: &str) -> (r: Vec<String>)
    ensures
        climbs(r@, p@),
        r@.len() == p@.len() + 1 || parent_of(r@.last()@) is None,
{
    let limit = p.unicode_len();
    let mut dirs: Vec<String> = Vec::new();
    dirs.push(String::from_str(p));
    let mut count: usize = 0;
    while count < limit
        invariant
            dirs@.len() == count + 1,
            count <= limit,
            limit == p@.len(),
            climbs(dirs@, p@),
        decreases limit - count,
    {
        let last = dirs.len() - 1;
        let up = parent(dirs[last].as_str());
        match up {
            Some(u) => {
                let ghost before = dirs@;
                dirs.push(u);
                assert forall|i: int| 0 <= i < dirs@.len() - 1 implies parent_of(
                    #[trigger] dirs@[i]@,
                ) == Some(dirs@[i + 1]@) by {
                    if i < before.len() - 1 {
                        assert(dirs@[i] == before[i]);
                        assert(dirs@[i + 1] == before[i + 1]);
                    }
                }
            },
            None => {
                return dirs;
            },
        }
        count = count + 1;
    }
    dirs
}

} // verus!
