//! The decisions the daemon takes for each connection. The caller accepts
//! the connection, reads the payload, polls the workers' death notices,
//! spawns worker threads, waits for replies and writes the answer; this
//! module decides which worker serves, what it answers, and when the daemon
//! must restart.

use vstd::prelude::*;
use crate::protocol::{parse_request, parsed_request, reply_text, restart_marker, Key};
use crate::registry::{holds, kept, Registry};
use crate::text::opt_text;
use crate::worker::answered;

verus! {

/// How long the daemon waits for a fresh prompt before it answers from a
/// worker's cache, in milliseconds.
pub const WORKER_WAIT_MS: u64 = 50;

/// How long the client waits for the daemon's answer, in milliseconds: one
/// worker wait plus a round trip.
pub const CLIENT_WAIT_MS: u64 = 100;

/// How long a worker waits for a request before it retires, in
/// milliseconds.
pub const IDLE_TIMEOUT_MS: u64 = 600000;

/// Where the daemon listens.
pub fn socket_path() -> (r: &'static str)
    ensures
        r@ == "/tmp/megaprompt-socket"@,
{
    "/tmp/megaprompt-socket"
}

/// Whether the daemon's executable changed since it started, judged by
/// its modification time.
pub fn restart_due(started: i64, now: i64) -> (r: bool)
    ensures
        r == (started != now),
{
    started != now
}

/// How a request is served.
pub enum Lookup {
    /// A live worker holds the key, at this entry.
    Found(usize),
    /// No worker holds the key: one must be spawned for it.
    Missing(Key),
}

/// What to send back on a connection, and whether to exit after it.
pub struct Reply {
    pub text: String,
    pub restart: bool,
}

/// The daemon's state across connections: its workers and the modification
/// time of its executable when it started.
pub struct Daemon<L> {
    pub registry: Registry<L>,
    pub started: i64,
}

impl<L> Daemon<L> {
    pub open spec fn wf(&self) -> bool {
        self.registry.wf()
    }

    /// A daemon with no workers, started when its executable had
    /// modification time `started`.
    pub fn new(started: i64) -> (r: Daemon<L>)
        ensures
            r.wf(),
            r.registry@.len() == 0,
            r.registry.spawn_count() == 0,
            r.started == started,
    {
        Daemon { registry: Registry::new(), started }
    }

    /// Takes a request payload. Where it names no key, the connection is
    /// abandoned and nothing changes. Else the workers whose death notice was
    /// seen (`died`, one flag per entry) leave the table, and the key is
    /// looked up.
    pub fn begin(&mut self, payload: &str, died: &Vec<bool>) -> (r: Option<Lookup>)
        requires
            old(self).wf(),
            died@.len() == old(self).registry@.len(),
        ensures
            final(self).wf(),
            final(self).started == old(self).started,
            final(self).registry.spawn_count() == old(self).registry.spawn_count(),
            parsed_request(payload@) is None ==> r is None && final(self).registry@ == old(self).registry@,
            parsed_request(payload@) matches Some(k) ==> {
                &&& final(self).registry@ == kept(old(self).registry@, died@)
                &&& r matches Some(lookup) && match lookup {
                    Lookup::Found(i) => i < final(self).registry@.len() && final(self).registry@[i as int].key == k,
                    Lookup::Missing(key) => key@ == k && !holds(final(self).registry@, k),
                }
            },
    {
        let key = match parse_request(payload) {
            Some(k) => k,
            None => return None,
        };
        self.registry.sweep(died);
        match self.registry.find(&key) {
            Some(i) => Some(Lookup::Found(i)),
            None => Some(Lookup::Missing(key)),
        }
    }

    /// Registers the worker spawned for `key` (reached through `link`, seeded
    /// with the fast prompt `seed`) and returns its entry; `None`, with
    /// nothing changed, when serial numbers are exhausted.
    pub fn spawn(&mut self, key: Key, link: L, seed: String) -> (r: Option<usize>)
        requires
            old(self).wf(),
            !holds(old(self).registry@, key@),
            seed@.len() > 0,
        ensures
            final(self).wf(),
            final(self).started == old(self).started,
            old(self).registry.spawn_count() < u64::MAX ==> {
                &&& r matches Some(i) && i == old(self).registry@.len()
                &&& final(self).registry.spawn_count() == old(self).registry.spawn_count() + 1
                &&& final(self).registry@ == old(self).registry@.push(
                    (crate::registry::SlotView {
                        key: key@,
                        serial: old(self).registry.spawn_count(),
                        cached: seed@,
                    }),
                )
            },
            old(self).registry.spawn_count() >= u64::MAX ==> r is None && final(self).registry@ == old(
                self,
            ).registry@ && final(self).registry.spawn_count() == old(self).registry.spawn_count(),
    {
        if self.registry.spawned() == u64::MAX {
            return None;
        }
        Some(self.registry.insert(key, link, seed))
    }

    /// Answers through entry `i`, given what came back within the bounded
    /// wait, and tells whether to exit after the reply: when the
    /// executable's modification time is now `now`, which differs from the
    /// one at start, the restart marker follows the answer.
    pub fn respond(&mut self, i: usize, reply: Option<String>, now: i64) -> (r: Reply)
        requires
            old(self).wf(),
            i < old(self).registry@.len(),
            reply matches Some(t) ==> t@.len() > 0,
        ensures
            final(self).wf(),
            final(self).started == old(self).started,
            final(self).registry.spawn_count() == old(self).registry.spawn_count(),
            final(self).registry@ == old(self).registry@.update(
                i as int,
                (crate::registry::SlotView {
                    cached: answered(old(self).registry@[i as int].cached, opt_text(reply)),
                    ..old(self).registry@[i as int]
                }),
            ),
            r.restart == (now != old(self).started),
            r.text@ == (if r.restart {
                answered(old(self).registry@[i as int].cached, opt_text(reply)) + restart_marker()
            } else {
                answered(old(self).registry@[i as int].cached, opt_text(reply))
            }),
            r.text@.len() > 0,
    {
        let answer = self.registry.answer(i, reply);
        let restart = restart_due(self.started, now);
        let text = reply_text(answer.as_str(), restart);
        Reply { text, restart }
    }
}

} // verus!
