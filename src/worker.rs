//! The state that the daemon keeps for one worker: the last prompt it
//! produced and whether its background loop still runs. The loop itself, the
//! channels and the timers belong to the caller, who hands in what they
//! observed (a reply, a timeout, a death notice) and is told what to do.

use vstd::prelude::*;
use crate::text::opt_text;

verus! {

/// What wakes a worker's background loop.
#[derive(Debug, Clone, Copy, PartialEq, Eq, Structural)]
pub enum WorkerEvent {
    /// Someone asked for a fresh prompt (further requests that arrived
    /// meanwhile are drained with it).
    Recompute,
    /// No request came for the whole idle period.
    IdleTimeout,
}

/// What the background loop does next.
#[derive(Debug, Clone, Copy, PartialEq, Eq, Structural)]
pub enum WorkerAction {
    /// Compute the full prompt and publish it on the result channel, then
    /// wait again with a fresh idle timer.
    Publish,
    /// Send the death notice and leave the loop.
    Retire,
}

/// The decision of a worker's background loop on waking.
pub fn next_action(event: WorkerEvent) -> (r: WorkerAction)
    ensures
        r == (match event {
            WorkerEvent::Recompute => WorkerAction::Publish,
            WorkerEvent::IdleTimeout => WorkerAction::Retire,
        }),
{
    match event {
        WorkerEvent::Recompute => WorkerAction::Publish,
        WorkerEvent::IdleTimeout => WorkerAction::Retire,
    }
}

/// What polling the result channel during the bounded wait showed.
pub enum WaitEvent {
    /// Nothing yet.
    Pending,
    /// The worker published this prompt.
    Delivered(String),
    /// The channel is closed: nothing will come on it.
    Closed,
    /// The bounded wait elapsed.
    Elapsed,
}

/// What the waiting side does next.
pub enum WaitStep {
    /// Poll again.
    KeepWaiting,
    /// Stop waiting, with the fresh prompt if one came.
    Done(Option<String>),
}

/// The decision of the bounded wait on one poll: a published prompt ends
/// the wait with it, the deadline ends it without one, and anything else
/// (a closed channel included) leaves the caller waiting for the deadline.
pub fn wait_step(event: WaitEvent) -> (r: WaitStep)
    ensures
        event matches WaitEvent::Delivered(t) ==> r matches WaitStep::Done(Some(u)) && u@ == t@,
        event is Elapsed ==> r matches WaitStep::Done(None),
        event is Pending || event is Closed ==> r is KeepWaiting,
{
    match event {
        WaitEvent::Delivered(t) => WaitStep::Done(Some(t)),
        WaitEvent::Elapsed => WaitStep::Done(None),
        WaitEvent::Pending => WaitStep::KeepWaiting,
        WaitEvent::Closed => WaitStep::KeepWaiting,
    }
}

/// The daemon's view of a worker.
pub struct ThreadView {
    pub cached: Seq<char>,
    pub alive: bool,
}

/// What a request answers, and what the cache holds after it: the fresh
/// text where one arrived within the bounded wait, else the cached one.
pub open spec fn answered(cached: Seq<char>, reply: Option<Seq<char>>) -> Seq<char> {
    match reply {
        Some(t) => t,
        None => cached,
    }
}

/// The daemon's handle on one worker: the channels to it (`link`), the last
/// prompt it produced, and whether it is still alive.
pub struct PromptThread<L> {
    link: L,
    cached: String,
    alive: bool,
}

impl<L> View for PromptThread<L> {
    type V = ThreadView;

    closed spec fn view(&self) -> ThreadView {
        ThreadView { cached: self.cached@, alive: self.alive }
    }
}

impl<L> PromptThread<L> {
    #[verifier::type_invariant]
    spec fn inv(&self) -> bool {
        self.cached@.len() > 0
    }

    /// A live worker, reached through `link`, whose first prompt is `seed`
    /// (the fast computation).
    pub fn new(link: L, seed: String) -> (r: PromptThread<L>)
        requires
            seed@.len() > 0,
        ensures
            r@ == (ThreadView { cached: seed@, alive: true }),
    {
        PromptThread { link, cached: seed, alive: true }
    }

    /// Records whether the death notice was seen since the last check, and
    /// returns whether the worker is still alive. Once dead, it stays dead.
    pub fn check_is_alive(&mut self, death_seen: bool) -> (r: bool)
        ensures
            final(self)@ == (ThreadView { cached: old(self)@.cached, alive: old(self)@.alive && !death_seen }),
            r == final(self)@.alive,
    {
        proof {
            use_type_invariant(&*self);
        }
        if death_seen {
            self.alive = false;
        }
        self.alive
    }

    /// Answers a request, given what came back within the bounded wait:
    /// `Some` fresh text, or `None` when the wait elapsed first. Fresh text
    /// replaces the cache.
    pub fn get(&mut self, reply: Option<String>) -> (r: String)
        requires
            reply matches Some(t) ==> t@.len() > 0,
        ensures
            r@ == answered(old(self)@.cached, opt_text(reply)),
            final(self)@ == (ThreadView { cached: r@, alive: old(self)@.alive }),
            r@.len() > 0,
    {
        proof {
            use_type_invariant(&*self);
        }
        match reply {
            Some(text) => {
                self.cached = text;
                self.cached.clone()
            },
            None => self.cached.clone(),
        }
    }

    /// The channels to the worker.
    pub fn link(&self) -> &L {
        &self.link
    }

    /// The last prompt the worker produced.
    pub fn cached(&self) -> (r: &str)
        ensures
            r@ == self@.cached,
            r@.len() > 0,
    {
        proof {
            use_type_invariant(self);
        }
        self.cached.as_str()
    }
}

/// A request that the bounded wait gave up on answers with the cache
/// unchanged, and the late result, once it arrives, is what the next request
/// answers.
pub proof fn lemma_slow_result_kept(cached: Seq<char>, late: Seq<char>)
    ensures
        answered(cached, None) == cached,
        answered(answered(cached, None), Some(late)) == late,
{
}

/// Callers that race one computation each get either its result or the
/// value cached before it, and never an empty text.
pub proof fn lemma_racing_callers(cached: Seq<char>, fresh: Seq<char>, first: Option<Seq<char>>, second: Option<Seq<char>>)
    requires
        cached.len() > 0,
        fresh.len() > 0,
        first == Some(fresh) || first is None,
        second == Some(fresh) || second is None,
    ensures
        answered(cached, first) == fresh || answered(cached, first) == cached,
        answered(answered(cached, first), second) == fresh || answered(answered(cached, first), second) == cached,
        answered(cached, first).len() > 0,
        answered(answered(cached, first), second).len() > 0,
{
}

} // verus!
