//! The daemon's table of workers, one per key. Only the daemon's accept loop
//! touches it: it sweeps out the workers that announced their death, looks a
//! key up, adds a worker where none lives, and answers a request through the
//! worker of its key.

use vstd::prelude::*;
use crate::protocol::Key;
use crate::shell::ShellType;
use crate::text::opt_text;
use crate::worker::{answered, PromptThread};

verus! {

/// One entry of the table, as the contracts see it: its key, the serial
/// number it was spawned with, and the prompt it holds.
pub struct SlotView {
    pub key: (Seq<char>, ShellType),
    pub serial: nat,
    pub cached: Seq<char>,
}

/// No two entries share a key.
pub open spec fn unique_keys(s: Seq<SlotView>) -> bool {
    forall|i: int, j: int| 0 <= i < j < s.len() ==> s[i].key != s[j].key
}

/// Some entry has key `k`.
pub open spec fn holds(s: Seq<SlotView>, k: (Seq<char>, ShellType)) -> bool {
    exists|i: int| 0 <= i < s.len() && s[i].key == k
}

/// Every serial number is below `n`.
pub open spec fn serials_below(s: Seq<SlotView>, n: nat) -> bool {
    forall|i: int| 0 <= i < s.len() ==> s[i].serial < n
}

/// The entries whose worker did not die, in their order: `died[i]` tells
/// whether the death notice of entry `i` was seen.
pub open spec fn kept(s: Seq<SlotView>, died: Seq<bool>) -> Seq<SlotView>
    decreases s.len(),
{
    if s.len() == 0 {
        Seq::empty()
    } else {
        let rest = kept(s.drop_last(), died);
        if died[s.len() - 1] {
            rest
        } else {
            rest.push(s.last())
        }
    }
}

/// Every entry that `kept` keeps is an entry of `s` whose worker lives, and
/// every such entry is kept; keys stay unique.
pub proof fn lemma_kept(s: Seq<SlotView>, died: Seq<bool>)
    ensures
        forall|j: int|
            0 <= j < kept(s, died).len() ==> exists|i: int|
                0 <= i < s.len() && !died[i] && #[trigger] kept(s, died)[j] == s[i],
        forall|i: int| 0 <= i < s.len() && !died[i] ==> kept(s, died).contains(#[trigger] s[i]),
        unique_keys(s) ==> unique_keys(kept(s, died)),
    decreases s.len(),
{
    if s.len() > 0 {
        let p = s.drop_last();
        lemma_kept(p, died);
        let rest = kept(p, died);
        assert forall|i: int| 0 <= i < s.len() && !died[i] implies kept(s, died).contains(#[trigger] s[i]) by {
            if i < s.len() - 1 {
                assert(p[i] == s[i]);
                assert(rest.contains(p[i]));
                let w = choose|w: int| 0 <= w < rest.len() && rest[w] == p[i];
                if !died[s.len() - 1] {
                    assert(kept(s, died)[w] == s[i]);
                }
            } else {
                assert(kept(s, died)[kept(s, died).len() - 1] == s[i]);
            }
        }
        assert forall|j: int| 0 <= j < kept(s, died).len() implies exists|i: int|
            0 <= i < s.len() && !died[i] && #[trigger] kept(s, died)[j] == s[i] by {
            if j < rest.len() {
                assert(kept(s, died)[j] == rest[j]);
                let i = choose|i: int| 0 <= i < p.len() && !died[i] && rest[j] == p[i];
                assert(s[i] == p[i]);
            } else {
                assert(kept(s, died)[j] == s[s.len() - 1]);
            }
        }
        if unique_keys(s) {
            assert(unique_keys(p));
            if !died[s.len() - 1] {
                assert forall|a: int, b: int| 0 <= a < b < kept(s, died).len() implies kept(s, died)[a].key
                    != kept(s, died)[b].key by {
                    if b == rest.len() {
                        assert(kept(s, died)[a] == rest[a]);
                        let i = choose|i: int| 0 <= i < p.len() && !died[i] && rest[a] == p[i];
                        assert(p[i] == s[i]);
                    } else {
                        assert(kept(s, died)[a] == rest[a]);
                        assert(kept(s, died)[b] == rest[b]);
                    }
                }
            }
        }
    }
}

struct Slot<L> {
    key: Key,
    serial: u64,
    thread: PromptThread<L>,
}

impl<L> Slot<L> {
    spec fn view(&self) -> SlotView {
        SlotView { key: self.key@, serial: self.serial as nat, cached: self.thread@.cached }
    }
}

spec fn views<L>(s: Seq<Slot<L>>) -> Seq<SlotView> {
    Seq::new(s.len(), |i: int| s[i].view())
}

/// The daemon's workers, one per key.
pub struct Registry<L> {
    slots: Vec<Slot<L>>,
    spawned: u64,
}

impl<L> View for Registry<L> {
    type V = Seq<SlotView>;

    closed spec fn view(&self) -> Seq<SlotView> {
        views(self.slots@)
    }
}

impl<L> Registry<L> {
    /// How many workers were ever spawned; the next one gets this serial.
    pub closed spec fn spawn_count(&self) -> nat {
        self.spawned as nat
    }

    /// Keys are unique, serials lie below the spawn count, and every worker in
    /// the table is alive.
    pub closed spec fn wf(&self) -> bool {
        &&& unique_keys(self@)
        &&& forall|i: int| 0 <= i < self.slots@.len() ==> (#[trigger] self.slots@[i]).serial < self.spawned
        &&& forall|i: int| 0 <= i < self.slots@.len() ==> (#[trigger] self.slots@[i]).thread@.alive
    }

    pub proof fn lemma_wf(&self)
        requires
            self.wf(),
        ensures
            unique_keys(self@),
            serials_below(self@, self.spawn_count()),
    {
    }

    /// An empty table.
    pub fn new() -> (r: Registry<L>)
        ensures
            r.wf(),
            r@ == Seq::<SlotView>::empty(),
            r.spawn_count() == 0,
    {
        let r = Registry { slots: Vec::new(), spawned: 0 };
        assert(r@ =~= Seq::<SlotView>::empty());
        r
    }

    /// The number of workers in the table.
    pub fn len(&self) -> (r: usize)
        ensures
            r == self@.len(),
    {
        self.slots.len()
    }

    /// How many workers were ever spawned.
    pub fn spawned(&self) -> (r: u64)
        ensures
            r == self.spawn_count(),
    {
        self.spawned
    }

    /// The channels to the worker of entry `i`.
    pub fn link(&self, i: usize) -> &L
        requires
            i < self@.len(),
    {
        self.slots[i].thread.link()
    }

    /// The prompt that entry `i` holds.
    pub fn cached(&self, i: usize) -> (r: &str)
        requires
            i < self@.len(),
        ensures
            r@ == self@[i as int].cached,
            r@.len() > 0,
    {
        self.slots[i].thread.cached()
    }

    /// Removes the workers whose death notice was seen: `died[i]` is what
    /// polling the worker of entry `i` showed.
    pub fn sweep(&mut self, died: &Vec<bool>)
        requires
            old(self).wf(),
            died@.len() == old(self)@.len(),
        ensures
            final(self).wf(),
            final(self)@ == kept(old(self)@, died@),
            final(self).spawn_count() == old(self).spawn_count(),
    {
        let ghost before = self@;
        let mut pending: Vec<Slot<L>> = Vec::new();
        std::mem::swap(&mut pending, &mut self.slots);
        let ghost all = pending@;
        let ghost spawned = self.spawned;
        let n = pending.len();
        let mut i: usize = 0;
        assert(views(self.slots@) =~= kept(before.take(0), died@));
        while i < n
            invariant
                n == all.len(),
                before == views(all),
                died@.len() == n,
                i <= n,
                pending@ == all.skip(i as int),
                views(self.slots@) == kept(before.take(i as int), died@),
                forall|j: int| 0 <= j < self.slots@.len() ==> (#[trigger] self.slots@[j]).serial < self.spawned,
                forall|j: int| 0 <= j < self.slots@.len() ==> (#[trigger] self.slots@[j]).thread@.alive,
                forall|j: int| 0 <= j < all.len() ==> (#[trigger] all[j]).serial < self.spawned,
                forall|j: int| 0 <= j < all.len() ==> (#[trigger] all[j]).thread@.alive,
                self.spawned == spawned,
            decreases n - i,
        {
            let mut slot = pending.remove(0);
            assert(slot == all[i as int]);
            let alive = slot.thread.check_is_alive(died[i]);
            let ghost prefix = before.take(i as int + 1);
            assert(prefix.drop_last() =~= before.take(i as int));
            assert(prefix.last() == before[i as int]);
            assert(before[i as int] == all[i as int].view());
            assert(slot.view() == before[i as int]);
            assert(alive == !died@[i as int]);
            assert(kept(prefix, died@) == (if died@[i as int] {
                kept(before.take(i as int), died@)
            } else {
                kept(before.take(i as int), died@).push(before[i as int])
            }));
            if alive {
                let ghost old_views = views(self.slots@);
                self.slots.push(slot);
                assert(views(self.slots@) =~= old_views.push(before[i as int]));
            }
            i = i + 1;
            assert(pending@ =~= all.skip(i as int));
        }
        assert(before.take(n as int) =~= before);
        proof {
            lemma_kept(before, died@);
        }
    }

    /// The entry whose key is `key`, if there is one.
    pub fn find(&self, key: &Key) -> (r: Option<usize>)
        ensures
            r matches Some(i) ==> i < self@.len() && self@[i as int].key == key@,
            r is None ==> !holds(self@, key@),
    {
        let n = self.slots.len();
        let mut i: usize = 0;
        while i < n
            invariant
                n == self@.len(),
                n == self.slots@.len(),
                i <= n,
                forall|j: int| 0 <= j < i ==> (#[trigger] self@[j]).key != key@,
            decreases n - i,
        {
            if self.slots[i].key.same(key) {
                return Some(i);
            }
            i = i + 1;
        }
        None
    }

    /// Adds a worker for `key`, which has none, reached through `link` and
    /// seeded with `seed`; it gets the next serial. Returns its entry.
    pub fn insert(&mut self, key: Key, link: L, seed: String) -> (r: usize)
        requires
            old(self).wf(),
            !holds(old(self)@, key@),
            seed@.len() > 0,
            old(self).spawn_count() < u64::MAX,
        ensures
            final(self).wf(),
            final(self)@ == old(self)@.push((SlotView { key: key@, serial: old(self).spawn_count(), cached: seed@ })),
            final(self).spawn_count() == old(self).spawn_count() + 1,
            r == old(self)@.len(),
    {
        let ghost before = self@;
        let serial = self.spawned;
        let slot = Slot { key, serial, thread: PromptThread::new(link, seed) };
        self.slots.push(slot);
        self.spawned = serial + 1;
        assert(self@ =~= before.push(SlotView { key: key@, serial: serial as nat, cached: seed@ }));
        self.slots.len() - 1
    }

    /// Answers a request through the worker of entry `i`, given what came
    /// back within the bounded wait (see `PromptThread::get`).
    pub fn answer(&mut self, i: usize, reply: Option<String>) -> (r: String)
        requires
            old(self).wf(),
            i < old(self)@.len(),
            reply matches Some(t) ==> t@.len() > 0,
        ensures
            final(self).wf(),
            r@ == answered(old(self)@[i as int].cached, opt_text(reply)),
            final(self)@ == old(self)@.update(
                i as int,
                (SlotView { cached: r@, ..old(self)@[i as int] }),
            ),
            final(self).spawn_count() == old(self).spawn_count(),
            r@.len() > 0,
    {
        let ghost before = self@;
        let mut slot = self.slots.remove(i);
        let r = slot.thread.get(reply);
        self.slots.insert(i, slot);
        assert(self@ =~= before.update(i as int, SlotView { cached: r@, ..before[i as int] }));
        r
    }
}

/// A key whose worker did not die is still in the table after the sweep,
/// held by that same worker: the next request for it spawns nothing.
pub proof fn lemma_live_worker_reused(s: Seq<SlotView>, died: Seq<bool>, i: int)
    requires
        unique_keys(s),
        died.len() == s.len(),
        0 <= i < s.len(),
        !died[i],
    ensures
        holds(kept(s, died), s[i].key),
        forall|j: int|
            0 <= j < kept(s, died).len() && (#[trigger] kept(s, died)[j]).key == s[i].key ==> kept(s, died)[j] == s[i],
{
    lemma_kept(s, died);
    assert(kept(s, died).contains(s[i]));
    let w = choose|w: int| 0 <= w < kept(s, died).len() && kept(s, died)[w] == s[i];
    assert forall|j: int|
        0 <= j < kept(s, died).len() && (#[trigger] kept(s, died)[j]).key == s[i].key implies kept(s, died)[j]
        == s[i] by {
        let x = choose|x: int| 0 <= x < s.len() && !died[x] && kept(s, died)[j] == s[x];
        assert(x == i);
    }
}

/// A key whose worker died is gone from the table after the sweep, so the
/// next request for it spawns a worker, whose serial differs from the dead
/// one's.
pub proof fn lemma_dead_worker_replaced(s: Seq<SlotView>, died: Seq<bool>, i: int, spawned: nat)
    requires
        unique_keys(s),
        serials_below(s, spawned),
        died.len() == s.len(),
        0 <= i < s.len(),
        died[i],
    ensures
        !holds(kept(s, died), s[i].key),
        s[i].serial != spawned,
{
    lemma_kept(s, died);
    if holds(kept(s, died), s[i].key) {
        let j = choose|j: int| 0 <= j < kept(s, died).len() && kept(s, died)[j].key == s[i].key;
        let x = choose|x: int| 0 <= x < s.len() && !died[x] && kept(s, died)[j] == s[x];
        assert(x != i);
    }
}

/// Answering through one key's worker leaves every other key's entry as it
/// was.
pub proof fn lemma_keys_independent(s: Seq<SlotView>, i: int, fresh: Seq<char>, k: (Seq<char>, ShellType))
    requires
        0 <= i < s.len(),
        k != s[i].key,
    ensures
        forall|j: int|
            0 <= j < s.len() && (#[trigger] s[j]).key == k ==> s.update(i, (SlotView { cached: fresh, ..s[i] }))[j]
                == s[j],
{
}

} // verus!
