//! The frame mailbox: a coalescing, most-recent-wins, single-slot exchange
//! between the native delivery callback (push side) and the consumer pulling
//! frames (wait side).
//!
//! The `Slot` type here is the state that lives under the mailbox's lock.
//! Pushing retains-by-ownership the newest sample, displaces whatever was
//! held before (the displaced sample is released, i.e. logged in the release
//! ledger, exactly once), and bumps the generation counter. Taking removes
//! the held sample, so no two consumers can ever observe the same
//! generation. Closing the mailbox releases any held sample and makes every
//! later wait return empty, which is how stopping a session wakes its
//! waiters. The blocking loop around these operations (lock, condition
//! variable, timeout) belongs to the embedding; everything it decides is
//! decided here.

use vstd::prelude::*;

verus! {

use vstd::multiset::Multiset;
use vstd::seq_lib::group_to_multiset_ensures;
use crate::sample_buffer::{SampleBuffer, SampleView};

/// The mathematical image of a mailbox: the held sample, the generation
/// counter, whether the mailbox still accepts pushes, the generation of the
/// last consumed sample, and the ledgers of every sample id ever pushed,
/// released, or handed to a consumer.
#[verifier::ext_equal]
pub struct SlotView {
    pub held: Option<SampleView>,
    pub generation: int,
    pub open: bool,
    pub last_taken: int,
    pub pushed: Seq<u64>,
    pub released: Seq<u64>,
    pub taken: Seq<u64>,
}

/// The sample ids currently held by the mailbox, as a multiset (empty or a
/// single id).
pub open spec fn held_ids(s: SlotView) -> Multiset<u64> {
    match s.held {
        Some(h) => Multiset::empty().insert(h.id),
        None => Multiset::empty(),
    }
}

/// Well-formedness of a mailbox state. The final clause is the accounting
/// law: every pushed sample id is, with the right multiplicity, either
/// released, consumed, or still held — so nothing leaks and nothing can be
/// released twice.
pub open spec fn slot_wf(s: SlotView) -> bool {
    &&& 0 <= s.last_taken <= s.generation
    &&& (s.held is Some ==> s.last_taken < s.generation)
    &&& (!s.open ==> s.held is None)
    &&& s.pushed.to_multiset() == s.released.to_multiset().add(s.taken.to_multiset()).add(
        held_ids(s),
    )
}

/// The state of a freshly created mailbox: empty, at generation zero,
/// accepting pushes.
pub open spec fn slot_init() -> SlotView {
    SlotView {
        held: None,
        generation: 0,
        open: true,
        last_taken: 0,
        pushed: Seq::empty(),
        released: Seq::empty(),
        taken: Seq::empty(),
    }
}

/// What a push does: on an open mailbox the new sample displaces the held
/// one (which is released) and the generation rises; on a closed mailbox the
/// incoming sample is released at once and nothing else changes.
pub open spec fn push_trans(s: SlotView, v: SampleView) -> SlotView {
    if s.open {
        SlotView {
            held: Some(v),
            generation: s.generation + 1,
            pushed: s.pushed.push(v.id),
            released: match s.held {
                Some(h) => s.released.push(h.id),
                None => s.released,
            },
            ..s
        }
    } else {
        SlotView { pushed: s.pushed.push(v.id), released: s.released.push(v.id), ..s }
    }
}

/// What taking observes: the currently held sample, if any.
pub open spec fn take_result(s: SlotView) -> Option<SampleView> {
    s.held
}

/// What taking does: the held sample, if any, moves out to the consumer and
/// its generation is recorded, so a second take cannot observe it again.
pub open spec fn take_trans(s: SlotView) -> SlotView {
    match s.held {
        Some(h) => SlotView {
            held: None,
            last_taken: s.generation,
            taken: s.taken.push(h.id),
            ..s
        },
        None => s,
    }
}

/// What closing does: the mailbox stops accepting pushes and releases the
/// held sample, if any. A consumer that wakes afterwards finds nothing to
/// wait for.
pub open spec fn close_trans(s: SlotView) -> SlotView {
    SlotView {
        open: false,
        held: None,
        released: match s.held {
            Some(h) => s.released.push(h.id),
            None => s.released,
        },
        ..s
    }
}

/// What reopening does: the mailbox accepts pushes again; the generation
/// counter continues where it stood.
pub open spec fn reopen_trans(s: SlotView) -> SlotView {
    SlotView { open: true, ..s }
}

/// What rebuilding does (device hot-swap): a fresh mailbox at generation
/// zero, releasing the held sample of the old one; the ledgers carry over,
/// because the native samples they account for do not vanish with the swap.
pub open spec fn reset_trans(s: SlotView, open: bool) -> SlotView {
    SlotView {
        held: None,
        generation: 0,
        open,
        last_taken: 0,
        released: match s.held {
            Some(h) => s.released.push(h.id),
            None => s.released,
        },
        ..s
    }
}

/// The single-slot mailbox between the native delivery context and the
/// consumer. See the module documentation; the field meanings are those of
/// [`SlotView`].
pub struct Slot {
    held: Option<SampleBuffer>,
    generation: u64,
    open: bool,
    last_taken: u64,
    released: Vec<u64>,
    taken: Vec<u64>,
    pushed: Ghost<Seq<u64>>,
}

impl View for Slot {
    type V = SlotView;

    closed spec fn view(&self) -> SlotView {
        SlotView {
            held: match self.held {
                Some(b) => Some(b@),
                None => None,
            },
            generation: self.generation as int,
            open: self.open,
            last_taken: self.last_taken as int,
            pushed: self.pushed@,
            released: self.released@,
            taken: self.taken@,
        }
    }
}

impl Slot {
    /// A fresh, empty, open mailbox.
    pub fn new() -> (s: Self)
        ensures
            s@ == slot_init(),
    {
        Slot {
            held: None,
            generation: 0,
            open: true,
            last_taken: 0,
            released: Vec::new(),
            taken: Vec::new(),
            pushed: Ghost(Seq::empty()),
        }
    }

    /// Called from the native delivery context with the newest sample: swaps
    /// it into the slot, releasing the displaced one, and bumps the
    /// generation; the embedding wakes every blocked waiter afterwards. On a
    /// closed mailbox the sample is released at once.
    pub fn push(&mut self, sample: SampleBuffer)
        requires
            old(self)@.generation < u64::MAX,
        ensures
            final(self)@ == push_trans(old(self)@, sample@),
    {
        self.pushed = Ghost(self.pushed@.push(sample.id));
        if self.open {
            let displaced = self.held.take();
            if let Some(d) = displaced {
                self.released.push(d.id);
            }
            self.held = Some(sample);
            self.generation = self.generation + 1;
        } else {
            self.released.push(sample.id);
        }
    }

    /// The non-blocking heart of waiting: removes and returns the currently
    /// held sample. The embedding loops around this under the mailbox's
    /// condition variable until a sample is present, the mailbox is closed,
    /// or its bounded wait elapses.
    pub fn take_sample(&mut self) -> (r: Option<SampleBuffer>)
        ensures
            final(self)@ == take_trans(old(self)@),
            r is Some <==> take_result(old(self)@) is Some,
            r is Some ==> r.unwrap()@ == take_result(old(self)@).unwrap(),
    {
        let got = self.held.take();
        match got {
            Some(s) => {
                self.taken.push(s.id);
                self.last_taken = self.generation;
                Some(s)
            },
            None => None,
        }
    }

    /// Shuts the mailbox: releases the held sample and refuses further
    /// pushes. The embedding broadcasts on the condition variable so that
    /// every blocked waiter wakes, finds the mailbox closed, and returns
    /// empty.
    pub fn close(&mut self)
        ensures
            final(self)@ == close_trans(old(self)@),
    {
        self.open = false;
        let displaced = self.held.take();
        if let Some(d) = displaced {
            self.released.push(d.id);
        }
    }

    /// Accept pushes again after a stop; the generation counter continues.
    pub fn reopen(&mut self)
        ensures
            final(self)@ == reopen_trans(old(self)@),
    {
        self.open = true;
    }

    /// Rebuilds the mailbox for a device hot-swap: generation starts over at
    /// zero, the held sample of the old mailbox is released, the ledgers
    /// carry over.
    pub fn reset(&mut self, open: bool)
        ensures
            final(self)@ == reset_trans(old(self)@, open),
    {
        let displaced = self.held.take();
        if let Some(d) = displaced {
            self.released.push(d.id);
        }
        self.generation = 0;
        self.last_taken = 0;
        self.open = open;
    }

    /// The generation of the newest push.
    pub fn generation(&self) -> (r: u64)
        ensures
            r == self@.generation,
    {
        self.generation
    }

    /// Whether the mailbox still accepts pushes.
    pub fn is_open(&self) -> (r: bool)
        ensures
            r == self@.open,
    {
        self.open
    }

    /// Whether a sample is pending.
    pub fn has_sample(&self) -> (r: bool)
        ensures
            r == (self@.held is Some),
    {
        self.held.is_some()
    }

    /// The ids of every sample released so far (on displacement, close, or
    /// rebuild), oldest first: the release half of the accounting ledger.
    pub fn released_ids(&self) -> (r: &Vec<u64>)
        ensures
            r@ == self@.released,
    {
        &self.released
    }

    /// The ids of every sample handed to a consumer, oldest first.
    pub fn taken_ids(&self) -> (r: &Vec<u64>)
        ensures
            r@ == self@.taken,
    {
        &self.taken
    }
}

/// One step of the mailbox's life, as seen under its lock.
pub enum SlotEvent {
    Push(SampleView),
    Take,
    Close,
    Reopen,
    Reset(bool),
}

/// The state after one event.
pub open spec fn apply_event(s: SlotView, e: SlotEvent) -> SlotView {
    match e {
        SlotEvent::Push(v) => push_trans(s, v),
        SlotEvent::Take => take_trans(s),
        SlotEvent::Close => close_trans(s),
        SlotEvent::Reopen => reopen_trans(s),
        SlotEvent::Reset(open) => reset_trans(s, open),
    }
}

/// The state after a whole sequence of events, oldest first.
pub open spec fn apply_events(s: SlotView, es: Seq<SlotEvent>) -> SlotView
    decreases es.len(),
{
    if es.len() == 0 {
        s
    } else {
        apply_event(apply_events(s, es.drop_last()), es.last())
    }
}

/// Law: a fresh mailbox is well formed.
pub proof fn lemma_init_wf()
    ensures
        slot_wf(slot_init()),
{
    broadcast use group_to_multiset_ensures;
    broadcast use vstd::multiset::group_multiset_axioms;

    assert(slot_init().pushed.to_multiset() =~= slot_init().released.to_multiset().add(
        slot_init().taken.to_multiset(),
    ).add(held_ids(slot_init())));
}

/// Law: every single event preserves well-formedness, and with it the
/// accounting equation of `slot_wf`.
pub proof fn lemma_event_preserves_wf(s: SlotView, e: SlotEvent)
    requires
        slot_wf(s),
    ensures
        slot_wf(apply_event(s, e)),
{
    broadcast use group_to_multiset_ensures;
    broadcast use vstd::multiset::group_multiset_axioms;

    match e {
        SlotEvent::Push(v) => {
            let s2 = push_trans(s, v);
            assert(s2.pushed.to_multiset() =~= s2.released.to_multiset().add(
                s2.taken.to_multiset(),
            ).add(held_ids(s2)));
        },
        SlotEvent::Take => {
            let s2 = take_trans(s);
            assert(s2.pushed.to_multiset() =~= s2.released.to_multiset().add(
                s2.taken.to_multiset(),
            ).add(held_ids(s2)));
        },
        SlotEvent::Close => {
            let s2 = close_trans(s);
            assert(s2.pushed.to_multiset() =~= s2.released.to_multiset().add(
                s2.taken.to_multiset(),
            ).add(held_ids(s2)));
        },
        SlotEvent::Reopen => {},
        SlotEvent::Reset(open) => {
            let s2 = reset_trans(s, open);
            assert(s2.pushed.to_multiset() =~= s2.released.to_multiset().add(
                s2.taken.to_multiset(),
            ).add(held_ids(s2)));
        },
    }
}

/// Law (no double release, arbitrary histories): after any sequence of
/// pushes, takes, closes, reopens and rebuilds starting from a fresh
/// mailbox, the accounting equation holds: every pushed sample is released,
/// consumed, or held, each exactly as often as it was pushed.
pub proof fn lemma_events_preserve_wf(es: Seq<SlotEvent>)
    ensures
        slot_wf(apply_events(slot_init(), es)),
    decreases es.len(),
{
    if es.len() == 0 {
        lemma_init_wf();
    } else {
        lemma_events_preserve_wf(es.drop_last());
        lemma_event_preserves_wf(apply_events(slot_init(), es.drop_last()), es.last());
    }
}

/// Law (no double release, per sample): in a well-formed mailbox whose
/// pushed samples all carry distinct ids, each pushed id was released at
/// most once, consumed at most once, and never both; an id never pushed
/// appears in no ledger at all.
pub proof fn lemma_no_double_release(s: SlotView)
    requires
        slot_wf(s),
        s.pushed.no_duplicates(),
    ensures
        s.released.no_duplicates(),
        s.taken.no_duplicates(),
        forall|id: u64|
            s.released.contains(id) ==> !s.taken.contains(id) && !(s.held is Some
                && s.held.unwrap().id == id),
        forall|id: u64| !s.pushed.contains(id) ==> !s.released.contains(id) && !s.taken.contains(id),
{
    broadcast use group_to_multiset_ensures;
    broadcast use vstd::multiset::group_multiset_axioms;

    s.pushed.lemma_multiset_has_no_duplicates();
    assert forall|id: u64| #![trigger s.pushed.to_multiset().count(id)] s.pushed.to_multiset().count(
        id,
    ) == s.released.to_multiset().count(id) + s.taken.to_multiset().count(id) + held_ids(s).count(
        id,
    ) by {
        assert(s.pushed.to_multiset().count(id) == s.released.to_multiset().add(
            s.taken.to_multiset(),
        ).add(held_ids(s)).count(id));
    }
    assert forall|id: u64| s.released.to_multiset().contains(id) implies s.released.to_multiset().count(
        id,
    ) == 1 by {
        assert(s.pushed.to_multiset().count(id) >= 1);
    }
    s.released.lemma_multiset_has_no_duplicates_conv();
    assert forall|id: u64| s.taken.to_multiset().contains(id) implies s.taken.to_multiset().count(id)
        == 1 by {
        assert(s.pushed.to_multiset().count(id) >= 1);
    }
    s.taken.lemma_multiset_has_no_duplicates_conv();
    assert forall|id: u64| s.released.contains(id) implies !s.taken.contains(id) && !(s.held is Some
        && s.held.unwrap().id == id) by {
        assert(s.released.to_multiset().count(id) >= 1);
        assert(s.pushed.to_multiset().count(id) >= 1);
        assert(s.pushed.contains(id));
        assert(s.pushed.to_multiset().count(id) == 1);
        assert(s.taken.to_multiset().count(id) == 0);
        if s.held is Some && s.held.unwrap().id == id {
            assert(held_ids(s).count(id) == 1);
            assert(false);
        }
    }
    assert forall|id: u64| !s.pushed.contains(id) implies !s.released.contains(id)
        && !s.taken.contains(id) by {
        assert(s.pushed.to_multiset().count(id) == 0);
        assert(s.released.to_multiset().count(id) == 0);
        assert(s.taken.to_multiset().count(id) == 0);
    }
}

/// Law (most recent wins): pushing `a` and then `b` into an open, empty
/// mailbox and then taking yields `b` and exactly one release, namely `a`;
/// the generation rose by two.
pub proof fn lemma_most_recent_wins(s: SlotView, a: SampleView, b: SampleView)
    requires
        s.open,
        s.held is None,
    ensures
        take_result(push_trans(push_trans(s, a), b)) == Some(b),
        push_trans(push_trans(s, a), b).released == s.released.push(a.id),
        take_trans(push_trans(push_trans(s, a), b)).taken == s.taken.push(b.id),
        push_trans(push_trans(s, a), b).generation == s.generation + 2,
{
}

/// Law (stop wakes waiters): after closing, a wait has nothing left to
/// block on — the slot is not open and holds nothing — so a woken waiter
/// returns empty instead of sleeping again.
pub proof fn lemma_close_unblocks(s: SlotView)
    ensures
        !close_trans(s).open,
        take_result(close_trans(s)) is None,
        !wait_must_block(close_trans(s)),
{
}

/// Whether a waiter that finds the mailbox in this state has to keep
/// waiting: pushes are still possible and nothing is held yet.
pub open spec fn wait_must_block(s: SlotView) -> bool {
    s.open && s.held is None
}

/// Law (consumers are serialized): a successful take observes a generation
/// strictly above every previously consumed one, and taking again
/// immediately observes nothing — two consumers can never both receive the
/// same generation of sample.
pub proof fn lemma_takes_strictly_ordered(s: SlotView)
    requires
        slot_wf(s),
        take_result(s) is Some,
    ensures
        take_trans(s).last_taken == s.generation,
        s.generation > s.last_taken,
        take_result(take_trans(s)) is None,
{
}

} // verus!
