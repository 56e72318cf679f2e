//! The broadcast channel: one writer, any number of readers, and only the
//! latest value kept.
//!
//! A channel is modelled by the sequence of every value published on it, in
//! order. Its version is the length of that sequence and its current value is
//! the last element. A subscription is modelled by the number of publications
//! its reader has already accounted for, its watermark.
//!
//! New subscriptions start with watermark zero. A reader that subscribes
//! after something has been published therefore receives the current value on
//! its first request, and a reader that subscribes before the first
//! publication receives nothing until there is one.
//!
//! Waking a waiting reader is the caller's business. The channel only answers
//! whether there is something new for a given subscription.
use vstd::prelude::*;

verus! {

/// The value held by a channel on which `published` has been published: the
/// most recent publication, or the empty text before the first one.
pub open spec fn current_value(published: Seq<Seq<char>>) -> Seq<char> {
    if published.len() == 0 {
        Seq::empty()
    } else {
        published.last()
    }
}

/// What a reader with watermark `seen` is handed when it asks a channel with
/// history `published` for a change: the latest value if any publication lies
/// beyond the watermark, and nothing otherwise. Publications between the
/// watermark and the latest one are skipped.
pub open spec fn pending(published: Seq<Seq<char>>, seen: nat) -> Option<Seq<char>> {
    if seen < published.len() {
        Some(published.last())
    } else {
        None
    }
}

/// The watermark of a reader after it has asked a channel with history
/// `published` for a change.
pub open spec fn caught_up(published: Seq<Seq<char>>, seen: nat) -> nat {
    if seen < published.len() {
        published.len()
    } else {
        seen
    }
}

/// The value most recently handed to a reader whose watermark is `seen`:
/// publication number `seen`, or nothing for a reader that has not been handed
/// anything yet.
pub open spec fn last_received(published: Seq<Seq<char>>, seen: nat) -> Option<Seq<char>> {
    if 0 < seen <= published.len() {
        Some(published[seen - 1])
    } else {
        None
    }
}

/// A reader's position in a channel's history.
#[derive(Debug)]
pub struct Subscription {
    seen: u64,
}

impl View for Subscription {
    type V = nat;

    /// The watermark: how many publications the reader has accounted for.
    closed spec fn view(&self) -> nat {
        self.seen as nat
    }
}

impl Subscription {
    /// The watermark.
    pub fn seen(&self) -> (seen: u64)
        ensures
            seen == self@,
    {
        self.seen
    }
}

/// The shared slot that holds the latest rendered output.
pub struct BroadcastChannel {
    version: u64,
    value: String,
    published: Ghost<Seq<Seq<char>>>,
}

impl View for BroadcastChannel {
    type V = Seq<Seq<char>>;

    /// Every value published so far, oldest first.
    closed spec fn view(&self) -> Seq<Seq<char>> {
        self.published@
    }
}

impl BroadcastChannel {
    #[verifier::type_invariant]
    spec fn well_formed(self) -> bool {
        &&& self.version == self.published@.len()
        &&& self.value@ == current_value(self.published@)
    }

    /// A channel on which nothing has been published yet.
    pub fn new() -> (channel: Self)
        ensures
            channel@ == Seq::<Seq<char>>::empty(),
    {
        BroadcastChannel { version: 0, value: String::new(), published: Ghost(Seq::empty()) }
    }

    /// The number of publications so far.
    pub fn version(&self) -> (version: u64)
        ensures
            version == self@.len(),
    {
        proof {
            use_type_invariant(self);
        }
        self.version
    }

    /// The current value.
    pub fn current(&self) -> (value: &String)
        ensures
            value@ == current_value(self@),
    {
        proof {
            use_type_invariant(self);
        }
        &self.value
    }

    /// Replaces the current value. Every subscription whose watermark lies
    /// below the new version has a change pending afterwards.
    ///
    /// The version is a 64-bit counter, so a channel takes at most
    /// `u64::MAX` publications.
    pub fn publish(&mut self, value: String)
        requires
            old(self)@.len() < u64::MAX,
        ensures
            final(self)@ == old(self)@.push(value@),
    {
        proof {
            use_type_invariant(&*self);
        }
        let ghost published = self.published@.push(value@);
        *self = BroadcastChannel {
            version: self.version + 1,
            value,
            published: Ghost(published),
        };
    }

    /// A new subscription, with watermark zero.
    pub fn subscribe(&self) -> (subscription: Subscription)
        ensures
            subscription@ == 0,
    {
        Subscription { seen: 0 }
    }

    /// Whether a request through `subscription` would hand out a value.
    pub fn has_changed(&self, subscription: &Subscription) -> (changed: bool)
        ensures
            changed == pending(self@, subscription@).is_some(),
    {
        proof {
            use_type_invariant(self);
        }
        subscription.seen < self.version
    }

    /// Hands out the current value if it is newer than the subscription's
    /// watermark, and moves the watermark up to the channel's version.
    ///
    /// This is the part of waiting for a change that does not wait. A reader
    /// that gets `None` sleeps until the writer has published and asks again.
    pub fn take_change(&self, subscription: &mut Subscription) -> (change: Option<String>)
        ensures
            change.is_some() == pending(self@, old(subscription)@).is_some(),
            change matches Some(value) ==> Some(value@) == pending(self@, old(subscription)@),
            change matches Some(value) ==> Some(value@) == last_received(
                self@,
                final(subscription)@,
            ),
            final(subscription)@ == caught_up(self@, old(subscription)@),
    {
        proof {
            use_type_invariant(self);
        }
        if subscription.seen < self.version {
            subscription.seen = self.version;
            Some(self.value.clone())
        } else {
            None
        }
    }
}

/// Fan-out. Once something has been published, every reader of the channel,
/// wherever its watermark stands, ends up with the latest value: a reader
/// that is behind is handed it by its next request, and after that request
/// every reader has it as the value it received last and has nothing more
/// pending.
pub proof fn lemma_every_reader_reaches_latest(published: Seq<Seq<char>>, readers: Seq<nat>)
    requires
        published.len() > 0,
        forall|i: int| 0 <= i < readers.len() ==> #[trigger] readers[i] <= published.len(),
    ensures
        forall|i: int|
            0 <= i < readers.len() ==> {
                let seen = #[trigger] readers[i];
                let after = caught_up(published, seen);
                &&& seen < published.len() ==> pending(published, seen) == Some(published.last())
                &&& after == published.len()
                &&& last_received(published, after) == Some(published.last())
                &&& pending(published, after) is None
            },
{
}

/// Order. A request never moves a watermark back. A request that hands out a
/// value moves the watermark forward, to the number of the publication it
/// hands out. Publications only append, so a reader is never handed a value
/// that was published before one it has already received.
pub proof fn lemma_reader_moves_forward(published: Seq<Seq<char>>, seen: nat)
    ensures
        caught_up(published, seen) >= seen,
        pending(published, seen) is Some ==> {
            &&& caught_up(published, seen) > seen
            &&& pending(published, seen) == last_received(published, caught_up(published, seen))
        },
        pending(published, seen) is None ==> caught_up(published, seen) == seen,
{
}

/// Last value wins. A reader that falls behind by any number of publications
/// is handed the latest of them alone, and nothing of those in between.
pub proof fn lemma_slow_reader_skips_ahead(
    published: Seq<Seq<char>>,
    missed: Seq<Seq<char>>,
    seen: nat,
)
    requires
        seen <= published.len(),
        missed.len() > 0,
    ensures
        pending(published + missed, seen) == Some(missed.last()),
        caught_up(published + missed, seen) == published.len() + missed.len(),
        pending(published + missed, caught_up(published + missed, seen)) is None,
{
}

} // verus!
