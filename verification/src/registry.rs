use vstd::prelude::*;
use vstd::pervasive::VecAdditionalExecFns;
use crate::sample::SampleBuffer;

verus! {

/// One delivery as a registered consumer observed it: the buffer handed over,
/// and whether the consumer's own processing of it succeeded.  A failing
/// consumer is isolated: its outcome never affects what its peers receive.
#[derive(Clone, Copy, PartialEq, Eq, Structural, Debug)]
pub struct Delivery {
    pub buffer: SampleBuffer,
    pub accepted: bool,
}

/// How many entries of `outcomes` are `false`: the number of consumers whose
/// processing of one dispatched buffer failed.
pub open spec fn count_false(outcomes: Seq<bool>) -> int
    decreases outcomes.len(),
{
    if outcomes.len() == 0 {
        0
    } else {
        count_false(outcomes.drop_last()) + if outcomes.last() {
            0int
        } else {
            1int
        }
    }
}

proof fn lemma_count_false_take_step(s: Seq<bool>, i: int)
    requires
        0 <= i < s.len(),
    ensures
        count_false(s.take(i + 1)) == count_false(s.take(i)) + if s[i] {
            0int
        } else {
            1int
        },
{
    assert(s.take(i + 1).drop_last() =~= s.take(i));
    assert(s.take(i + 1).last() == s[i]);
}

/// One registered consumer: the log of every delivery it has received so far,
/// oldest first, and (ghost) how many buffers the registry had already
/// dispatched at the moment it registered.
pub struct OutputSlot {
    received: Vec<Delivery>,
    registered_at: Ghost<nat>,
}

/// The ordered set of registered consumers, together with the (ghost) log of
/// every buffer dispatched through the registry, oldest first.
///
/// The registry routes each incoming buffer to every registered consumer,
/// in registration order, exactly once; it performs no re-ordering, no
/// buffering and no batching.  A consumer registered at dispatch position `p`
/// holds, at all times, exactly the dispatched buffers from position `p` on,
/// in dispatch order.
pub struct OutputRegistry {
    slots: Vec<OutputSlot>,
    dispatched: Ghost<Seq<SampleBuffer>>,
}

impl OutputRegistry {
    /// Every buffer dispatched so far, in delivery order.
    pub closed spec fn log(self) -> Seq<SampleBuffer> {
        self.dispatched@
    }

    /// How many consumers are registered.
    pub closed spec fn slot_count(self) -> nat {
        self.slots@.len()
    }

    /// The deliveries consumer `i` has received, oldest first.
    pub closed spec fn received_of(self, i: int) -> Seq<Delivery> {
        self.slots@[i].received@
    }

    /// The dispatch position at which consumer `i` registered.
    pub closed spec fn registered_at(self, i: int) -> nat {
        self.slots@[i].registered_at@
    }

    /// Consumer `i`'s log is exactly the suffix of the dispatch log from its
    /// registration position on: no gap, no duplicate, no re-ordering.
    pub open spec fn slot_consistent(self, i: int) -> bool {
        &&& self.registered_at(i) + self.received_of(i).len() == self.log().len()
        &&& forall|j: int|
            0 <= j < self.received_of(i).len() ==> self.received_of(i)[j].buffer == self.log()[self.registered_at(
                i,
            ) + j]
    }

    /// Every registered consumer's log is consistent with the dispatch log.
    pub open spec fn well_formed(self) -> bool {
        forall|i: int| 0 <= i < self.slot_count() ==> #[trigger] self.slot_consistent(i)
    }

    /// An empty registry: no consumers, nothing dispatched.
    pub fn new() -> (r: Self)
        ensures
            r.well_formed(),
            r.slot_count() == 0,
            r.log() == Seq::<SampleBuffer>::empty(),
    {
        OutputRegistry { slots: Vec::new(), dispatched: Ghost(Seq::empty()) }
    }

    /// Appends one consumer.  The new consumer starts with an empty log and
    /// will observe exactly the buffers dispatched from now on; the existing
    /// consumers and the dispatch log are untouched.
    pub fn add_slot(&mut self) -> (idx: usize)
        requires
            old(self).well_formed(),
        ensures
            final(self).well_formed(),
            idx == old(self).slot_count(),
            final(self).slot_count() == old(self).slot_count() + 1,
            final(self).log() == old(self).log(),
            forall|i: int|
                0 <= i < old(self).slot_count() ==> #[trigger] final(self).received_of(i) == old(
                    self,
                ).received_of(i),
            forall|i: int|
                0 <= i < old(self).slot_count() ==> #[trigger] final(self).registered_at(i) == old(
                    self,
                ).registered_at(i),
            final(self).received_of(old(self).slot_count() as int) == Seq::<Delivery>::empty(),
            final(self).registered_at(old(self).slot_count() as int) == old(self).log().len(),
    {
        let idx = self.slots.len();
        let slot = OutputSlot { received: Vec::new(), registered_at: Ghost(self.dispatched@.len()) };
        self.slots.push(slot);
        proof {
            assert forall|i: int| 0 <= i < self.slot_count() implies #[trigger] self.slot_consistent(
                i,
            ) by {
                if i < old(self).slot_count() {
                    assert(old(self).slot_consistent(i));
                    assert(self.slots@[i] == old(self).slots@[i]);
                }
            }
        }
        idx
    }

    /// Routes one buffer to every registered consumer, in registration order.
    ///
    /// `outcomes[i]` is whether consumer `i`'s own processing of the buffer
    /// succeeds; that verdict is the consumer's alone and is supplied by the
    /// embedding layer that runs the consumer callbacks.  Every consumer
    /// receives the buffer whatever the outcomes are, so one failing consumer
    /// never suppresses delivery to a peer.  Returns how many consumers
    /// failed, as the diagnostic the caller reports out of band.
    #[verifier::loop_isolation(false)]
    pub fn dispatch(&mut self, buffer: SampleBuffer, outcomes: &Vec<bool>) -> (failures: usize)
        requires
            old(self).well_formed(),
            outcomes@.len() == old(self).slot_count(),
        ensures
            final(self).well_formed(),
            final(self).slot_count() == old(self).slot_count(),
            final(self).log() == old(self).log().push(buffer),
            forall|i: int|
                0 <= i < old(self).slot_count() ==> #[trigger] final(self).received_of(i) == old(
                    self,
                ).received_of(i).push(Delivery { buffer, accepted: outcomes@[i] }),
            forall|i: int|
                0 <= i < old(self).slot_count() ==> #[trigger] final(self).registered_at(i) == old(
                    self,
                ).registered_at(i),
            failures as int == count_false(outcomes@),
    {
        self.dispatched = Ghost(self.dispatched@.push(buffer));
        let mut failures: usize = 0;
        let n = self.slots.len();
        let mut i: usize = 0;
        while i < n
            invariant
                i <= n,
                failures <= i,
                failures as int == count_false(outcomes@.take(i as int)),
                self.dispatched@ == old(self).log().push(buffer),
                self.slots@.len() == n,
                forall|k: int|
                    0 <= k < i ==> #[trigger] self.slots@[k].received@ == old(self).received_of(
                        k,
                    ).push(Delivery { buffer, accepted: outcomes@[k] }),
                forall|k: int|
                    0 <= k < i ==> #[trigger] self.slots@[k].registered_at@ == old(
                        self,
                    ).registered_at(k),
                forall|k: int| i <= k < n ==> #[trigger] self.slots@[k] == old(self).slots@[k],
            decreases n - i,
        {
            let accepted = outcomes[i];
            let mut slot = OutputSlot { received: Vec::new(), registered_at: Ghost(0) };
            self.slots.set_and_swap(i, &mut slot);
            slot.received.push(Delivery { buffer, accepted });
            self.slots.set_and_swap(i, &mut slot);
            if !accepted {
                failures = failures + 1;
            }
            proof {
                lemma_count_false_take_step(outcomes@, i as int);
            }
            i = i + 1;
        }
        proof {
            assert(outcomes@.take(n as int) =~= outcomes@);
            assert forall|k: int| 0 <= k < n implies #[trigger] self.slot_consistent(k) by {
                assert(old(self).slot_consistent(k));
            }
        }
        failures
    }

    /// The deliveries consumer `i` has received so far, oldest first.
    pub fn received(&self, i: usize) -> (v: &Vec<Delivery>)
        requires
            i < self.slot_count(),
        ensures
            v@ == self.received_of(i as int),
    {
        &self.slots[i].received
    }

    /// How many consumers are registered.
    pub fn len(&self) -> (n: usize)
        ensures
            n == self.slot_count(),
    {
        self.slots.len()
    }
}

} // verus!
