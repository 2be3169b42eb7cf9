//! The cache slot that each item owns: at most one artifact, made anew only
//! when the properties it was made from have changed.

use vstd::prelude::*;

verus! {

/// The slot of one item. `T` is what is cached.
#[derive(Debug)]
pub struct ItemCacheSlot<T> {
    /// Nothing while the slot was never filled; else what the producer gave
    /// last, which may be that there is no artifact.
    pub entry: Option<Option<T>>,
}

/// What making sure of a slot gives.
#[derive(Debug)]
pub struct Ensured<T> {
    /// The artifact that the slot holds now.
    pub artifact: Option<T>,
    /// The artifact that it held before, where that was replaced: its
    /// holder lets go of it.
    pub displaced: Option<T>,
}

impl<T: Copy> ItemCacheSlot<T> {
    /// A slot that was never filled.
    pub fn new() -> (slot: Self)
        ensures
            slot.entry is None,
    {
        ItemCacheSlot { entry: None }
    }

    /// Whether the producer runs: the slot was never filled, or what it
    /// holds is stale.
    pub open spec fn must_produce(&self, still_valid: bool) -> bool {
        self.entry is None || !still_valid
    }

    /// Returns what the slot holds, if the dependency tracker says that it
    /// is `still_valid`. Else runs `producer`, stores what it gives, which
    /// may be no artifact, and returns that; the artifact that was stored
    /// before is handed back as displaced. The producer runs in no other case.
    pub fn ensure_up_to_date<F: FnOnce() -> Option<T>>(&mut self, still_valid: bool, producer: F) -> (ensured:
        Ensured<T>)
        requires
            call_requires(producer, ()),
        ensures
            !old(self).must_produce(still_valid) ==> {
                &&& final(self).entry == old(self).entry
                &&& ensured.artifact == old(self).entry->0
                &&& ensured.displaced is None
            },
            old(self).must_produce(still_valid) ==> {
                &&& call_ensures(producer, (), ensured.artifact)
                &&& final(self).entry == Some(ensured.artifact)
                &&& ensured.displaced == (match old(self).entry {
                    Some(previous) => previous,
                    None => None,
                })
            },
            !final(self).must_produce(true),
    {
        match self.entry {
            Some(cached) => {
                if still_valid {
                    return Ensured { artifact: cached, displaced: None };
                }
                let produced = producer();
                self.entry = Some(produced);
                Ensured { artifact: produced, displaced: cached }
            },
            None => {
                let produced = producer();
                self.entry = Some(produced);
                Ensured { artifact: produced, displaced: None }
            },
        }
    }

    /// Empties the slot, as when its item goes away, and hands back the
    /// artifact that it held.
    pub fn clear(&mut self) -> (displaced: Option<T>)
        ensures
            final(self).entry is None,
            displaced == (match old(self).entry {
                Some(previous) => previous,
                None => None,
            }),
    {
        let displaced = match self.entry {
            Some(previous) => previous,
            None => None,
        };
        self.entry = None;
        displaced
    }
}

/// A slot is made sure of at most once for each change: right after it was
/// made sure of, it holds what was returned, and making sure of it again with
/// nothing changed in between would not run the producer.
pub proof fn lemma_at_most_one_production<T: Copy>(slot: ItemCacheSlot<T>, artifact: Option<T>)
    requires
        slot.entry == Some(artifact),
    ensures
        !slot.must_produce(true),
        slot.must_produce(false),
{
}

} // verus!
