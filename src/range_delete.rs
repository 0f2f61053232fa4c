//! The two-phase range delete: collect keys from a forward iterator, close
//! the iterator, then confirm and delete each collected key in turn.
//!
//! The executor never touches the store itself. It answers each event that
//! the caller reports with the next action the caller must perform, so that
//! no confirm or delete is ever asked for while the iterator is open.
use vstd::prelude::*;

verus! {

/// Where the executor stands, and which event it waits for.
#[derive(PartialEq, Eq, Structural, Clone, Copy, Debug)]
pub enum Phase {
    /// The iterator is open; waiting for its next item or its end.
    Collecting,
    /// Enough keys were collected or the iterator ran out; waiting for the
    /// iterator to be closed.
    Closing,
    /// Waiting for the lookup of the key at `next`.
    Confirming,
    /// Waiting for the delete of the key at `next`.
    Deleting,
    /// Every collected key was deleted.
    Finished,
    /// A fault was reported; nothing more is asked for.
    Failed,
}

/// What the caller reports about the action it performed.
#[derive(PartialEq, Eq, Clone, Debug)]
pub enum Event {
    /// The iterator produced this key.
    Item(Vec<u8>),
    /// The iterator has no more items.
    Exhausted,
    /// The iterator was closed and its resources released.
    Closed,
    /// The lookup found the key with its whole value.
    Found,
    /// The lookup found the key but its value came back truncated.
    FoundTruncated,
    /// The lookup did not find the key.
    NotFound,
    /// The key was deleted.
    Deleted,
}

/// What the caller must do next.
#[derive(PartialEq, Eq, Clone, Debug)]
pub enum Action {
    /// Advance the open iterator.
    Advance,
    /// Close the iterator.
    CloseIterator,
    /// Look this key up.
    Confirm(Vec<u8>),
    /// Delete this key.
    Delete(Vec<u8>),
    /// The range delete is over; this many keys were deleted.
    Done(usize),
}

/// Why the range delete cannot go on.
#[derive(PartialEq, Eq, Structural, Clone, Copy, Debug)]
pub enum Fault {
    /// A collected key came back with a truncated value.
    TruncatedValue,
    /// A key that the iterator had just produced was not found.
    MissingKey,
    /// The event does not answer the action that was asked for.
    UnexpectedEvent,
}

/// The state of one range delete.
pub struct RangeDelete {
    /// The most keys to collect.
    pub limit: usize,
    /// The keys collected, in the order the iterator produced them.
    pub keys: Vec<Vec<u8>>,
    /// Index of the key being confirmed or deleted; every key before it has
    /// been deleted.
    pub next: usize,
    pub phase: Phase,
}

/// The byte contents of a list of keys.
pub open spec fn key_seqs(keys: Seq<Vec<u8>>) -> Seq<Seq<u8>> {
    keys.map_values(|k: Vec<u8>| k@)
}

/// Whether the iterator is open in `phase`.
pub open spec fn iterator_open(phase: Phase) -> bool {
    phase == Phase::Collecting || phase == Phase::Closing
}

/// Whether `r` asks for the lookup of `key`.
pub open spec fn asks_confirm(r: Result<Action, Fault>, key: Seq<u8>) -> bool {
    match r {
        Ok(Action::Confirm(k)) => k@ == key,
        _ => false,
    }
}

/// Whether `r` asks for the delete of `key`.
pub open spec fn asks_delete(r: Result<Action, Fault>, key: Seq<u8>) -> bool {
    match r {
        Ok(Action::Delete(k)) => k@ == key,
        _ => false,
    }
}

/// A copy of `k`, byte for byte.
fn copy_key(k: &Vec<u8>) -> (r: Vec<u8>)
    ensures
        r@ == k@,
{
    let mut r: Vec<u8> = Vec::new();
    let mut i: usize = 0;
    while i < k.len()
        invariant
            i <= k@.len(),
            r@ == k@.subrange(0, i as int),
        decreases k@.len() - i,
    {
        r.push(k[i]);
        i = i + 1;
        assert(r@ =~= k@.subrange(0, i as int));
    }
    assert(r@ =~= k@);
    r
}

impl RangeDelete {
    /// The collected keys, as byte sequences.
    pub open spec fn collected(&self) -> Seq<Seq<u8>> {
        key_seqs(self.keys@)
    }

    /// The collected keys that have been deleted.
    pub open spec fn deleted(&self) -> Seq<Seq<u8>> {
        if self.phase == Phase::Finished {
            self.collected()
        } else if self.phase == Phase::Confirming || self.phase == Phase::Deleting || self.phase
            == Phase::Failed {
            self.collected().take(self.next as int)
        } else {
            Seq::empty()
        }
    }

    pub open spec fn wf(&self) -> bool {
        &&& self.keys@.len() <= self.limit
        &&& self.next <= self.keys@.len()
        &&& self.phase == Phase::Collecting ==> self.keys@.len() < self.limit && self.next == 0
        &&& self.phase == Phase::Closing ==> self.next == 0
        &&& (self.phase == Phase::Confirming || self.phase == Phase::Deleting || self.phase
            == Phase::Failed) ==> self.next < self.keys@.len()
        &&& self.phase == Phase::Finished ==> self.next == self.keys@.len()
    }

    /// A range delete of at most `limit` keys, over an iterator that the
    /// caller has just opened, and the first action to perform.
    pub fn new(limit: usize) -> (r: (RangeDelete, Action))
        ensures
            r.0.wf(),
            r.0.limit == limit,
            r.0.keys@.len() == 0,
            limit > 0 ==> r.0.phase == Phase::Collecting && r.1 == Action::Advance,
            limit == 0 ==> r.0.phase == Phase::Closing && r.1 == Action::CloseIterator,
    {
        if limit > 0 {
            (RangeDelete { limit, keys: Vec::new(), next: 0, phase: Phase::Collecting }, Action::Advance)
        } else {
            (RangeDelete { limit, keys: Vec::new(), next: 0, phase: Phase::Closing }, Action::CloseIterator)
        }
    }

    /// The action that asks for the key at `next`: its confirmation.
    fn confirm_next(&self) -> (r: Action)
        requires
            self.next < self.keys@.len(),
        ensures
            r matches Action::Confirm(k) && k@ == self.collected()[self.next as int],
    {
        Action::Confirm(copy_key(&self.keys[self.next]))
    }

    /// Takes the event that answers the last action and returns the next
    /// action, or the fault that ends the range delete.
    pub fn step(&mut self, ev: Event) -> (r: Result<Action, Fault>)
        requires
            old(self).wf(),
        ensures
            final(self).wf(),
            final(self).limit == old(self).limit,
            // keys come from the iterator alone, in its order, and only while it is open
            match ev {
                Event::Item(k) => if old(self).phase == Phase::Collecting {
                    final(self).collected() == old(self).collected().push(k@)
                } else {
                    final(self).collected() == old(self).collected()
                },
                _ => final(self).collected() == old(self).collected(),
            },
            // the iterator stays open until the caller reports it closed
            old(self).phase == Phase::Collecting ==> match ev {
                Event::Item(_) => if old(self).keys@.len() + 1 == old(self).limit {
                    final(self).phase == Phase::Closing && r == Ok::<Action, Fault>(
                        Action::CloseIterator,
                    )
                } else {
                    final(self).phase == Phase::Collecting && r == Ok::<Action, Fault>(
                        Action::Advance,
                    )
                },
                Event::Exhausted => final(self).phase == Phase::Closing && r == Ok::<
                    Action,
                    Fault,
                >(Action::CloseIterator),
                _ => r == Err::<Action, Fault>(Fault::UnexpectedEvent) && *final(self) == *old(
                    self,
                ),
            },
            old(self).phase == Phase::Closing ==> if ev == Event::Closed {
                if old(self).keys@.len() == 0 {
                    final(self).phase == Phase::Finished && r == Ok::<Action, Fault>(
                        Action::Done(0),
                    )
                } else {
                    final(self).phase == Phase::Confirming && final(self).next == 0
                        && asks_confirm(r, old(self).collected()[0])
                }
            } else {
                r == Err::<Action, Fault>(Fault::UnexpectedEvent) && *final(self) == *old(self)
            },
            // each collected key is confirmed, then deleted, in order
            old(self).phase == Phase::Confirming ==> match ev {
                Event::Found => final(self).phase == Phase::Deleting && final(self).next
                    == old(self).next && asks_delete(r, old(self).collected()[old(self).next as int]),
                Event::NotFound => final(self).phase == Phase::Failed && final(self).next == old(
                    self,
                ).next && r == Err::<
                    Action,
                    Fault,
                >(Fault::MissingKey),
                Event::FoundTruncated => final(self).phase == Phase::Failed && final(self).next
                    == old(self).next && r == Err::<
                    Action,
                    Fault,
                >(Fault::TruncatedValue),
                _ => r == Err::<Action, Fault>(Fault::UnexpectedEvent) && *final(self) == *old(
                    self,
                ),
            },
            old(self).phase == Phase::Deleting ==> if ev == Event::Deleted {
                final(self).next == old(self).next + 1 && if old(self).next + 1 == old(
                    self,
                ).keys@.len() {
                    final(self).phase == Phase::Finished && r == Ok::<Action, Fault>(
                        Action::Done(old(self).keys@.len() as usize),
                    )
                } else {
                    final(self).phase == Phase::Confirming && asks_confirm(
                        r,
                        old(self).collected()[old(self).next + 1],
                    )
                }
            } else {
                r == Err::<Action, Fault>(Fault::UnexpectedEvent) && *final(self) == *old(self)
            },
            (old(self).phase == Phase::Finished || old(self).phase == Phase::Failed) ==> r
                == Err::<Action, Fault>(Fault::UnexpectedEvent) && *final(self) == *old(self),
            // no confirm or delete is asked for while the iterator is open
            r matches Ok(Action::Confirm(_)) ==> !iterator_open(final(self).phase),
            r matches Ok(Action::Delete(_)) ==> !iterator_open(final(self).phase),
    {
        match self.phase {
            Phase::Collecting => match ev {
                Event::Item(k) => {
                    self.keys.push(k);
                    proof {
                        assert(key_seqs(self.keys@) =~= key_seqs(old(self).keys@).push(k@));
                    }
                    if self.keys.len() == self.limit {
                        self.phase = Phase::Closing;
                        Ok(Action::CloseIterator)
                    } else {
                        Ok(Action::Advance)
                    }
                },
                Event::Exhausted => {
                    self.phase = Phase::Closing;
                    Ok(Action::CloseIterator)
                },
                _ => Err(Fault::UnexpectedEvent),
            },
            Phase::Closing => match ev {
                Event::Closed => {
                    if self.keys.len() == 0 {
                        self.phase = Phase::Finished;
                        Ok(Action::Done(0))
                    } else {
                        self.phase = Phase::Confirming;
                        Ok(self.confirm_next())
                    }
                },
                _ => Err(Fault::UnexpectedEvent),
            },
            Phase::Confirming => match ev {
                Event::Found => {
                    self.phase = Phase::Deleting;
                    Ok(Action::Delete(copy_key(&self.keys[self.next])))
                },
                Event::NotFound => {
                    self.phase = Phase::Failed;
                    Err(Fault::MissingKey)
                },
                Event::FoundTruncated => {
                    self.phase = Phase::Failed;
                    Err(Fault::TruncatedValue)
                },
                _ => Err(Fault::UnexpectedEvent),
            },
            Phase::Deleting => match ev {
                Event::Deleted => {
                    self.next = self.next + 1;
                    if self.next == self.keys.len() {
                        self.phase = Phase::Finished;
                        Ok(Action::Done(self.keys.len()))
                    } else {
                        self.phase = Phase::Confirming;
                        Ok(self.confirm_next())
                    }
                },
                _ => Err(Fault::UnexpectedEvent),
            },
            _ => Err(Fault::UnexpectedEvent),
        }
    }
}

} // verus!
