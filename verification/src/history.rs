//! Bounded per-device histories of one scalar metric.
//!
//! A store keeps, for every device index it has seen, the most recent
//! samples of that device, oldest first. A buffer never holds more than
//! [`HISTORY_CAPACITY`] samples, and a buffer once created stays: the store
//! does not forget a device that stops reporting.

use std::collections::HashMap;
use vstd::prelude::*;

verus! {

broadcast use vstd::std_specs::hash::group_hash_axioms;

/// Most samples that a buffer retains.
pub const HISTORY_CAPACITY: usize = 100;

/// The last `limit` elements of `samples` (all of them if there are fewer).
pub open spec fn keep_last(samples: Seq<u64>, limit: nat) -> Seq<u64> {
    if samples.len() <= limit {
        samples
    } else {
        samples.subrange(samples.len() - limit, samples.len() as int)
    }
}

/// A buffer after `value` was pushed: the value goes to the end, and the
/// oldest sample leaves if the buffer would exceed its capacity.
pub open spec fn appended(buffer: Seq<u64>, value: u64) -> Seq<u64> {
    keep_last(buffer.push(value), HISTORY_CAPACITY as nat)
}

/// The samples that `history` holds for `device_index`; none for an index
/// without a buffer.
pub open spec fn series_in(history: Map<usize, Seq<u64>>, device_index: usize) -> Seq<u64> {
    if history.contains_key(device_index) {
        history[device_index]
    } else {
        Seq::empty()
    }
}

/// A history after `value` was pushed for `device_index`: that device's
/// buffer takes the value, every other buffer stays as it is.
pub open spec fn pushed(history: Map<usize, Seq<u64>>, device_index: usize, value: u64) -> Map<
    usize,
    Seq<u64>,
> {
    history.insert(device_index, appended(series_in(history, device_index), value))
}

/// A buffer after all of `values` were pushed, first to last.
pub open spec fn appended_all(buffer: Seq<u64>, values: Seq<u64>) -> Seq<u64>
    decreases values.len(),
{
    if values.len() == 0 {
        buffer
    } else {
        appended(appended_all(buffer, values.drop_last()), values.last())
    }
}

/// Whatever was pushed, a buffer holds the latest samples of its whole
/// past: the last `HISTORY_CAPACITY` of what it held followed by what came.
pub proof fn lemma_buffer_is_recent_past(buffer: Seq<u64>, values: Seq<u64>)
    requires
        buffer.len() <= HISTORY_CAPACITY,
    ensures
        appended_all(buffer, values) == keep_last(buffer + values, HISTORY_CAPACITY as nat),
        appended_all(buffer, values).len() <= HISTORY_CAPACITY,
    decreases values.len(),
{
    if values.len() == 0 {
        assert(buffer + values =~= buffer);
    } else {
        let front = values.drop_last();
        lemma_buffer_is_recent_past(buffer, front);
        assert((buffer + front).push(values.last()) =~= buffer + values);
        assert(appended_all(buffer, values) =~= keep_last(
            buffer + values,
            HISTORY_CAPACITY as nat,
        ));
    }
}

/// Once at least `HISTORY_CAPACITY` values were pushed, the buffer is full
/// and holds exactly the last `HISTORY_CAPACITY` of them, in order.
pub proof fn lemma_overflow_keeps_latest(buffer: Seq<u64>, values: Seq<u64>)
    requires
        buffer.len() <= HISTORY_CAPACITY,
        values.len() >= HISTORY_CAPACITY,
    ensures
        appended_all(buffer, values).len() == HISTORY_CAPACITY,
        appended_all(buffer, values) == values.subrange(
            values.len() - HISTORY_CAPACITY,
            values.len() as int,
        ),
{
    lemma_buffer_is_recent_past(buffer, values);
    assert(keep_last(buffer + values, HISTORY_CAPACITY as nat) =~= values.subrange(
        values.len() - HISTORY_CAPACITY,
        values.len() as int,
    ));
}

/// Histories of one metric, one bounded buffer per device index.
#[derive(Debug)]
pub struct HistoryStore {
    buffers: HashMap<usize, Vec<u64>>,
}

impl View for HistoryStore {
    type V = Map<usize, Seq<u64>>;

    /// The buffers by device index, each oldest sample first.
    closed spec fn view(&self) -> Map<usize, Seq<u64>> {
        self.buffers@.map_values(|b: Vec<u64>| b@)
    }
}

impl HistoryStore {
    #[verifier::type_invariant]
    spec fn bounded(self) -> bool {
        forall|d: usize| #[trigger]
            self.buffers@.contains_key(d) ==> self.buffers@[d]@.len() <= HISTORY_CAPACITY
    }

    /// A store without buffers.
    pub fn new() -> (store: HistoryStore)
        ensures
            store@ == Map::<usize, Seq<u64>>::empty(),
    {
        let store = HistoryStore { buffers: HashMap::new() };
        assert(store@ =~= Map::<usize, Seq<u64>>::empty());
        store
    }

    /// Whether no device has a buffer yet.
    pub fn is_empty(&self) -> (empty: bool)
        ensures
            empty == (self@ == Map::<usize, Seq<u64>>::empty()),
    {
        let empty = self.buffers.is_empty();
        proof {
            if empty {
                assert(self@ =~= Map::<usize, Seq<u64>>::empty());
            } else {
                let d = choose|d: usize| self.buffers@.contains_key(d);
                assert(self@.contains_key(d));
            }
        }
        empty
    }

    /// Appends `value` to the buffer of `device_index`, creating the buffer
    /// if the index is new and evicting the oldest sample of a full one.
    /// The other buffers stay as they are.
    pub fn push(&mut self, device_index: usize, value: u64)
        ensures
            final(self)@ == pushed(old(self)@, device_index, value),
    {
        proof {
            use_type_invariant(&*self);
        }
        let mut buffers: HashMap<usize, Vec<u64>> = HashMap::new();
        std::mem::swap(&mut self.buffers, &mut buffers);
        let mut buffer = match buffers.remove(&device_index) {
            Some(held) => held,
            None => Vec::new(),
        };
        assert(buffer@ == series_in(old(self)@, device_index));
        if buffer.len() >= HISTORY_CAPACITY {
            buffer.remove(0);
        }
        buffer.push(value);
        assert(buffer@ =~= appended(series_in(old(self)@, device_index), value));
        buffers.insert(device_index, buffer);
        self.buffers = buffers;
        assert(self@ =~= pushed(old(self)@, device_index, value));
    }

    /// The samples held for `device_index`, oldest first; at most
    /// `HISTORY_CAPACITY` of them, and none for an index never pushed to.
    pub fn series(&self, device_index: usize) -> (samples: Vec<u64>)
        ensures
            samples@ == series_in(self@, device_index),
            samples@.len() <= HISTORY_CAPACITY,
    {
        proof {
            use_type_invariant(self);
        }
        match self.buffers.get(&device_index) {
            Some(held) => {
                let samples = held.clone();
                assert(samples@ =~= held@);
                samples
            },
            None => Vec::new(),
        }
    }
}

} // verus!
