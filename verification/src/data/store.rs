use super::snapshot::DataSnapshot;
use crate::config::GRAPH_X_AXIS_WINDOW_IN_SECONDS;
use vstd::prelude::*;

verus! {

/// What the history keeps of one tick: CPU usage and memory use (memory and
/// swap together) in thousandths of a percent, and, where the tick's snapshot
/// had a GPU sample, the GPU's utilization in percent and its used memory in
/// bytes.
#[derive(Clone, Copy, Debug, PartialEq, Eq)]
pub struct StoredSnapshot {
    pub cpu_use: u32,
    pub mem_use: u32,
    pub gpu_use: Option<u32>,
    pub gpu_mem_use: Option<u64>,
}

impl StoredSnapshot {
    /// The summary of a snapshot that holds CPU and memory.
    pub open spec fn summary_of(snapshot: DataSnapshot) -> StoredSnapshot {
        StoredSnapshot {
            cpu_use: snapshot.cpu->0.usage,
            mem_use: snapshot.memory->0.spec_total_percent() as u32,
            gpu_use: match snapshot.gpu {
                Some(g) => Some(g.utilization),
                None => None,
            },
            gpu_mem_use: match snapshot.gpu {
                Some(g) => Some(g.used_memory),
                None => None,
            },
        }
    }

    /// Summarizes a snapshot for the history. The snapshot has to hold the CPU
    /// and the memory; a missing GPU sample stays missing in the summary.
    pub fn from_data_snapshot(snapshot: &DataSnapshot) -> (stored: StoredSnapshot)
        requires
            snapshot.cpu is Some,
            snapshot.memory is Some,
        ensures
            stored == Self::summary_of(*snapshot),
    {
        let (gpu_use, gpu_mem_use) = match &snapshot.gpu {
            Some(g) => (Some(g.utilization), Some(g.used_memory)),
            None => (None, None),
        };
        let cpu_use = match &snapshot.cpu {
            Some(c) => c.usage,
            None => 0,
        };
        let mem_use = match &snapshot.memory {
            Some(m) => m.total_percent(),
            None => 0,
        };
        StoredSnapshot { cpu_use, mem_use, gpu_use, gpu_mem_use }
    }
}

/// The last `n` items of `s`, oldest first; all of `s` where it has no more
/// than `n`.
pub open spec fn most_recent<T>(s: Seq<T>, n: int) -> Seq<T> {
    if n <= 0 {
        Seq::empty()
    } else if s.len() <= n {
        s
    } else {
        s.subrange(s.len() - n, s.len() as int)
    }
}

/// What a history of bound `bound` holds after `items` were saved into it one
/// by one, when it held `start` before.
pub open spec fn saved_all<T>(start: Seq<T>, bound: int, items: Seq<T>) -> Seq<T>
    decreases items.len(),
{
    if items.len() == 0 {
        start
    } else {
        most_recent(saved_all(start, bound, items.drop_last()).push(items.last()), bound)
    }
}

/// A history that starts empty holds, after any run of saves, the most recent
/// `bound` of the saved items, oldest first, and so never more than `bound`.
pub proof fn lemma_history_keeps_most_recent<T>(bound: int, items: Seq<T>)
    ensures
        saved_all(Seq::<T>::empty(), bound, items) == most_recent(items, bound),
        saved_all(Seq::<T>::empty(), bound, items).len() <= if bound < 0 {
            0
        } else {
            bound
        },
    decreases items.len(),
{
    if items.len() > 0 {
        let earlier = items.drop_last();
        lemma_history_keeps_most_recent(bound, earlier);
        assert(earlier.push(items.last()) == items);
        assert(most_recent(most_recent(earlier, bound).push(items.last()), bound) == most_recent(
            items,
            bound,
        ));
    }
}

/// The history behind the graphs: the summaries of the latest ticks, oldest
/// first, never more than the bound it was made with.
#[derive(Debug)]
pub struct DataStore {
    snapshots: Vec<StoredSnapshot>,
    bound: usize,
}

impl View for DataStore {
    type V = Seq<StoredSnapshot>;

    closed spec fn view(&self) -> Seq<StoredSnapshot> {
        self.snapshots@
    }
}

impl Default for DataStore {
    fn default() -> (store: DataStore)
        ensures
            store@ == Seq::<StoredSnapshot>::empty(),
            store.spec_bound() == GRAPH_X_AXIS_WINDOW_IN_SECONDS,
    {
        DataStore::new()
    }
}

impl DataStore {
    #[verifier::type_invariant]
    spec fn within_bound(&self) -> bool {
        self.snapshots@.len() <= self.bound
    }

    pub closed spec fn spec_bound(&self) -> usize {
        self.bound
    }

    /// An empty history as long as the graph's time axis.
    pub fn new() -> (store: DataStore)
        ensures
            store@ == Seq::<StoredSnapshot>::empty(),
            store.spec_bound() == GRAPH_X_AXIS_WINDOW_IN_SECONDS,
    {
        DataStore { snapshots: Vec::new(), bound: GRAPH_X_AXIS_WINDOW_IN_SECONDS }
    }

    /// An empty history that keeps up to `bound` summaries.
    pub fn with_bound(bound: usize) -> (store: DataStore)
        ensures
            store@ == Seq::<StoredSnapshot>::empty(),
            store.spec_bound() == bound,
    {
        DataStore { snapshots: Vec::new(), bound }
    }

    /// The most summaries this history keeps.
    #[verifier::when_used_as_spec(spec_bound)]
    pub fn bound(&self) -> (bound: usize)
        ensures
            bound == self.spec_bound(),
    {
        self.bound
    }

    /// How many summaries the history holds.
    pub fn len(&self) -> (n: usize)
        ensures
            n == self@.len(),
            n <= self.bound(),
    {
        proof {
            use_type_invariant(self);
        }
        self.snapshots.len()
    }

    /// The summaries held, oldest first.
    pub fn snapshots(&self) -> (held: &Vec<StoredSnapshot>)
        ensures
            held@ == self@,
            held@.len() <= self.bound(),
    {
        proof {
            use_type_invariant(self);
        }
        &self.snapshots
    }

    /// Appends a summary; where that would exceed the bound, the oldest
    /// summary leaves.
    pub fn save(&mut self, snapshot: StoredSnapshot)
        ensures
            final(self).bound() == old(self).bound(),
            final(self)@ == most_recent(old(self)@.push(snapshot), old(self).bound() as int),
            final(self)@.len() <= final(self).bound(),
    {
        proof {
            use_type_invariant(&*self);
        }
        if self.bound == 0 {
            return ;
        }
        let mut held: Vec<StoredSnapshot> = Vec::new();
        core::mem::swap(&mut self.snapshots, &mut held);
        if held.len() == self.bound {
            held.remove(0);
        }
        held.push(snapshot);
        self.snapshots = held;
    }

    /// The latest summaries, oldest first, and no more than `limit` of them.
    pub fn recent(&self, limit: usize) -> (window: Vec<StoredSnapshot>)
        ensures
            window@ == most_recent(self@, limit as int),
    {
        let n = self.snapshots.len();
        let start: usize = if n <= limit {
            0
        } else {
            n - limit
        };
        let mut window: Vec<StoredSnapshot> = Vec::new();
        let mut i: usize = start;
        while i < n
            invariant
                start <= i <= n,
                n == self.snapshots@.len(),
                window@ == self.snapshots@.subrange(start as int, i as int),
            decreases n - i,
        {
            window.push(self.snapshots[i]);
            i += 1;
        }
        window
    }

    /// The GPU utilization of those of the latest `limit` summaries that have
    /// one, oldest first: a tick without a GPU sample gives no point.
    pub fn gpu_use_series(&self, limit: usize) -> (series: Vec<u32>)
        ensures
            series@ == most_recent(self@, limit as int).filter_map(|s: StoredSnapshot| s.gpu_use),
    {
        let window = self.recent(limit);
        let ghost pick = |s: StoredSnapshot| s.gpu_use;
        let mut series: Vec<u32> = Vec::new();
        let mut i: usize = 0;
        while i < window.len()
            invariant
                i <= window.len(),
                pick == |s: StoredSnapshot| s.gpu_use,
                series@ == window@.subrange(0, i as int).filter_map(pick),
            decreases window.len() - i,
        {
            proof {
                assert(window@.subrange(0, i + 1).drop_last() == window@.subrange(0, i as int));
            }
            if let Some(g) = window[i].gpu_use {
                series.push(g);
            }
            i += 1;
        }
        assert(window@.subrange(0, i as int) == window@);
        series
    }

    /// The GPU's used memory of those of the latest `limit` summaries that
    /// have one, oldest first.
    pub fn gpu_mem_series(&self, limit: usize) -> (series: Vec<u64>)
        ensures
            series@ == most_recent(self@, limit as int).filter_map(
                |s: StoredSnapshot| s.gpu_mem_use,
            ),
    {
        let window = self.recent(limit);
        let ghost pick = |s: StoredSnapshot| s.gpu_mem_use;
        let mut series: Vec<u64> = Vec::new();
        let mut i: usize = 0;
        while i < window.len()
            invariant
                i <= window.len(),
                pick == |s: StoredSnapshot| s.gpu_mem_use,
                series@ == window@.subrange(0, i as int).filter_map(pick),
            decreases window.len() - i,
        {
            proof {
                assert(window@.subrange(0, i + 1).drop_last() == window@.subrange(0, i as int));
            }
            if let Some(g) = window[i].gpu_mem_use {
                series.push(g);
            }
            i += 1;
        }
        assert(window@.subrange(0, i as int) == window@);
        series
    }
}

} // verus!
