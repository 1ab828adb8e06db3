use super::cpu::CpuSnapshot;
use super::gpu::GpuSnapshot;
use super::memory::MemorySnapshot;
use super::processes::ProcessesSnapshot;
use super::snapshot::DataSnapshot;
use vstd::prelude::*;

verus! {

/// The current view of the machine that the widgets draw: the latest value of
/// each category. It is updated in place from snapshots; the GPU stays absent
/// for as long as no snapshot brought one.
#[derive(Debug, PartialEq, Eq)]
pub struct SystemData {
    pub cpu: CpuSnapshot,
    pub memory: MemorySnapshot,
    pub gpu: Option<GpuSnapshot>,
    pub processes: ProcessesSnapshot,
}

impl SystemData {
    /// This view after `snapshot` is merged in: each category the snapshot
    /// has replaces the one held, each category it lacks stays.
    pub open spec fn merged(self, snapshot: DataSnapshot) -> SystemData {
        SystemData {
            cpu: if snapshot.cpu is Some {
                snapshot.cpu->0
            } else {
                self.cpu
            },
            memory: if snapshot.memory is Some {
                snapshot.memory->0
            } else {
                self.memory
            },
            gpu: if snapshot.gpu is Some {
                snapshot.gpu
            } else {
                self.gpu
            },
            processes: if snapshot.processes is Some {
                snapshot.processes->0
            } else {
                self.processes
            },
        }
    }

    /// This view after the snapshots are merged in, first to last.
    pub open spec fn merged_all(self, snapshots: Seq<DataSnapshot>) -> SystemData
        decreases snapshots.len(),
    {
        if snapshots.len() == 0 {
            self
        } else {
            self.merged_all(snapshots.drop_last()).merged(snapshots.last())
        }
    }

    pub open spec fn spec_has_gpu(&self) -> bool {
        self.gpu is Some
    }

    /// The view that the first snapshot gives. That snapshot has to hold the
    /// CPU, the memory and the process list.
    pub fn new_from_snapshot(snapshot: DataSnapshot) -> (data: SystemData)
        requires
            snapshot.cpu is Some,
            snapshot.memory is Some,
            snapshot.processes is Some,
        ensures
            data.cpu == snapshot.cpu->0,
            data.memory == snapshot.memory->0,
            data.gpu == snapshot.gpu,
            data.processes == snapshot.processes->0,
    {
        SystemData {
            cpu: snapshot.cpu.unwrap(),
            memory: snapshot.memory.unwrap(),
            gpu: snapshot.gpu,
            processes: snapshot.processes.unwrap(),
        }
    }

    /// Merges a snapshot in: what it holds replaces what was known, what it
    /// lacks is left as it was.
    pub fn update_from_snapshot(&mut self, snapshot: DataSnapshot)
        ensures
            *final(self) == old(self).merged(snapshot),
    {
        if let Some(c) = snapshot.cpu {
            self.cpu = c;
        }
        if let Some(m) = snapshot.memory {
            self.memory = m;
        }
        if let Some(g) = snapshot.gpu {
            self.gpu = Some(g);
        }
        if let Some(p) = snapshot.processes {
            self.processes = p;
        }
    }

    /// Whether a snapshot ever brought a GPU sample.
    #[verifier::when_used_as_spec(spec_has_gpu)]
    pub fn has_gpu(&self) -> (b: bool)
        ensures
            b == self.spec_has_gpu(),
    {
        self.gpu.is_some()
    }
}

/// Merging never forgets: over any run of snapshots, a category that none of
/// them holds ends as it began, a category that some of them hold ends as the
/// last of those gave it, and a GPU once known stays known.
pub proof fn lemma_merge_never_forgets(data: SystemData, snapshots: Seq<DataSnapshot>)
    ensures
        ({
            let end = data.merged_all(snapshots);
            &&& end.cpu == match last_with(snapshots, |s: DataSnapshot| s.cpu is Some) {
                Some(i) => snapshots[i].cpu->0,
                None => data.cpu,
            }
            &&& end.memory == match last_with(snapshots, |s: DataSnapshot| s.memory is Some) {
                Some(i) => snapshots[i].memory->0,
                None => data.memory,
            }
            &&& end.gpu == match last_with(snapshots, |s: DataSnapshot| s.gpu is Some) {
                Some(i) => snapshots[i].gpu,
                None => data.gpu,
            }
            &&& end.processes == match last_with(
                snapshots,
                |s: DataSnapshot| s.processes is Some,
            ) {
                Some(i) => snapshots[i].processes->0,
                None => data.processes,
            }
            &&& data.has_gpu() ==> end.has_gpu()
        }),
    decreases snapshots.len(),
{
    if snapshots.len() > 0 {
        lemma_merge_never_forgets(data, snapshots.drop_last());
        lemma_last_with_step(snapshots, |s: DataSnapshot| s.cpu is Some);
        lemma_last_with_step(snapshots, |s: DataSnapshot| s.memory is Some);
        lemma_last_with_step(snapshots, |s: DataSnapshot| s.gpu is Some);
        lemma_last_with_step(snapshots, |s: DataSnapshot| s.processes is Some);
    }
}

/// The index of the last snapshot that `holds` is true of, if there is one.
pub open spec fn last_with(
    snapshots: Seq<DataSnapshot>,
    holds: spec_fn(DataSnapshot) -> bool,
) -> Option<int>
    decreases snapshots.len(),
{
    if snapshots.len() == 0 {
        None
    } else if holds(snapshots.last()) {
        Some(snapshots.len() - 1)
    } else {
        last_with(snapshots.drop_last(), holds)
    }
}

/// What [`last_with`] finds is an index of the run, `holds` is true there and at
/// no later place.
pub proof fn lemma_last_with_is_last(
    snapshots: Seq<DataSnapshot>,
    holds: spec_fn(DataSnapshot) -> bool,
)
    ensures
        match last_with(snapshots, holds) {
            Some(i) => {
                &&& 0 <= i < snapshots.len()
                &&& holds(snapshots[i])
                &&& forall|j: int| i < j < snapshots.len() ==> !holds(#[trigger] snapshots[j])
            },
            None => forall|j: int| 0 <= j < snapshots.len() ==> !holds(#[trigger] snapshots[j]),
        },
    decreases snapshots.len(),
{
    if snapshots.len() > 0 && !holds(snapshots.last()) {
        let earlier = snapshots.drop_last();
        lemma_last_with_is_last(earlier, holds);
        assert(forall|j: int| 0 <= j < earlier.len() ==> earlier[j] == snapshots[j]);
        match last_with(earlier, holds) {
            Some(i) => {
                assert forall|j: int| i < j < snapshots.len() implies !holds(
                    #[trigger] snapshots[j],
                ) by {
                    if j < earlier.len() {
                        assert(earlier[j] == snapshots[j]);
                    }
                }
            },
            None => {
                assert forall|j: int| 0 <= j < snapshots.len() implies !holds(
                    #[trigger] snapshots[j],
                ) by {
                    if j < earlier.len() {
                        assert(earlier[j] == snapshots[j]);
                    }
                }
            },
        }
    }
}

proof fn lemma_last_with_step(snapshots: Seq<DataSnapshot>, holds: spec_fn(DataSnapshot) -> bool)
    requires
        snapshots.len() > 0,
    ensures
        last_with(snapshots, holds) == if holds(snapshots.last()) {
            Some(snapshots.len() - 1)
        } else {
            last_with(snapshots.drop_last(), holds)
        },
        last_with(snapshots.drop_last(), holds) matches Some(i) ==> snapshots.drop_last()[i]
            == snapshots[i],
{
    lemma_last_with_is_last(snapshots.drop_last(), holds);
}

} // verus!
