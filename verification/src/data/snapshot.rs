use super::cpu::CpuSnapshot;
use super::gpu::GpuSnapshot;
use super::memory::MemorySnapshot;
use super::processes::ProcessesSnapshot;
use vstd::prelude::*;

verus! {

/// One partial, point-in-time set of measurements. A category that is `None`
/// was not asked for, or could not be read, at this tick; it says nothing
/// about the machine.
#[derive(Debug, PartialEq, Eq)]
pub struct DataSnapshot {
    pub cpu: Option<CpuSnapshot>,
    pub memory: Option<MemorySnapshot>,
    pub gpu: Option<GpuSnapshot>,
    pub processes: Option<ProcessesSnapshot>,
}

impl Clone for DataSnapshot {
    fn clone(&self) -> (copy: Self)
        ensures
            copy.cpu is Some == self.cpu is Some,
            copy.cpu matches Some(c) ==> c.usage == self.cpu->0.usage && c.cores@
                == self.cpu->0.cores@,
            copy.memory == self.memory,
            copy.gpu == self.gpu,
            copy.processes is Some == self.processes is Some,
            copy.processes matches Some(p) ==> p.processes@ == self.processes->0.processes@,
    {
        DataSnapshot {
            cpu: match &self.cpu {
                Some(c) => Some(c.clone()),
                None => None,
            },
            memory: self.memory,
            gpu: match &self.gpu {
                Some(g) => Some(g.clone()),
                None => None,
            },
            processes: match &self.processes {
                Some(p) => Some(p.clone()),
                None => None,
            },
        }
    }
}

} // verus!
