use crate::data::cpu::CpuSnapshot;
use crate::data::gpu::GpuSnapshot;
use crate::data::memory::MemorySnapshot;
use crate::data::processes::ProcessesSnapshot;
use crate::data::update_kind::DataUpdateKind;
use vstd::prelude::*;

verus! {

/// What the dashboard asks of the machine. One implementation reads the live
/// host and GPU; [`FakeSystem`] hands out canned samples. Nothing is promised
/// of what an implementation returns: the dashboard copes with every answer.
pub trait SystemProvider {
    /// Brings the provider's readings up to date for the categories of
    /// `kind`. May block for the host's minimum sampling interval.
    fn refresh(&mut self, kind: &DataUpdateKind);

    /// The CPU sample as of the last refresh.
    fn read_cpu(&self) -> CpuSnapshot;

    /// The memory sample as of the last refresh.
    fn read_memory(&self) -> MemorySnapshot;

    /// The process list as of the last refresh.
    fn read_processes(&self) -> ProcessesSnapshot;

    /// The GPU sample, or `None` where it cannot be read.
    fn read_gpu(&self) -> Option<GpuSnapshot>;

    /// Whether there is a GPU to read at all.
    fn can_read_gpu(&self) -> bool;

    /// Asks for the process `pid` to be ended; says whether the request went
    /// through.
    fn kill_process(&mut self, pid: usize) -> bool;
}

/// A provider of canned samples, for trying the dashboard on machines one
/// does not have. It keeps a record of the kill requests it was given, and
/// grants those that name a process of its list.
#[derive(Debug, PartialEq, Eq)]
pub struct FakeSystem {
    pub cpu: CpuSnapshot,
    pub memory: MemorySnapshot,
    pub gpu: Option<GpuSnapshot>,
    pub processes: ProcessesSnapshot,
    pub kill_requests: Vec<usize>,
}

impl Default for FakeSystem {
    /// A machine without cores, memory, GPU or processes.
    fn default() -> (system: FakeSystem)
        ensures
            system.cpu.usage == 0,
            system.cpu.cores@.len() == 0,
            system.memory == (MemorySnapshot { used: 0, total: 0, used_swap: 0, total_swap: 0 }),
            system.gpu is None,
            system.processes.processes@.len() == 0,
            system.kill_requests@.len() == 0,
    {
        FakeSystem {
            cpu: CpuSnapshot { usage: 0, cores: Vec::new() },
            memory: MemorySnapshot { used: 0, total: 0, used_swap: 0, total_swap: 0 },
            gpu: None,
            processes: ProcessesSnapshot { processes: Vec::new() },
            kill_requests: Vec::new(),
        }
    }
}

impl FakeSystem {
    /// The same machine with this CPU sample.
    pub fn with_cpu(self, cpu: CpuSnapshot) -> (system: FakeSystem)
        ensures
            system == (FakeSystem { cpu, ..self }),
    {
        FakeSystem { cpu, ..self }
    }

    /// The same machine with this memory sample.
    pub fn with_memory(self, memory: MemorySnapshot) -> (system: FakeSystem)
        ensures
            system == (FakeSystem { memory, ..self }),
    {
        FakeSystem { memory, ..self }
    }

    /// The same machine with this GPU.
    pub fn with_gpu(self, gpu: GpuSnapshot) -> (system: FakeSystem)
        ensures
            system == (FakeSystem { gpu: Some(gpu), ..self }),
    {
        FakeSystem { gpu: Some(gpu), ..self }
    }

    /// The same machine with this process list.
    pub fn with_processes(self, processes: ProcessesSnapshot) -> (system: FakeSystem)
        ensures
            system == (FakeSystem { processes, ..self }),
    {
        FakeSystem { processes, ..self }
    }

    /// Whether the process list has an entry with the id `pid`.
    pub open spec fn lists(&self, pid: usize) -> bool {
        exists|i: int|
            0 <= i < self.processes.processes@.len() && self.processes.processes@[i].pid as usize
                == pid
    }

    /// Whether the process list has an entry with the id `pid`.
    pub fn has_process(&self, pid: usize) -> (found: bool)
        ensures
            found == self.lists(pid),
    {
        let mut i: usize = 0;
        while i < self.processes.processes.len()
            invariant
                i <= self.processes.processes@.len(),
                forall|j: int| 0 <= j < i ==> self.processes.processes@[j].pid as usize != pid,
            decreases self.processes.processes@.len() - i,
        {
            if self.processes.processes[i].pid as usize == pid {
                return true;
            }
            i += 1;
        }
        false
    }
}

impl SystemProvider for FakeSystem {
    fn refresh(&mut self, kind: &DataUpdateKind)
        ensures
            *final(self) == *old(self),
    {
    }

    fn read_cpu(&self) -> (cpu: CpuSnapshot)
        ensures
            cpu.usage == self.cpu.usage,
            cpu.cores@ == self.cpu.cores@,
    {
        self.cpu.clone()
    }

    fn read_memory(&self) -> (memory: MemorySnapshot)
        ensures
            memory == self.memory,
    {
        self.memory
    }

    fn read_processes(&self) -> (processes: ProcessesSnapshot)
        ensures
            processes.processes@ == self.processes.processes@,
    {
        self.processes.clone()
    }

    fn read_gpu(&self) -> (gpu: Option<GpuSnapshot>)
        ensures
            gpu == self.gpu,
    {
        match &self.gpu {
            Some(g) => Some(g.clone()),
            None => None,
        }
    }

    fn can_read_gpu(&self) -> (b: bool)
        ensures
            b == self.gpu is Some,
    {
        self.gpu.is_some()
    }

    fn kill_process(&mut self, pid: usize) -> (granted: bool)
        ensures
            granted == old(self).lists(pid),
            final(self).kill_requests@ == old(self).kill_requests@.push(pid),
            final(self).cpu == old(self).cpu,
            final(self).memory == old(self).memory,
            final(self).gpu == old(self).gpu,
            final(self).processes == old(self).processes,
    {
        self.kill_requests.push(pid);
        self.has_process(pid)
    }
}

} // verus!
