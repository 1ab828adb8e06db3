use vstd::prelude::*;

verus! {

/// The categories requested from one collection.
#[derive(Clone, Copy, Debug, PartialEq, Eq)]
pub struct DataUpdateKind {
    cpu: bool,
    memory: bool,
    gpu: bool,
    processes: bool,
}

impl DataUpdateKind {
    pub closed spec fn spec_cpu(&self) -> bool {
        self.cpu
    }

    pub closed spec fn spec_memory(&self) -> bool {
        self.memory
    }

    pub closed spec fn spec_gpu(&self) -> bool {
        self.gpu
    }

    pub closed spec fn spec_processes(&self) -> bool {
        self.processes
    }

    /// Every category.
    pub fn all() -> (kind: DataUpdateKind)
        ensures
            kind.cpu(),
            kind.memory(),
            kind.gpu(),
            kind.processes(),
    {
        DataUpdateKind { cpu: true, memory: true, gpu: true, processes: true }
    }

    /// The same categories, but for the process list.
    pub fn without_processes(&self) -> (kind: DataUpdateKind)
        ensures
            kind.cpu() == self.cpu(),
            kind.memory() == self.memory(),
            kind.gpu() == self.gpu(),
            !kind.processes(),
    {
        Self { cpu: self.cpu, memory: self.memory, gpu: self.gpu, processes: false }
    }

    #[verifier::when_used_as_spec(spec_cpu)]
    pub fn cpu(&self) -> (b: bool)
        ensures
            b == self.spec_cpu(),
    {
        self.cpu
    }

    #[verifier::when_used_as_spec(spec_memory)]
    pub fn memory(&self) -> (b: bool)
        ensures
            b == self.spec_memory(),
    {
        self.memory
    }

    #[verifier::when_used_as_spec(spec_gpu)]
    pub fn gpu(&self) -> (b: bool)
        ensures
            b == self.spec_gpu(),
    {
        self.gpu
    }

    #[verifier::when_used_as_spec(spec_processes)]
    pub fn processes(&self) -> (b: bool)
        ensures
            b == self.spec_processes(),
    {
        self.processes
    }
}

} // verus!
