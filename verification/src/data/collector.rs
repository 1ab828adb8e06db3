use super::snapshot::DataSnapshot;
use super::update_kind::DataUpdateKind;
use crate::system::SystemProvider;
use vstd::prelude::*;

verus! {

/// Collects snapshots from a provider. Whether the provider has a GPU is
/// asked once, when the collector is made, and holds from then on.
pub struct Collector<S: SystemProvider> {
    pub system: S,
    gpu: bool,
}

impl<S: SystemProvider> Collector<S> {
    pub closed spec fn spec_can_read_gpu(&self) -> bool {
        self.gpu
    }

    /// The provider that the collector reads.
    pub closed spec fn provider(&self) -> S {
        self.system
    }

    /// A collector over `system`, which is refreshed once for every category
    /// so that the first collection has usage figures to report, and then
    /// asked whether it has a GPU.
    pub fn new(system: S) -> (collector: Collector<S>) {
        let mut system = system;
        system.refresh(&DataUpdateKind::all());
        let gpu = system.can_read_gpu();
        Collector::from_parts(system, gpu)
    }

    /// A collector over `system`, of which it is known whether it has a GPU.
    pub fn from_parts(system: S, gpu: bool) -> (collector: Collector<S>)
        ensures
            collector.provider() == system,
            collector.can_read_gpu() == gpu,
    {
        Collector { system, gpu }
    }

    /// Hands a kill request for `pid` to the provider, and its answer back.
    pub fn kill_process(&mut self, pid: usize) -> (granted: bool)
        ensures
            final(self).can_read_gpu() == old(self).can_read_gpu(),
    {
        self.system.kill_process(pid)
    }

    /// Collects the categories of `kind`: the provider is refreshed for them,
    /// each category asked for is read, each other one is `None`. The GPU is
    /// read only where there is one, and a GPU that cannot be read gives
    /// `None` for this tick, never an error.
    pub fn collect(&mut self, kind: &DataUpdateKind) -> (snapshot: DataSnapshot)
        ensures
            snapshot.cpu is Some <==> kind.cpu(),
            snapshot.memory is Some <==> kind.memory(),
            snapshot.processes is Some <==> kind.processes(),
            snapshot.gpu is Some ==> kind.gpu() && old(self).can_read_gpu(),
            final(self).can_read_gpu() == old(self).can_read_gpu(),
    {
        self.system.refresh(kind);
        let cpu = if kind.cpu() {
            Some(self.system.read_cpu())
        } else {
            None
        };
        let memory = if kind.memory() {
            Some(self.system.read_memory())
        } else {
            None
        };
        let gpu = if kind.gpu() && self.gpu {
            self.system.read_gpu()
        } else {
            None
        };
        let processes = if kind.processes() {
            Some(self.system.read_processes())
        } else {
            None
        };
        DataSnapshot { cpu, memory, gpu, processes }
    }

    /// Whether the provider has a GPU.
    #[verifier::when_used_as_spec(spec_can_read_gpu)]
    pub fn can_read_gpu(&self) -> (b: bool)
        ensures
            b == self.spec_can_read_gpu(),
    {
        self.gpu
    }
}

} // verus!
