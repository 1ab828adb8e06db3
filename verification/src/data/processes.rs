use crate::units::{percent_of, share_of};
use vstd::prelude::*;

verus! {

/// What a process is: the classes exclude one another, and a GPU class, where
/// the GPU reports the process, replaces the class the host gave it.
#[derive(Clone, Copy, Debug, PartialEq, Eq)]
pub enum ProcessType {
    GpuGraphic,
    GpuCompute,
    Cpu,
    UserThread,
    KernelThread,
}

impl ProcessType {
    pub open spec fn spec_is_thread(&self) -> bool {
        *self is UserThread || *self is KernelThread
    }

    /// Whether this is one of the two thread classes.
    #[verifier::when_used_as_spec(spec_is_thread)]
    pub fn is_thread(&self) -> (b: bool)
        ensures
            b == self.spec_is_thread(),
    {
        match self {
            ProcessType::UserThread => true,
            ProcessType::KernelThread => true,
            _ => false,
        }
    }

    /// The text shown for the class; both thread classes read the same.
    pub open spec fn label(&self) -> Seq<char> {
        match self {
            ProcessType::GpuGraphic => "GRAPHIC"@,
            ProcessType::GpuCompute => "COMPUTE"@,
            ProcessType::Cpu => "CPU"@,
            ProcessType::UserThread => "THREAD"@,
            ProcessType::KernelThread => "THREAD"@,
        }
    }

    /// The text shown for the class.
    pub fn to_string(&self) -> (text: String)
        ensures
            text@ == self.label(),
    {
        match self {
            ProcessType::GpuGraphic => String::from_str("GRAPHIC"),
            ProcessType::GpuCompute => String::from_str("COMPUTE"),
            ProcessType::Cpu => String::from_str("CPU"),
            ProcessType::UserThread => String::from_str("THREAD"),
            ProcessType::KernelThread => String::from_str("THREAD"),
        }
    }
}

/// One entry of the process list. Percentages are in thousandths of a
/// percent (`cpu_usage` exceeds one hundred percent where the process keeps
/// more than one core busy), memory in bytes.
#[derive(Debug, PartialEq, Eq)]
pub struct Process {
    pub pid: u32,
    pub type_: ProcessType,
    pub command: String,
    pub cpu_usage: u32,
    pub memory: u64,
    pub memory_usage: u32,
}

impl Clone for Process {
    fn clone(&self) -> (p: Self)
        ensures
            p == *self,
    {
        Process {
            pid: self.pid,
            type_: self.type_,
            command: self.command.clone(),
            cpu_usage: self.cpu_usage,
            memory: self.memory,
            memory_usage: self.memory_usage,
        }
    }
}

impl Process {
    pub open spec fn spec_is_thread(&self) -> bool {
        self.type_.is_thread()
    }

    /// Whether the entry is a thread rather than a process.
    #[verifier::when_used_as_spec(spec_is_thread)]
    pub fn is_thread(&self) -> (b: bool)
        ensures
            b == self.spec_is_thread(),
    {
        self.type_.is_thread()
    }

    /// Whether a share, in thousandths of a percent, is too small to show
    /// as more than nothing: less than a twentieth of a percent.
    pub open spec fn negligible(share: u32) -> bool {
        share < 50
    }

    /// Whether the entry's CPU usage is too small to show as more than
    /// nothing.
    pub fn cpu_is_negligible(&self) -> (b: bool)
        ensures
            b == Self::negligible(self.cpu_usage),
    {
        self.cpu_usage < 50
    }

    /// Whether the entry's share of the memory is too small to show as more
    /// than nothing.
    pub fn memory_is_negligible(&self) -> (b: bool)
        ensures
            b == Self::negligible(self.memory_usage),
    {
        self.memory_usage < 50
    }

    /// This entry with another class.
    pub open spec fn with_type(self, type_: ProcessType) -> Process {
        Process { type_, ..self }
    }

    /// Whether this entry is what the list holds for `reading`, on a host
    /// with `total_memory` bytes and with the given GPU reports.
    pub open spec fn reports(
        &self,
        reading: ProcessReading,
        total_memory: u64,
        compute_pids: Option<Seq<u32>>,
        graphics_pids: Option<Seq<u32>>,
    ) -> bool {
        &&& self.pid == reading.pid
        &&& self.type_ == classified(
            host_type(reading.thread_kind),
            reading.pid,
            compute_pids,
            graphics_pids,
        )
        &&& self.command@ == join_words(reading.cmd@)
        &&& self.cpu_usage == reading.cpu_usage
        &&& self.memory == reading.memory
        &&& self.memory_usage == share_of(reading.memory as int, total_memory as int)
    }
}

/// Which kind of thread the host says an entry is.
#[derive(Clone, Copy, Debug, PartialEq, Eq)]
pub enum ThreadKind {
    Kernel,
    Userland,
}

/// What the host reports of one process: its id, whether it is a thread, its
/// command line word by word, its resident memory in bytes and its CPU usage
/// in thousandths of a percent.
#[derive(Debug, PartialEq, Eq)]
pub struct ProcessReading {
    pub pid: u32,
    pub thread_kind: Option<ThreadKind>,
    pub cmd: Vec<String>,
    pub memory: u64,
    pub cpu_usage: u32,
}

/// The class the host's report alone gives an entry.
pub open spec fn host_type(thread_kind: Option<ThreadKind>) -> ProcessType {
    match thread_kind {
        Some(ThreadKind::Kernel) => ProcessType::KernelThread,
        Some(ThreadKind::Userland) => ProcessType::UserThread,
        None => ProcessType::Cpu,
    }
}

/// The class of the entry with id `pid` once the GPU's reports are taken in:
/// graphics where the GPU lists it as such, else compute where it lists it
/// so, else the class it had.
pub open spec fn classified(
    base: ProcessType,
    pid: u32,
    compute_pids: Option<Seq<u32>>,
    graphics_pids: Option<Seq<u32>>,
) -> ProcessType {
    if graphics_pids is Some && graphics_pids->0.contains(pid) {
        ProcessType::GpuGraphic
    } else if compute_pids is Some && compute_pids->0.contains(pid) {
        ProcessType::GpuCompute
    } else {
        base
    }
}

/// The words with one space between each two.
pub open spec fn join_words(words: Seq<String>) -> Seq<char>
    decreases words.len(),
{
    if words.len() == 0 {
        Seq::empty()
    } else if words.len() == 1 {
        words[0]@
    } else {
        join_words(words.drop_last()) + seq![' '] + words.last()@
    }
}

/// The readings that make it into the list: those with a command line.
pub open spec fn listed(readings: Seq<ProcessReading>) -> Seq<ProcessReading> {
    readings.filter(|r: ProcessReading| r.cmd@.len() > 0)
}

/// The view of an optional list of ids.
pub open spec fn pids_of(pids: Option<Vec<u32>>) -> Option<Seq<u32>> {
    match pids {
        Some(v) => Some(v@),
        None => None,
    }
}

/// Joins a command line's words with single spaces.
pub fn join_command(cmd: &Vec<String>) -> (command: String)
    ensures
        command@ == join_words(cmd@),
{
    let mut command = String::new();
    let mut i: usize = 0;
    while i < cmd.len()
        invariant
            i <= cmd.len(),
            command@ == join_words(cmd@.subrange(0, i as int)),
        decreases cmd.len() - i,
    {
        proof {
            reveal_strlit(" ");
            assert(cmd@.subrange(0, i + 1).drop_last() == cmd@.subrange(0, i as int));
            assert(" "@ == seq![' ']);
        }
        if i > 0 {
            command.append(" ");
        }
        command.append(cmd[i].as_str());
        i += 1;
    }
    assert(cmd@.subrange(0, i as int) == cmd@);
    command
}

/// Whether `pid` is among `pids`.
pub fn contains_pid(pids: &Vec<u32>, pid: u32) -> (found: bool)
    ensures
        found == pids@.contains(pid),
{
    let mut i: usize = 0;
    while i < pids.len()
        invariant
            i <= pids.len(),
            forall|j: int| 0 <= j < i ==> pids@[j] != pid,
        decreases pids.len() - i,
    {
        if pids[i] == pid {
            return true;
        }
        i += 1;
    }
    false
}

/// Gives every entry whose id is among `pids` the class `process_type`, and
/// leaves the others as they are.
pub fn update_process_type(
    pids: &Vec<u32>,
    processes: &mut Vec<Process>,
    process_type: ProcessType,
)
    ensures
        final(processes)@.len() == old(processes)@.len(),
        forall|i: int|
            0 <= i < old(processes)@.len() ==> #[trigger] final(processes)@[i] == if pids@.contains(
                old(processes)@[i].pid,
            ) {
                old(processes)@[i].with_type(process_type)
            } else {
                old(processes)@[i]
            },
{
    let mut i: usize = 0;
    while i < processes.len()
        invariant
            i <= processes.len(),
            processes@.len() == old(processes)@.len(),
            forall|j: int|
                0 <= j < i ==> #[trigger] processes@[j] == if pids@.contains(
                    old(processes)@[j].pid,
                ) {
                    old(processes)@[j].with_type(process_type)
                } else {
                    old(processes)@[j]
                },
            forall|j: int| i <= j < processes@.len() ==> processes@[j] == old(processes)@[j],
        decreases processes.len() - i,
    {
        if contains_pid(pids, processes[i].pid) {
            processes[i].type_ = process_type;
        }
        i += 1;
    }
}

/// The process list of one snapshot.
#[derive(Debug, PartialEq, Eq)]
pub struct ProcessesSnapshot {
    pub processes: Vec<Process>,
}

impl Clone for ProcessesSnapshot {
    fn clone(&self) -> (r: Self)
        ensures
            r.processes@ == self.processes@,
    {
        ProcessesSnapshot { processes: self.processes.clone() }
    }
}

impl ProcessesSnapshot {
    /// Builds the process list from the host's readings, in their order:
    /// readings without a command line are left out, every other reading
    /// gives one entry, and entries that the GPU reports get their GPU class.
    /// `None` for a list of GPU ids says that the GPU gave none.
    pub fn from_sysinfo_nvml(
        readings: &Vec<ProcessReading>,
        total_memory: u64,
        compute_pids: &Option<Vec<u32>>,
        graphics_pids: &Option<Vec<u32>>,
    ) -> (snapshot: ProcessesSnapshot)
        ensures
            snapshot.processes@.len() == listed(readings@).len(),
            forall|i: int|
                0 <= i < listed(readings@).len() ==> (#[trigger] snapshot.processes@[i]).reports(
                    listed(readings@)[i],
                    total_memory,
                    pids_of(*compute_pids),
                    pids_of(*graphics_pids),
                ),
    {
        let mut processes: Vec<Process> = Vec::new();
        let ghost has_cmd = |r: ProcessReading| r.cmd@.len() > 0;
        let mut i: usize = 0;
        while i < readings.len()
            invariant
                i <= readings.len(),
                has_cmd == |r: ProcessReading| r.cmd@.len() > 0,
                processes@.len() == readings@.subrange(0, i as int).filter(has_cmd).len(),
                forall|j: int|
                    0 <= j < processes@.len() ==> (#[trigger] processes@[j]).reports(
                        readings@.subrange(0, i as int).filter(has_cmd)[j],
                        total_memory,
                        None,
                        None,
                    ),
            decreases readings.len() - i,
        {
            let reading = &readings[i];
            proof {
                let seen = readings@.subrange(0, i as int);
                assert(readings@.subrange(0, i + 1) == seen.push(*reading));
                seen.lemma_filter_push(*reading, has_cmd);
            }
            if reading.cmd.len() > 0 {
                let type_ = match reading.thread_kind {
                    Some(ThreadKind::Kernel) => ProcessType::KernelThread,
                    Some(ThreadKind::Userland) => ProcessType::UserThread,
                    None => ProcessType::Cpu,
                };
                processes.push(
                    Process {
                        pid: reading.pid,
                        type_,
                        command: join_command(&reading.cmd),
                        cpu_usage: reading.cpu_usage,
                        memory: reading.memory,
                        memory_usage: percent_of(reading.memory, total_memory),
                    },
                );
            }
            i += 1;
        }
        assert(readings@.subrange(0, i as int) == readings@);
        if let Some(pids) = compute_pids {
            update_process_type(pids, &mut processes, ProcessType::GpuCompute);
        }
        if let Some(pids) = graphics_pids {
            update_process_type(pids, &mut processes, ProcessType::GpuGraphic);
        }
        ProcessesSnapshot { processes }
    }
}

} // verus!
