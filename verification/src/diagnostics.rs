//! The integer side of the diagnostics collector: what a snapshot of the
//! host says about memory, about one process and about the processor.
//! Nothing here is cached; every reading is of the snapshot it is given.

use vstd::prelude::*;

verus! {

/// A snapshot of the host, as `sysinfo` takes it. Opaque here.
#[verifier::external_type_specification]
#[verifier::external_body]
pub struct ExSystem(sysinfo::System);

/// One process of a snapshot. Opaque here.
#[verifier::external_type_specification]
#[verifier::external_body]
pub struct ExProcess(sysinfo::Process);

/// One logical processor of a snapshot. Opaque here.
#[verifier::external_type_specification]
#[verifier::external_body]
pub struct ExCpu(sysinfo::Cpu);

/// The total RAM, in bytes, that the snapshot `system` holds.
pub uninterp spec fn total_memory_of(system: &sysinfo::System) -> u64;

/// The available RAM, in bytes, that the snapshot `system` holds.
pub uninterp spec fn available_memory_of(system: &sysinfo::System) -> u64;

/// The number of logical processors that the snapshot `system` lists.
pub uninterp spec fn cpu_count_of(system: &sysinfo::System) -> usize;

/// The resident memory, in bytes, that `process` holds.
pub uninterp spec fn resident_memory_of(process: &sysinfo::Process) -> u64;

/// The resident memory, in bytes, of the process that the snapshot
/// `system` lists under `process_id`, or `None` where it lists none.
pub uninterp spec fn process_memory_of(system: &sysinfo::System, process_id: u32) -> Option<u64>;

/// `System::total_memory` reads the total RAM off the snapshot: the same
/// snapshot gives the same number.
pub assume_specification[ sysinfo::System::total_memory ](system: &sysinfo::System) -> (bytes: u64)
    ensures
        bytes == total_memory_of(system),
;

/// `System::available_memory` reads the available RAM off the snapshot:
/// the same snapshot gives the same number.
pub assume_specification[ sysinfo::System::available_memory ](system: &sysinfo::System) -> (bytes:
    u64)
    ensures
        bytes == available_memory_of(system),
;

/// `System::cpus` hands out the logical processors that the snapshot
/// lists: the same snapshot gives a list of the same length.
pub assume_specification<'a>[ sysinfo::System::cpus ](
    system: &'a sysinfo::System,
) -> (cpus: &'a [sysinfo::Cpu])
    ensures
        cpus@.len() == cpu_count_of(system),
;

/// `Process::memory` reads the resident memory off the process: the same
/// process gives the same number.
pub assume_specification[ sysinfo::Process::memory ](process: &sysinfo::Process) -> (bytes: u64)
    ensures
        bytes == resident_memory_of(process),
;

/// Looks `process_id` up in the snapshot with `System::process`. Whether
/// the process is listed is the snapshot's business; a process that is
/// handed out is the one whose memory the snapshot holds under that id.
#[verifier::external_body]
fn find_process(system: &sysinfo::System, process_id: u32) -> (found: Option<&sysinfo::Process>)
    ensures
        match found {
            Some(process) => process_memory_of(system, process_id) == Some(
                resident_memory_of(process),
            ),
            None => process_memory_of(system, process_id) is None,
        },
{
    system.process(sysinfo::Pid::from(process_id as usize))
}

/// The integer counters of one diagnostics sample.
#[derive(Debug, Clone, Copy, PartialEq, Eq)]
pub struct Counters {
    /// Resident memory of the sampled process in bytes; zero where the
    /// process is not in the snapshot.
    pub process_memory_bytes: u64,
    /// Total RAM of the host in bytes.
    pub total_memory_bytes: u64,
    /// Available RAM of the host in bytes.
    pub available_memory_bytes: u64,
    /// Id of the sampled process.
    pub process_id: u32,
    /// Number of logical processors.
    pub cpu_cores: usize,
}

/// Puts one sample together from its readings. `process_memory` is the
/// resident memory of the process, or `None` where the snapshot does not
/// list it; its memory then counts as zero.
pub fn counters_from(
    process_id: u32,
    process_memory: Option<u64>,
    total_memory: u64,
    available_memory: u64,
    cpu_cores: usize,
) -> (counters: Counters)
    ensures
        counters == (Counters {
            process_memory_bytes: match process_memory {
                Some(bytes) => bytes,
                None => 0,
            },
            total_memory_bytes: total_memory,
            available_memory_bytes: available_memory,
            process_id,
            cpu_cores,
        }),
{
    let process_memory_bytes = match process_memory {
        Some(bytes) => bytes,
        None => 0,
    };
    Counters {
        process_memory_bytes,
        total_memory_bytes: total_memory,
        available_memory_bytes: available_memory,
        process_id,
        cpu_cores,
    }
}

/// Reads the counters of the process `process_id` off `system`: what the
/// snapshot holds of memory and processors, and the resident memory of the
/// process, which counts as zero where the snapshot does not list it.
pub fn read_counters(system: &sysinfo::System, process_id: u32) -> (counters: Counters)
    ensures
        counters == (Counters {
            process_memory_bytes: match process_memory_of(system, process_id) {
                Some(bytes) => bytes,
                None => 0,
            },
            total_memory_bytes: total_memory_of(system),
            available_memory_bytes: available_memory_of(system),
            process_id,
            cpu_cores: cpu_count_of(system),
        }),
{
    let process_memory = match find_process(system, process_id) {
        Some(process) => Some(process.memory()),
        None => None,
    };
    counters_from(
        process_id,
        process_memory,
        system.total_memory(),
        system.available_memory(),
        system.cpus().len(),
    )
}

} // verus!
