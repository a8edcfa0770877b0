use hecras_bridge::diagnostics::{counters_from, read_counters, Counters};
use sysinfo::{Pid, System};

#[test]
fn counters_keep_each_reading() {
    assert_eq!(
        counters_from(4242, Some(3 * 1024 * 1024), 16 * 1024 * 1024 * 1024, 8 * 1024 * 1024, 12),
        Counters {
            process_memory_bytes: 3 * 1024 * 1024,
            total_memory_bytes: 16 * 1024 * 1024 * 1024,
            available_memory_bytes: 8 * 1024 * 1024,
            process_id: 4242,
            cpu_cores: 12,
        }
    );
}

#[test]
fn an_unlisted_process_counts_as_zero_memory() {
    let c = counters_from(7, None, 100, 50, 1);
    assert_eq!(c.process_memory_bytes, 0);
    assert_eq!(c.total_memory_bytes, 100);
    assert_eq!(c.available_memory_bytes, 50);
    assert_eq!(c.process_id, 7);
    assert_eq!(c.cpu_cores, 1);
}

#[test]
fn counters_at_the_limits() {
    let c = counters_from(u32::MAX, Some(u64::MAX), u64::MAX, 0, usize::MAX);
    assert_eq!(c.process_memory_bytes, u64::MAX);
    assert_eq!(c.total_memory_bytes, u64::MAX);
    assert_eq!(c.available_memory_bytes, 0);
    assert_eq!(c.process_id, u32::MAX);
    assert_eq!(c.cpu_cores, usize::MAX);
}

#[test]
fn a_sample_reads_the_snapshot_it_is_given() {
    let system = System::new_all();
    let listed = system.processes().keys().next().copied();
    if let Some(pid) = listed {
        let c = read_counters(&system, pid.as_u32());
        assert_eq!(c.process_id, pid.as_u32());
        assert_eq!(c.process_memory_bytes, system.process(pid).map(|p| p.memory()).unwrap_or(0));
        assert_eq!(c.total_memory_bytes, system.total_memory());
        assert_eq!(c.available_memory_bytes, system.available_memory());
        assert_eq!(c.cpu_cores, system.cpus().len());
    }
}

#[test]
fn a_sample_of_a_process_that_is_not_there() {
    let system = System::new_all();
    let mut absent: u32 = 4_000_000;
    while system.process(Pid::from_u32(absent)).is_some() {
        absent += 1;
    }
    let c = read_counters(&system, absent);
    assert_eq!(c.process_id, absent);
    assert_eq!(c.process_memory_bytes, 0);
    assert_eq!(c.total_memory_bytes, system.total_memory());
    assert_eq!(c.cpu_cores, system.cpus().len());
}
