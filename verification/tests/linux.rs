use vmm_devices::errno::Error;
use vmm_devices::linux::fallocate;
use vmm_devices::linux::largest;
use vmm_devices::linux::logical_core_capacity;
use vmm_devices::linux::logical_core_cluster_id;
use vmm_devices::linux::logical_core_frequencies_khz;
use vmm_devices::linux::logical_core_max_freq_khz;
use vmm_devices::linux::move_proc_to_cgroup;
use vmm_devices::linux::move_task_to_cgroup;
use vmm_devices::linux::move_to_cgroup;
use vmm_devices::linux::safe_descriptor_from_path;
use vmm_devices::linux::sched_attr;
use vmm_devices::linux::sysfs_cpu_info_path;
use vmm_devices::linux::validate_raw_descriptor;
use vmm_devices::linux::validate_raw_fd;
use vmm_devices::linux::AsRawPid;
use vmm_devices::linux::FallocateMode;
use vmm_devices::linux::FlockOperation;
use vmm_devices::linux::SCHED_ATTR_SIZE;

#[test]
fn numbers_of_the_host_agree_with_libc() {
    assert_eq!(vmm_devices::linux::LOCK_SH, libc::LOCK_SH);
    assert_eq!(vmm_devices::linux::LOCK_EX, libc::LOCK_EX);
    assert_eq!(vmm_devices::linux::LOCK_UN, libc::LOCK_UN);
    assert_eq!(vmm_devices::linux::LOCK_NB, libc::LOCK_NB);
    assert_eq!(vmm_devices::linux::FALLOC_FL_KEEP_SIZE, libc::FALLOC_FL_KEEP_SIZE);
    assert_eq!(vmm_devices::linux::FALLOC_FL_PUNCH_HOLE, libc::FALLOC_FL_PUNCH_HOLE);
    assert_eq!(vmm_devices::linux::FALLOC_FL_ZERO_RANGE, libc::FALLOC_FL_ZERO_RANGE);
    assert_eq!(vmm_devices::linux::FD_CLOEXEC, libc::FD_CLOEXEC);
    assert_eq!(vmm_devices::errno::EINVAL, libc::EINVAL);
    assert_eq!(vmm_devices::errno::EBADF, libc::EBADF);
    assert_eq!(vmm_devices::errno::EIO, libc::EIO);
    assert_eq!(vmm_devices::errno::ENODEV, libc::ENODEV);
    assert_eq!(vmm_devices::errno::ENOTSUP, libc::ENOTSUP);
    assert_eq!(vmm_devices::errno::ERANGE, libc::ERANGE);
}

#[test]
fn default_sched_attr_has_size_of_host_layout() {
    let attr = sched_attr::default();
    // Four fields of 4 bytes and one of 8 in front, three of 8 and two of 4 behind.
    assert_eq!(attr.size as usize, 4 * 4 + 8 + 3 * 8 + 2 * 4);
    assert_eq!(attr.size, SCHED_ATTR_SIZE);
    assert_eq!(attr, sched_attr { size: 56, sched_policy: 0, sched_flags: 0, sched_nice: 0, sched_priority: 0, sched_runtime: 0, sched_deadline: 0, sched_period: 0, sched_util_min: 0, sched_util_max: 0 });
}

#[test]
fn flock_flags() {
    assert_eq!(FlockOperation::LockShared.flags(false), libc::LOCK_SH);
    assert_eq!(FlockOperation::LockExclusive.flags(false), libc::LOCK_EX);
    assert_eq!(FlockOperation::Unlock.flags(false), libc::LOCK_UN);
    assert_eq!(FlockOperation::LockShared.flags(true), libc::LOCK_SH | libc::LOCK_NB);
    assert_eq!(FlockOperation::LockExclusive.flags(true), libc::LOCK_EX | libc::LOCK_NB);
    assert_eq!(FlockOperation::Unlock.flags(true), libc::LOCK_UN | libc::LOCK_NB);
}

#[test]
fn fallocate_arguments() {
    assert_eq!(FallocateMode::Allocate.flags(), libc::FALLOC_FL_KEEP_SIZE);
    assert_eq!(
        FallocateMode::PunchHole.flags(),
        libc::FALLOC_FL_PUNCH_HOLE | libc::FALLOC_FL_KEEP_SIZE
    );
    assert_eq!(
        FallocateMode::ZeroRange.flags(),
        libc::FALLOC_FL_ZERO_RANGE | libc::FALLOC_FL_KEEP_SIZE
    );
    assert_eq!(fallocate(FallocateMode::PunchHole, 4096, 8192), Ok((3, 4096, 8192)));
    assert_eq!(
        fallocate(FallocateMode::Allocate, i64::MAX as u64, 0),
        Ok((1, i64::MAX, 0))
    );
    assert_eq!(
        fallocate(FallocateMode::Allocate, i64::MAX as u64 + 1, 0),
        Err(Error::new(libc::EINVAL))
    );
    assert_eq!(
        fallocate(FallocateMode::Allocate, 0, u64::MAX),
        Err(Error::new(libc::EINVAL))
    );
}

#[test]
fn only_foreign_descriptors_are_valid() {
    assert_eq!(validate_raw_descriptor(5, 0), Ok(5));
    assert_eq!(validate_raw_fd(5, 0), Ok(5));
    assert_eq!(validate_raw_descriptor(5, libc::FD_CLOEXEC), Err(Error::new(libc::EBADF)));
    assert_eq!(validate_raw_descriptor(5, -1), Err(Error::new(libc::EBADF)));
    assert_eq!(validate_raw_descriptor(5, 2), Ok(5));
    assert_eq!(validate_raw_descriptor(5, 3), Err(Error::new(libc::EBADF)));
    assert_eq!(Error::new(9).errno(), 9);
}

#[test]
fn cgroup_writes() {
    let w = move_task_to_cgroup(4711);
    assert_eq!((w.cgroup_file.as_str(), w.content.as_str()), ("tasks", "4711"));
    let w = move_proc_to_cgroup(1);
    assert_eq!((w.cgroup_file.as_str(), w.content.as_str()), ("cgroup.procs", "1"));
    let w = move_to_cgroup(-3, "x");
    assert_eq!((w.cgroup_file.as_str(), w.content.as_str()), ("x", "-3"));
}

#[test]
fn sysfs_paths_and_values() {
    assert_eq!(
        sysfs_cpu_info_path(12, "cpufreq/cpuinfo_max_freq"),
        "/sys/devices/system/cpu/cpu12/cpufreq/cpuinfo_max_freq"
    );
    assert_eq!(
        logical_core_frequencies_khz("800000 1600000\t2400000 \n"),
        Ok(vec![800000, 1600000, 2400000])
    );
    assert_eq!(logical_core_frequencies_khz(""), Ok(vec![]));
    assert_eq!(
        logical_core_frequencies_khz("800000 fast"),
        Err(Error::new(libc::EINVAL))
    );
    assert_eq!(logical_core_cluster_id("3\n"), Ok(3));
    assert_eq!(logical_core_cluster_id(" 3 4\n"), Err(Error::new(libc::EINVAL)));
    assert_eq!(logical_core_cluster_id("\n"), Err(Error::new(libc::EINVAL)));
    assert_eq!(logical_core_max_freq_khz("3400000\n"), Ok(3400000));
}

#[test]
fn capacity_is_scaled_back_by_frequency() {
    let freqs = vec![1000, 2000, 4000];
    assert_eq!(logical_core_capacity(0, 256, Some(&freqs)), Ok(1024));
    assert_eq!(logical_core_capacity(1, 512, Some(&freqs)), Ok(1024));
    assert_eq!(logical_core_capacity(2, 1024, Some(&freqs)), Ok(1024));
    assert_eq!(logical_core_capacity(1, 100, Some(&freqs)), Ok(200));
    assert_eq!(logical_core_capacity(1, 333, None), Ok(333));
    assert_eq!(
        logical_core_capacity(3, 100, Some(&freqs)),
        Err(Error::new(libc::EINVAL))
    );
    assert_eq!(
        logical_core_capacity(0, 100, Some(&vec![])),
        Err(Error::new(libc::EINVAL))
    );
    assert_eq!(
        logical_core_capacity(0, 100, Some(&vec![0, 5])),
        Err(Error::new(libc::EINVAL))
    );
    assert_eq!(largest(&vec![3, 9, 2, 9]), Some(9));
    assert_eq!(largest(&vec![]), None);
}

#[test]
fn pid_is_its_own_raw_pid() {
    let pid: i32 = 77;
    assert_eq!(pid.as_raw_pid(), 77);
}

#[test]
fn descriptors_are_named_by_paths_in_the_fd_directory() {
    assert_eq!(safe_descriptor_from_path(false, Some("5")), Ok(None));
    assert_eq!(safe_descriptor_from_path(false, None), Ok(None));
    assert_eq!(safe_descriptor_from_path(true, Some("5")), Ok(Some(5)));
    assert_eq!(safe_descriptor_from_path(true, Some("-1")), Ok(Some(-1)));
    assert_eq!(
        safe_descriptor_from_path(true, Some("five")),
        Err(Error::new(libc::EINVAL))
    );
    assert_eq!(
        safe_descriptor_from_path(true, None),
        Err(Error::new(libc::EINVAL))
    );
}
