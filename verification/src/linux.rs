//! What the library knows of the host when the host is Linux: the numbers
//! that its calls take, and the texts that it keeps about processors and
//! control groups.

use vstd::prelude::*;
use crate::bus::RawDescriptor;
use crate::errno::Error;
use crate::errno::EBADF;
use crate::errno::EINVAL;
use crate::process::Pid;
use crate::text::decimal;
use crate::text::decimal_signed;
use crate::text::parse_i32;
use crate::text::parse_u32;
use crate::text::spec_parse_i32;
use crate::text::spec_decimal;
use crate::text::spec_decimal_signed;
use crate::text::spec_parse_u32;
use crate::text::spec_split_whitespace;
use crate::text::spec_trim;
use crate::text::split_whitespace;
use crate::text::trim;
use crate::text::views;

verus! {

/// A shared lock.
pub const LOCK_SH: i32 = 1;

/// An exclusive lock.
pub const LOCK_EX: i32 = 2;

/// Do not wait for the lock.
pub const LOCK_NB: i32 = 4;

/// Give the lock up.
pub const LOCK_UN: i32 = 8;

/// Keep the size of the file.
pub const FALLOC_FL_KEEP_SIZE: i32 = 0x01;

/// Free the range.
pub const FALLOC_FL_PUNCH_HOLE: i32 = 0x02;

/// Fill the range with zeros.
pub const FALLOC_FL_ZERO_RANGE: i32 = 0x10;

/// The flag of a descriptor that closes it when the process runs another
/// program.
pub const FD_CLOEXEC: i32 = 1;

/// What to do with the lock on a file.
#[derive(Clone, Copy, Debug, PartialEq, Eq, Structural)]
pub enum FlockOperation {
    LockShared,
    LockExclusive,
    Unlock,
}

impl FlockOperation {
    /// The number that the host takes for the operation, where
    /// `nonblocking` says not to wait for the lock.
    pub open spec fn spec_flags(self, nonblocking: bool) -> i32 {
        let operation = match self {
            FlockOperation::LockShared => LOCK_SH,
            FlockOperation::LockExclusive => LOCK_EX,
            FlockOperation::Unlock => LOCK_UN,
        };
        if nonblocking {
            (operation + LOCK_NB) as i32
        } else {
            operation
        }
    }

    /// The number that the host takes for the operation.
    pub fn flags(self, nonblocking: bool) -> (operation: i32)
        ensures
            operation == self.spec_flags(nonblocking),
    {
        let operation = match self {
            FlockOperation::LockShared => LOCK_SH,
            FlockOperation::LockExclusive => LOCK_EX,
            FlockOperation::Unlock => LOCK_UN,
        };
        if nonblocking {
            assert(1i32 | 4i32 == 5i32 && 2i32 | 4i32 == 6i32 && 8i32 | 4i32 == 12i32)
                by (bit_vector);
            operation | LOCK_NB
        } else {
            operation
        }
    }
}

/// What to do with a range of a file.
#[derive(Clone, Copy, Debug, PartialEq, Eq, Structural)]
pub enum FallocateMode {
    PunchHole,
    ZeroRange,
    Allocate,
}

impl FallocateMode {
    /// The number that the host takes for the mode. The size of the file
    /// is kept in each of them.
    pub open spec fn spec_flags(self) -> i32 {
        match self {
            FallocateMode::Allocate => 0x01,
            FallocateMode::PunchHole => 0x03,
            FallocateMode::ZeroRange => 0x11,
        }
    }

    /// The number that the host takes for the mode.
    pub fn flags(self) -> (mode: i32)
        ensures
            mode == self.spec_flags(),
    {
        assert(0x02i32 | 0x01i32 == 0x03i32 && 0x10i32 | 0x01i32 == 0x11i32) by (bit_vector);
        match self {
            FallocateMode::Allocate => FALLOC_FL_KEEP_SIZE,
            FallocateMode::PunchHole => FALLOC_FL_PUNCH_HOLE | FALLOC_FL_KEEP_SIZE,
            FallocateMode::ZeroRange => FALLOC_FL_ZERO_RANGE | FALLOC_FL_KEEP_SIZE,
        }
    }
}

/// What the host is asked when a range of a file is allocated: mode, offset
/// and length, each as the host takes it.
pub fn fallocate(mode: FallocateMode, offset: u64, len: u64) -> (args: Result<(i32, i64, i64), Error>)
    ensures
        offset <= i64::MAX && len <= i64::MAX ==> args == Ok::<(i32, i64, i64), Error>(
            (mode.spec_flags(), offset as i64, len as i64),
        ),
        offset > i64::MAX || len > i64::MAX ==> (args matches Err(e) && e.spec_errno() == EINVAL),
{
    if offset > i64::MAX as u64 {
        return Err(Error::new(EINVAL));
    }
    if len > i64::MAX as u64 {
        return Err(Error::new(EINVAL));
    }
    Ok((mode.flags(), offset as i64, len as i64))
}

/// Something that has the number of a process.
pub trait AsRawPid {
    /// The number of the process.
    fn as_raw_pid(&self) -> Pid;
}

impl AsRawPid for Pid {
    fn as_raw_pid(&self) -> (pid: Pid)
        ensures
            pid == *self,
    {
        *self
    }
}

/// Whether a descriptor with the flags `flags`, as the host reported them,
/// is one that this process may take over: the host knows it, and it is not
/// marked to be closed, as every descriptor is that this process opened
/// itself.
pub open spec fn spec_foreign_descriptor(flags: i32) -> bool {
    flags >= 0 && flags % 2 == 0
}

/// Checks that `raw_descriptor`, whose flags the host reported as `flags`,
/// is one that this process may take over, and hands it back to be
/// duplicated. Any other descriptor is refused as a bad descriptor.
pub fn validate_raw_descriptor(raw_descriptor: RawDescriptor, flags: i32) -> (r: Result<
    RawDescriptor,
    Error,
>)
    ensures
        spec_foreign_descriptor(flags) ==> r == Ok::<RawDescriptor, Error>(raw_descriptor),
        !spec_foreign_descriptor(flags) ==> (r matches Err(e) && e.spec_errno() == EBADF),
{
    validate_raw_fd(raw_descriptor, flags)
}

/// Checks that `raw_fd`, whose flags the host reported as `flags`, is one
/// that this process may take over.
pub fn validate_raw_fd(raw_fd: RawDescriptor, flags: i32) -> (r: Result<RawDescriptor, Error>)
    ensures
        spec_foreign_descriptor(flags) ==> r == Ok::<RawDescriptor, Error>(raw_fd),
        !spec_foreign_descriptor(flags) ==> (r matches Err(e) && e.spec_errno() == EBADF),
{
    assert(flags >= 0 ==> ((flags & 1i32 != 0) <==> flags % 2 != 0)) by (bit_vector);
    if flags < 0 || (flags & FD_CLOEXEC) != 0 {
        return Err(Error::new(EBADF));
    }
    Ok(raw_fd)
}

/// The descriptor that a path names, where `in_fd_directory` says whether
/// the path lies directly in `/proc/self/fd` and `file_name` is its last
/// part, if that is text: no descriptor for a path that lies elsewhere, the
/// number that the last part writes for one that lies there, and an invalid
/// argument where the last part writes no number.
pub fn safe_descriptor_from_path(in_fd_directory: bool, file_name: Option<&str>) -> (r: Result<
    Option<RawDescriptor>,
    Error,
>)
    ensures
        !in_fd_directory ==> r == Ok::<Option<RawDescriptor>, Error>(None),
        in_fd_directory ==> match file_name {
            Some(name) => match spec_parse_i32(name@) {
                Some(fd) => r == Ok::<Option<RawDescriptor>, Error>(Some(fd)),
                None => r matches Err(e) && e.spec_errno() == EINVAL,
            },
            None => r matches Err(e) && e.spec_errno() == EINVAL,
        },
{
    if !in_fd_directory {
        return Ok(None);
    }
    match file_name {
        Some(name) => match parse_i32(name) {
            Some(fd) => Ok(Some(fd)),
            None => Err(Error::new(EINVAL)),
        },
        None => Err(Error::new(EINVAL)),
    }
}

/// A write that moves a process or a thread into a control group: the file
/// of the group that takes the number, and the number as text.
#[derive(Debug)]
pub struct CgroupWrite {
    /// The name of the file inside the directory of the group.
    pub cgroup_file: String,
    /// What is written to it.
    pub content: String,
}

/// The write that moves `id_to_write` into a control group through the
/// file `cgroup_file` of the group.
pub fn move_to_cgroup(id_to_write: Pid, cgroup_file: &str) -> (w: CgroupWrite)
    ensures
        w.cgroup_file@ == cgroup_file@,
        w.content@ == spec_decimal_signed(id_to_write as int),
{
    CgroupWrite { cgroup_file: cgroup_file.to_owned(), content: decimal_signed(id_to_write) }
}

/// The write that moves the thread `thread_id` into a control group.
pub fn move_task_to_cgroup(thread_id: Pid) -> (w: CgroupWrite)
    ensures
        w.cgroup_file@ == "tasks"@,
        w.content@ == spec_decimal_signed(thread_id as int),
{
    move_to_cgroup(thread_id, "tasks")
}

/// The write that moves the process `process_id` into a control group.
pub fn move_proc_to_cgroup(process_id: Pid) -> (w: CgroupWrite)
    ensures
        w.cgroup_file@ == "cgroup.procs"@,
        w.content@ == spec_decimal_signed(process_id as int),
{
    move_to_cgroup(process_id, "cgroup.procs")
}

/// The path of the file in which the host keeps `property` of the
/// processor `cpu_id`.
pub open spec fn spec_sysfs_cpu_info_path(cpu_id: usize, property: Seq<char>) -> Seq<char> {
    "/sys/devices/system/cpu/cpu"@ + spec_decimal(cpu_id as nat) + "/"@ + property
}

/// The path of the file in which the host keeps `property` of the
/// processor `cpu_id`.
pub fn sysfs_cpu_info_path(cpu_id: usize, property: &str) -> (path: String)
    ensures
        path@ == spec_sysfs_cpu_info_path(cpu_id, property@),
{
    let mut path = "/sys/devices/system/cpu/cpu".to_owned();
    path.push_str(decimal(cpu_id as u64).as_str());
    path.push_str("/");
    path.push_str(property);
    assert(path@ =~= spec_sysfs_cpu_info_path(cpu_id, property@));
    path
}

/// The numbers that `words` write, if each of them writes one.
pub open spec fn spec_parse_all(words: Seq<Seq<char>>) -> Option<Seq<u32>> {
    if forall|i: int| 0 <= i < words.len() ==> (#[trigger] spec_parse_u32(words[i])) is Some {
        Some(Seq::new(words.len(), |i: int| spec_parse_u32(words[i])->0))
    } else {
        None
    }
}

/// The numbers in the text `content` of a file of the host: its words,
/// each read as a number. One word that is no number makes the whole text
/// invalid.
pub fn parse_sysfs_cpu_info_vec(content: &str) -> (r: Result<Vec<u32>, Error>)
    ensures
        match spec_parse_all(spec_split_whitespace(content@)) {
            Some(values) => r matches Ok(v) && v@ == values,
            None => r matches Err(e) && e.spec_errno() == EINVAL,
        },
{
    let words = split_whitespace(content);
    let ghost texts = spec_split_whitespace(content@);
    let mut values: Vec<u32> = Vec::new();
    let mut i: usize = 0;
    while i < words.len()
        invariant
            i <= words@.len(),
            views(words@) == texts,
            texts == spec_split_whitespace(content@),
            values@.len() == i,
            forall|k: int| 0 <= k < i ==> spec_parse_u32(texts[k]) == Some(#[trigger] values@[k]),
        decreases words@.len() - i,
    {
        assert(views(words@)[i as int] == words@[i as int]@);
        match parse_u32(words[i].as_str()) {
            Some(v) => {
                values.push(v);
            },
            None => {
                assert(spec_parse_u32(texts[i as int]) is None);
                return Err(Error::new(EINVAL));
            },
        }
        i += 1;
    }
    proof {
        assert(views(words@).len() == words@.len());
        assert forall|k: int| 0 <= k < texts.len() implies (#[trigger] spec_parse_u32(texts[k]))
            is Some by {
            assert(spec_parse_u32(texts[k]) == Some(values@[k]));
        }
        assert(values@ =~= spec_parse_all(texts)->0);
    }
    Ok(values)
}

/// The number in the text `content` of a file of the host, white space at
/// its ends aside.
pub fn parse_sysfs_cpu_info(content: &str) -> (r: Result<u32, Error>)
    ensures
        match spec_parse_u32(spec_trim(content@)) {
            Some(value) => r == Ok::<u32, Error>(value),
            None => r matches Err(e) && e.spec_errno() == EINVAL,
        },
{
    let trimmed = trim(content);
    match parse_u32(trimmed.as_str()) {
        Some(v) => Ok(v),
        None => Err(Error::new(EINVAL)),
    }
}

/// The frequencies in kHz that a processor supports, from the text of the
/// file `cpufreq/scaling_available_frequencies` of that processor.
pub fn logical_core_frequencies_khz(content: &str) -> (r: Result<Vec<u32>, Error>)
    ensures
        match spec_parse_all(spec_split_whitespace(content@)) {
            Some(values) => r matches Ok(v) && v@ == values,
            None => r matches Err(e) && e.spec_errno() == EINVAL,
        },
{
    parse_sysfs_cpu_info_vec(content)
}

/// The cluster of a processor, from the text of the file
/// `topology/physical_package_id` of that processor.
pub fn logical_core_cluster_id(content: &str) -> (r: Result<u32, Error>)
    ensures
        match spec_parse_u32(spec_trim(content@)) {
            Some(value) => r == Ok::<u32, Error>(value),
            None => r matches Err(e) && e.spec_errno() == EINVAL,
        },
{
    parse_sysfs_cpu_info(content)
}

/// The highest frequency in kHz of a processor, from the text of the file
/// `cpufreq/cpuinfo_max_freq` of that processor.
pub fn logical_core_max_freq_khz(content: &str) -> (r: Result<u32, Error>)
    ensures
        match spec_parse_u32(spec_trim(content@)) {
            Some(value) => r == Ok::<u32, Error>(value),
            None => r matches Err(e) && e.spec_errno() == EINVAL,
        },
{
    parse_sysfs_cpu_info(content)
}

/// Whether `m` is the greatest of `values`.
pub open spec fn is_max(values: Seq<u32>, m: u32) -> bool {
    values.contains(m) && forall|i: int| 0 <= i < values.len() ==> values[i] <= m
}

/// The greatest of `values`, if there is any value.
pub fn largest(values: &Vec<u32>) -> (m: Option<u32>)
    ensures
        values@.len() == 0 <==> m is None,
        m matches Some(v) ==> is_max(values@, v),
{
    if values.len() == 0 {
        return None;
    }
    let mut best = values[0];
    let mut i: usize = 1;
    assert(values@.subrange(0, 1)[0] == best);
    while i < values.len()
        invariant
            1 <= i <= values@.len(),
            values@.subrange(0, i as int).contains(best),
            forall|k: int| 0 <= k < i ==> values@[k] <= best,
        decreases values@.len() - i,
    {
        let ghost seen = values@.subrange(0, i as int);
        let ghost at = choose|k: int| 0 <= k < seen.len() && seen[k] == best;
        if values[i] > best {
            best = values[i];
            assert(values@.subrange(0, i + 1)[i as int] == best);
        } else {
            assert(values@.subrange(0, i + 1)[at] == best);
        }
        i += 1;
    }
    assert(values@.subrange(0, i as int) =~= values@);
    Some(best)
}

/// The capacity of the processor `cpu_id`, a measure of how fast it is.
///
/// `cpu_capacity` is what the host reports, scaled to the fastest
/// processor; `cpu_max_freqs` holds the highest frequency of each processor,
/// or is `None` where the host does not know them. With the frequencies the
/// scaling is undone: the capacity times the greatest of the frequencies,
/// divided by the frequency of this processor.
pub fn logical_core_capacity(cpu_id: usize, cpu_capacity: u32, cpu_max_freqs: Option<&Vec<u32>>) -> (r:
    Result<u32, Error>)
    requires
        cpu_max_freqs matches Some(freqs) ==> forall|i: int|
            0 <= i < freqs@.len() ==> cpu_capacity * freqs@[i] <= u32::MAX,
    ensures
        match cpu_max_freqs {
            None => r == Ok::<u32, Error>(cpu_capacity),
            Some(freqs) => if cpu_id < freqs@.len() && freqs@[cpu_id as int] != 0 {
                r matches Ok(capacity) && exists|m: u32|
                    is_max(freqs@, m) && capacity == (cpu_capacity * m) / (
                    freqs@[cpu_id as int] as int)
            } else {
                r matches Err(e) && e.spec_errno() == EINVAL
            },
        },
{
    match cpu_max_freqs {
        Some(freqs) => {
            let largest_max_freq = match largest(freqs) {
                Some(m) => m,
                None => {
                    return Err(Error::new(EINVAL));
                },
            };
            if cpu_id >= freqs.len() {
                return Err(Error::new(EINVAL));
            }
            let cpu_max_freq = freqs[cpu_id];
            if cpu_max_freq == 0 {
                return Err(Error::new(EINVAL));
            }
            let ghost at = choose|k: int| 0 <= k < freqs@.len() && freqs@[k] == largest_max_freq;
            assert(cpu_capacity * freqs@[at] <= u32::MAX);
            Ok((cpu_capacity * largest_max_freq) / cpu_max_freq)
        },
        None => Ok(cpu_capacity),
    }
}

/// How the host schedules a thread.
#[allow(non_camel_case_types)]
#[derive(Clone, Copy, Debug, PartialEq, Eq, Structural)]
pub struct sched_attr {
    /// The size of this structure in bytes.
    pub size: u32,
    pub sched_policy: u32,
    pub sched_flags: u64,
    pub sched_nice: i32,
    pub sched_priority: u32,
    pub sched_runtime: u64,
    pub sched_deadline: u64,
    pub sched_period: u64,
    pub sched_util_min: u32,
    pub sched_util_max: u32,
}

/// The size of a [`sched_attr`] as the host lays it out: four fields of 4
/// bytes and one of 8 in front, three of 8 and two of 4 behind.
pub const SCHED_ATTR_SIZE: u32 = 56;

impl sched_attr {
    /// The attributes that change nothing: all zero, but for the size.
    pub fn default() -> (attr: sched_attr)
        ensures
            attr == (sched_attr {
                size: SCHED_ATTR_SIZE,
                sched_policy: 0,
                sched_flags: 0,
                sched_nice: 0,
                sched_priority: 0,
                sched_runtime: 0,
                sched_deadline: 0,
                sched_period: 0,
                sched_util_min: 0,
                sched_util_max: 0,
            }),
    {
        sched_attr {
            size: SCHED_ATTR_SIZE,
            sched_policy: 0,
            sched_flags: 0,
            sched_nice: 0,
            sched_priority: 0,
            sched_runtime: 0,
            sched_deadline: 0,
            sched_period: 0,
            sched_util_min: 0,
            sched_util_max: 0,
        }
    }
}

} // verus!
