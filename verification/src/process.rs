//! A forked process: what it inherits, how the two sides of the fork are
//! told apart, and what its end means.

use vstd::prelude::*;
use crate::bus::RawDescriptor;
use crate::errno::Error;

verus! {

/// The number of a process.
pub type Pid = i32;

/// The exit code of a forked process whose work returned.
pub const EXIT_CODE_CLEAN: i32 = 0;

/// The exit code of a forked process whose work panicked.
pub const EXIT_CODE_PANIC: i32 = 101;

/// The most bytes of a label that become the name of a thread.
pub const MAX_THREAD_LABEL_LEN: usize = 15;

/// A forked process that nobody has waited for yet.
#[derive(Debug)]
pub struct Child {
    /// The number of the process.
    pub pid: Pid,
}

/// How a process ended, as the host reports it.
#[derive(Clone, Copy, Debug, PartialEq, Eq, Structural)]
pub enum ExitStatus {
    /// The process exited with this code.
    Exited(i32),
    /// This signal ended the process.
    Signaled(i32),
}

/// The exit code that stands for `status`: the code of a process that
/// exited, cut to 8 bits; 128 plus the signal of a process that a signal
/// ended; 255 for a signal of 128 or more.
pub open spec fn spec_exit_code(status: ExitStatus) -> u8 {
    match status {
        ExitStatus::Exited(code) => code as u8,
        ExitStatus::Signaled(signal) => if signal >= 128 {
            255u8
        } else {
            (128 + signal) as u8
        },
    }
}

impl Child {
    /// The exit code of the process, from what waiting for it gave.
    /// A wait that failed fails here with the same error.
    pub fn wait(self, waited: Result<ExitStatus, Error>) -> (result: Result<u8, Error>)
        requires
            waited matches Ok(ExitStatus::Signaled(signal)) ==> signal >= 0,
        ensures
            match waited {
                Ok(status) => result == Ok::<u8, Error>(spec_exit_code(status)),
                Err(e) => result == Err::<u8, Error>(e),
            },
    {
        let _ = self.into_pid();
        match waited {
            Err(e) => Err(e),
            Ok(ExitStatus::Exited(exit_code)) => Ok(exit_code as u8),
            Ok(ExitStatus::Signaled(signal)) => {
                let exit_code = if signal >= 128 {
                    255
                } else {
                    128 + signal as u8
                };
                Ok(exit_code)
            },
        }
    }

    /// Gives up the process for its number. Whoever holds the number is
    /// from then on the one who waits for the process.
    pub fn into_pid(self) -> (pid: Pid)
        ensures
            pid == self.pid,
    {
        self.pid
    }
}

/// Whether `s` rises strictly: it is sorted and holds nothing twice.
pub open spec fn strictly_increasing(s: Seq<RawDescriptor>) -> bool {
    forall|i: int, j: int| 0 <= i < j < s.len() ==> s[i] < s[j]
}

/// The descriptors that a forked process keeps, sorted and each one once:
/// the sandbox refuses a list that names a descriptor twice.
pub fn dedup_keep_rds(keep_rds: &Vec<RawDescriptor>) -> (out: Vec<RawDescriptor>)
    ensures
        strictly_increasing(out@),
        forall|rd: RawDescriptor| out@.contains(rd) <==> keep_rds@.contains(rd),
{
    let mut out: Vec<RawDescriptor> = Vec::new();
    let mut k: usize = 0;
    while k < keep_rds.len()
        invariant
            k <= keep_rds@.len(),
            strictly_increasing(out@),
            forall|rd: RawDescriptor|
                out@.contains(rd) <==> keep_rds@.subrange(0, k as int).contains(rd),
        decreases keep_rds@.len() - k,
    {
        let rd = keep_rds[k];
        let ghost before = out@;
        let mut p: usize = 0;
        while p < out.len() && out[p] < rd
            invariant
                p <= out@.len(),
                out@ == before,
                forall|i: int| 0 <= i < p ==> out@[i] < rd,
            decreases out@.len() - p,
        {
            p += 1;
        }
        let present = p < out.len() && out[p] == rd;
        if !present {
            out.insert(p, rd);
            assert(out@ =~= before.subrange(0, p as int).push(rd) + before.subrange(
                p as int,
                before.len() as int,
            ));
            assert forall|i: int, j: int| 0 <= i < j < out@.len() implies out@[i] < out@[j] by {
                if j < p {
                    assert(out@[i] == before[i] && out@[j] == before[j]);
                } else if j == p {
                    assert(out@[i] == before[i]);
                } else if i < p {
                    assert(out@[i] == before[i] && out@[j] == before[j - 1]);
                    assert(before[p as int] > rd);
                    if j - 1 > p {
                        assert(before[p as int] < before[j - 1]);
                    }
                } else if i == p {
                    assert(out@[j] == before[j - 1]);
                    if j - 1 > p {
                        assert(before[p as int] < before[j - 1]);
                    }
                } else {
                    assert(out@[i] == before[i - 1] && out@[j] == before[j - 1]);
                }
            }
        }
        proof {
            let seen = keep_rds@.subrange(0, k as int);
            let next = keep_rds@.subrange(0, k + 1);
            assert(next =~= seen.push(rd));
            assert forall|x: RawDescriptor| out@.contains(x) <==> next.contains(x) by {
                if out@.contains(x) {
                    let i = choose|i: int| 0 <= i < out@.len() && out@[i] == x;
                    if present {
                        assert(seen.contains(x));
                        let m = choose|m: int| 0 <= m < seen.len() && seen[m] == x;
                        assert(next[m] == x);
                    } else if i < p {
                        assert(before[i] == x);
                        assert(before.contains(x));
                        let m = choose|m: int| 0 <= m < seen.len() && seen[m] == x;
                        assert(next[m] == x);
                    } else if i == p {
                        assert(next[k as int] == x);
                    } else {
                        assert(before[i - 1] == x);
                        assert(before.contains(x));
                        let m = choose|m: int| 0 <= m < seen.len() && seen[m] == x;
                        assert(next[m] == x);
                    }
                }
                if next.contains(x) {
                    let m = choose|m: int| 0 <= m < next.len() && next[m] == x;
                    if m < k {
                        assert(seen[m] == x);
                        assert(seen.contains(x));
                        assert(before.contains(x));
                        let i = choose|i: int| 0 <= i < before.len() && before[i] == x;
                        if present {
                            assert(out@[i] == x);
                        } else if i < p {
                            assert(out@[i] == x);
                        } else {
                            assert(out@[i + 1] == x);
                        }
                    } else {
                        assert(x == rd);
                        assert(out@[p as int] == rd);
                    }
                }
            }
        }
        k += 1;
    }
    assert(keep_rds@.subrange(0, k as int) =~= keep_rds@);
    out
}

/// The descriptors that the process of a device keeps: those that the
/// caller named and the child's end of the channel, sorted and each one once.
pub fn keep_list(keep_rds: Vec<RawDescriptor>, child_end: RawDescriptor) -> (out: Vec<RawDescriptor>)
    ensures
        strictly_increasing(out@),
        forall|rd: RawDescriptor| out@.contains(rd) <==> (keep_rds@.contains(rd) || rd == child_end),
{
    let mut all = keep_rds;
    all.push(child_end);
    assert forall|rd: RawDescriptor| all@.contains(rd) <==> (keep_rds@.contains(rd) || rd
        == child_end) by {
        if keep_rds@.contains(rd) {
            let i = choose|i: int| 0 <= i < keep_rds@.len() && keep_rds@[i] == rd;
            assert(all@[i] == rd);
        }
        if rd == child_end {
            assert(all@[keep_rds@.len() as int] == rd);
        }
    }
    dedup_keep_rds(&all)
}

/// The new process, right after the fork: nothing has been done in it.
/// Little may be done here, since the other threads of the old process are
/// gone and with them whoever held a lock.
#[derive(Debug)]
pub struct InChild {
    nothing: (),
}

/// The new process after the sandbox was applied to it. The sandbox cannot
/// be taken off again.
#[derive(Debug)]
pub struct Sandboxed {
    nothing: (),
}

/// The new process after it closed every descriptor that it was not told
/// to keep. Only now a device may be served in it.
pub struct Confined {
    kept: Ghost<Seq<RawDescriptor>>,
}

impl InChild {
    /// Takes note that the sandbox was applied: the first thing that is
    /// done in the new process.
    pub fn sandbox_applied(self) -> Sandboxed {
        Sandboxed { nothing: () }
    }
}

impl Sandboxed {
    /// Takes note that every descriptor was closed but those of `keep_rds`.
    /// The list names each descriptor once: a sandbox may refuse a list that
    /// names one twice.
    pub fn descriptors_closed(self, keep_rds: &Vec<RawDescriptor>) -> (confined: Confined)
        requires
            strictly_increasing(keep_rds@),
        ensures
            confined.spec_kept() == keep_rds@,
    {
        Confined { kept: Ghost(keep_rds@) }
    }
}

impl Confined {
    /// The descriptors that the process kept.
    pub closed spec fn spec_kept(&self) -> Seq<RawDescriptor> {
        self.kept@
    }
}

/// On which side of a fork the caller stands.
#[derive(Debug)]
pub enum Forked {
    /// In the new process: apply the sandbox, close what is not kept, do
    /// the work, and exit.
    InChild(InChild),
    /// In the old process, which now has a child.
    InParent(Child),
    /// In the old process, which has no child: the fork failed.
    Failed,
}

/// Tells the two sides of a fork apart by what the fork returned: 0 in the
/// new process, the number of the new process in the old one, and a
/// negative number where no process was made.
pub fn fork_process(forked: Pid) -> (side: Forked)
    ensures
        forked == 0 ==> side is InChild,
        forked > 0 ==> (side matches Forked::InParent(child) && child.pid == forked),
        forked < 0 ==> side is Failed,
{
    if forked == 0 {
        Forked::InChild(InChild { nothing: () })
    } else if forked > 0 {
        Forked::InParent(Child { pid: forked })
    } else {
        Forked::Failed
    }
}

/// The exit code of a forked process: 0 where its work returned, 101 where
/// it panicked.
pub fn exit_code(panicked: bool) -> (code: i32)
    ensures
        code == if panicked { EXIT_CODE_PANIC } else { EXIT_CODE_CLEAN },
{
    if panicked {
        EXIT_CODE_PANIC
    } else {
        EXIT_CODE_CLEAN
    }
}

/// The name of the thread of a forked process: the first 15 bytes of its
/// label.
pub fn thread_label(debug_label: &[u8]) -> (name: Vec<u8>)
    ensures
        name@ == debug_label@.subrange(
            0,
            if debug_label@.len() < MAX_THREAD_LABEL_LEN {
                debug_label@.len() as int
            } else {
                MAX_THREAD_LABEL_LEN as int
            },
        ),
{
    let n = if debug_label.len() < MAX_THREAD_LABEL_LEN {
        debug_label.len()
    } else {
        MAX_THREAD_LABEL_LEN
    };
    let mut name: Vec<u8> = Vec::new();
    let mut i: usize = 0;
    while i < n
        invariant
            i <= n <= debug_label@.len(),
            name@ == debug_label@.subrange(0, i as int),
        decreases n - i,
    {
        name.push(debug_label[i]);
        assert(name@ =~= debug_label@.subrange(0, i + 1));
        i += 1;
    }
    name
}

} // verus!
