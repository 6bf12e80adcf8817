//! The process handle: one abstraction over an attached child process and a
//! detached process watched through a Linux process file descriptor (pidfd).
//! The handle owns the lifecycle bookkeeping — exit-status memoization, the
//! kill decision, pipe extraction — while the driver performs the actual
//! waits, signals and reads and hands their outcomes in as plain values.

use vstd::prelude::*;

use crate::numeric::{
    all_decimal_digits, decimal_value, is_ascii_whitespace, is_whitespace_char,
    lemma_strip_trailing_whitespace_prefix, parse_u64, strip_trailing_whitespace,
};

verus! {

/// Why the pipes of a process could not be extracted.
#[derive(Debug, Clone, Copy, PartialEq, Eq, Structural)]
pub enum ProcessHandlePipesError {
    /// The handle points to a detached process outside the supervisor's
    /// process tree, which has no pipes to give.
    ProcessIsDetached,
    /// The pipes were redirected to the null device when spawning.
    PipesWereDropped,
    /// The pipes were already extracted and given away.
    PipesWereAlreadyTaken,
}

/// Why a kill was refused.
#[derive(Debug, Clone, Copy, PartialEq, Eq, Structural)]
pub enum ProcessHandleError {
    /// The detached process has already exited; there is nothing to signal.
    ProcessAlreadyExited,
}

/// How the driver must deliver a kill.
#[derive(Debug, Clone, Copy, PartialEq, Eq, Structural)]
pub enum KillAction {
    /// Kill the attached child process.
    KillChildProcess,
    /// Send SIGKILL through the given process file descriptor.
    PidfdSigkill { raw_pidfd: i32 },
}

/// The two backends of a handle.
#[derive(Debug, Clone, Copy, PartialEq, Eq, Structural)]
pub enum ProcessHandleBackend {
    /// An attached child process of the supervisor.
    Child { pipes_dropped: bool, pipes_taken: bool },
    /// A detached process watched through a process file descriptor.
    Pidfd { raw_pidfd: i32 },
}

/// A handle over either an attached child process or a detached process.
/// Exit statuses are raw wait statuses; the first observed one is memoized,
/// so repeated waits agree.
#[derive(Debug, Clone, Copy, PartialEq, Eq, Structural)]
pub struct ProcessHandle {
    pub backend: ProcessHandleBackend,
    pub exited: Option<i32>,
}

/// What a wait returns and leaves behind: the memoized status when one is
/// set, else the freshly observed status, which is then memoized.
pub open spec fn wait_result(h: ProcessHandle, observed_status: i32) -> (ProcessHandle, i32) {
    match h.exited {
        Some(status) => (h, status),
        None => (ProcessHandle { exited: Some(observed_status), ..h }, observed_status),
    }
}

/// What a non-blocking wait returns and leaves behind: the memoized status
/// when one is set; else the freshly observed status, if any, which is then
/// memoized.
pub open spec fn try_wait_result(h: ProcessHandle, observed_status: Option<i32>) -> (
    ProcessHandle,
    Option<i32>,
) {
    match h.exited {
        Some(status) => (h, Some(status)),
        None => match observed_status {
            Some(status) => (ProcessHandle { exited: Some(status), ..h }, Some(status)),
            None => (h, None),
        },
    }
}

/// Whether and how a kill is delivered: an attached child is always killed;
/// a detached process only while no exit has been observed.
pub open spec fn kill_decision(h: ProcessHandle) -> Result<KillAction, ProcessHandleError> {
    match h.backend {
        ProcessHandleBackend::Child { .. } => Ok(KillAction::KillChildProcess),
        ProcessHandleBackend::Pidfd { raw_pidfd } => {
            if h.exited is Some {
                Err(ProcessHandleError::ProcessAlreadyExited)
            } else {
                Ok(KillAction::PidfdSigkill { raw_pidfd })
            }
        },
    }
}

/// Whether the pipes may be extracted, and the handle afterwards: only an
/// attached child whose pipes were neither dropped at spawn time nor already
/// extracted gives them away, and they are then marked taken.
pub open spec fn pipes_decision(h: ProcessHandle) -> (
    ProcessHandle,
    Result<(), ProcessHandlePipesError>,
) {
    match h.backend {
        ProcessHandleBackend::Pidfd { .. } => (
            h,
            Err(ProcessHandlePipesError::ProcessIsDetached),
        ),
        ProcessHandleBackend::Child { pipes_dropped, pipes_taken } => {
            if pipes_dropped {
                (h, Err(ProcessHandlePipesError::PipesWereDropped))
            } else if pipes_taken {
                (h, Err(ProcessHandlePipesError::PipesWereAlreadyTaken))
            } else {
                (
                    ProcessHandle {
                        backend: ProcessHandleBackend::Child { pipes_dropped, pipes_taken: true },
                        ..h
                    },
                    Ok(()),
                )
            }
        },
    }
}

impl ProcessHandle {
    /// A handle over an attached child process of the supervisor.
    pub fn with_child(pipes_dropped: bool) -> (r: Self)
        ensures
            r == (ProcessHandle {
                backend: ProcessHandleBackend::Child { pipes_dropped, pipes_taken: false },
                exited: None,
            }),
    {
        ProcessHandle {
            backend: ProcessHandleBackend::Child { pipes_dropped, pipes_taken: false },
            exited: None,
        }
    }

    /// A handle over a detached process, watched through the given process
    /// file descriptor that the driver allocated for its PID.
    pub fn with_pidfd(raw_pidfd: i32) -> (r: Self)
        ensures
            r == (ProcessHandle {
                backend: ProcessHandleBackend::Pidfd { raw_pidfd },
                exited: None,
            }),
    {
        ProcessHandle { backend: ProcessHandleBackend::Pidfd { raw_pidfd }, exited: None }
    }

    /// Concludes a wait: the driver has awaited the process (or its exit
    /// channel) and observed the given raw status. The first status is
    /// memoized; later waits return the memoized one whatever was observed.
    pub fn wait(&mut self, observed_status: i32) -> (r: i32)
        ensures
            (*final(self), r) == wait_result(*old(self), observed_status),
            final(self).exited == Some(r),
    {
        match self.exited {
            Some(status) => status,
            None => {
                self.exited = Some(observed_status);
                observed_status
            },
        }
    }

    /// Concludes a non-blocking wait: the driver has polled the process (or
    /// its exit channel) and observed the given status, if any. A memoized
    /// status short-circuits the poll's outcome.
    pub fn try_wait(&mut self, observed_status: Option<i32>) -> (r: Option<i32>)
        ensures
            (*final(self), r) == try_wait_result(*old(self), observed_status),
    {
        match self.exited {
            Some(status) => Some(status),
            None => {
                match observed_status {
                    Some(status) => {
                        self.exited = Some(status);
                        Some(status)
                    },
                    None => None,
                }
            },
        }
    }

    /// Decides how a SIGKILL is delivered, refusing it for a detached
    /// process that has already exited.
    pub fn send_sigkill(&self) -> (r: Result<KillAction, ProcessHandleError>)
        ensures
            r == kill_decision(*self),
    {
        match self.backend {
            ProcessHandleBackend::Child { .. } => Ok(KillAction::KillChildProcess),
            ProcessHandleBackend::Pidfd { raw_pidfd } => {
                if self.exited.is_some() {
                    Err(ProcessHandleError::ProcessAlreadyExited)
                } else {
                    Ok(KillAction::PidfdSigkill { raw_pidfd })
                }
            },
        }
    }

    /// Decides whether the pipes may be extracted, and marks them taken.
    /// Only an attached child whose pipes were neither dropped at spawn time
    /// nor already extracted can give them away.
    pub fn get_pipes(&mut self) -> (r: Result<(), ProcessHandlePipesError>)
        ensures
            (*final(self), r) == pipes_decision(*old(self)),
    {
        match self.backend {
            ProcessHandleBackend::Pidfd { .. } => Err(ProcessHandlePipesError::ProcessIsDetached),
            ProcessHandleBackend::Child { pipes_dropped, pipes_taken } => {
                if pipes_dropped {
                    Err(ProcessHandlePipesError::PipesWereDropped)
                } else if pipes_taken {
                    Err(ProcessHandlePipesError::PipesWereAlreadyTaken)
                } else {
                    self.backend = ProcessHandleBackend::Child {
                        pipes_dropped,
                        pipes_taken: true,
                    };
                    Ok(())
                }
            },
        }
    }
}

/// Exit-status memoization: once a wait has returned a status, every later
/// wait and non-blocking wait returns that same status, whatever the driver
/// observes in the meantime, and a kill of a detached process is refused
/// rather than signalled.
pub proof fn lemma_exit_status_memoization(
    h: ProcessHandle,
    first_observed: i32,
    later_observed: i32,
    later_polled: Option<i32>,
)
    ensures
        ({
            let (h1, s1) = wait_result(h, first_observed);
            let (h2, s2) = wait_result(h1, later_observed);
            let (h3, s3) = try_wait_result(h1, later_polled);
            &&& s2 == s1
            &&& s3 == Some(s1)
            &&& h2 == h1
            &&& h3 == h1
            &&& (h1.backend is Pidfd ==> kill_decision(h1) == Err::<
                KillAction,
                _,
            >(ProcessHandleError::ProcessAlreadyExited))
        }),
{
}

/// The PID that a PID file holds: its content without trailing whitespace,
/// read as a decimal number that fits a PID. `None` when the content (so
/// trimmed) is empty, holds a non-digit, or is too large.
pub open spec fn pid_file_value(content: Seq<char>) -> Option<i32> {
    let trimmed = strip_trailing_whitespace(content);
    if trimmed.len() > 0 && all_decimal_digits(trimmed) && decimal_value(trimmed) <= i32::MAX {
        Some(decimal_value(trimmed) as i32)
    } else {
        None
    }
}

/// Reads a spawned jailer's PID file content: the PID it holds, if the
/// content parses as one. The driver polls this until the file has been
/// written completely.
pub fn parse_pid_file(content: &str) -> (r: Option<i32>)
    ensures
        r == pid_file_value(content@),
{
    let len = content.unicode_len();
    let mut j: usize = len;
    while j > 0 && is_whitespace_char(content.get_char(j - 1))
        invariant
            0 <= j <= len == content@.len(),
            forall|m: int| j <= m < len ==> is_ascii_whitespace(#[trigger] content@[m]),
        decreases j,
    {
        j = j - 1;
    }
    proof {
        lemma_strip_trailing_whitespace_prefix(content@, j as int);
        if j > 0 {
            assert(content@.subrange(0, j as int).last() == content@[j - 1]);
        }
        assert(strip_trailing_whitespace(content@.subrange(0, j as int)) == content@.subrange(
            0,
            j as int,
        ));
    }
    let trimmed = content.substring_char(0, j);
    match parse_u64(trimmed) {
        Some(value) => {
            if value <= i32::MAX as u64 {
                Some(value as i32)
            } else {
                None
            }
        },
        None => None,
    }
}

/// The maximal suffix that contains no whitespace.
pub open spec fn after_last_whitespace(s: Seq<char>) -> Seq<char>
    decreases s.len(),
{
    if s.len() == 0 {
        s
    } else if is_ascii_whitespace(s.last()) {
        Seq::<char>::empty()
    } else {
        after_last_whitespace(s.drop_last()).push(s.last())
    }
}

proof fn lemma_after_last_whitespace_no_ws(t: Seq<char>)
    requires
        forall|m: int| 0 <= m < t.len() ==> !is_ascii_whitespace(#[trigger] t[m]),
    ensures
        after_last_whitespace(t) == t,
    decreases t.len(),
{
    if t.len() > 0 {
        lemma_after_last_whitespace_no_ws(t.drop_last());
        assert(after_last_whitespace(t) =~= t);
    } else {
        assert(after_last_whitespace(t) =~= t);
    }
}

proof fn lemma_after_last_whitespace_suffix(t: Seq<char>, k: int)
    requires
        0 <= k < t.len(),
        is_ascii_whitespace(t[k]),
        forall|m: int| k < m < t.len() ==> !is_ascii_whitespace(#[trigger] t[m]),
    ensures
        after_last_whitespace(t) == t.subrange(k + 1, t.len() as int),
    decreases t.len() - k,
{
    if k == t.len() - 1 {
        assert(after_last_whitespace(t) =~= t.subrange(k + 1, t.len() as int));
    } else {
        assert(!is_ascii_whitespace(t.last()));
        assert(t.drop_last() =~= t.subrange(0, t.len() - 1));
        lemma_after_last_whitespace_suffix(t.subrange(0, t.len() - 1), k);
        assert(t.subrange(0, t.len() - 1).subrange(k + 1, t.len() - 1) =~= t.subrange(
            k + 1,
            t.len() - 1,
        ));
        assert(after_last_whitespace(t) =~= t.subrange(k + 1, t.len() as int));
    }
}

/// The raw exit status recovered from a process status line: its last
/// whitespace-separated field, read as a decimal number. Recovery is best
/// effort — whenever the field does not parse, zero is reported.
pub open spec fn proc_status_line_value(content: Seq<char>) -> i32 {
    let token = after_last_whitespace(strip_trailing_whitespace(content));
    if token.len() > 0 && all_decimal_digits(token) && decimal_value(token) <= i32::MAX {
        decimal_value(token) as i32
    } else {
        0
    }
}

/// Reads the raw exit status out of a detached process's status line, best
/// effort: zero when the line's last field does not parse as one.
pub fn parse_proc_status_line(content: &str) -> (r: i32)
    ensures
        r == proc_status_line_value(content@),
{
    let len = content.unicode_len();
    let mut j: usize = len;
    while j > 0 && is_whitespace_char(content.get_char(j - 1))
        invariant
            0 <= j <= len == content@.len(),
            forall|m: int| j <= m < len ==> is_ascii_whitespace(#[trigger] content@[m]),
        decreases j,
    {
        j = j - 1;
    }
    proof {
        lemma_strip_trailing_whitespace_prefix(content@, j as int);
        if j > 0 {
            assert(content@.subrange(0, j as int).last() == content@[j - 1]);
        }
        assert(strip_trailing_whitespace(content@.subrange(0, j as int)) == content@.subrange(
            0,
            j as int,
        ));
    }
    let mut k: usize = j;
    while k > 0 && !is_whitespace_char(content.get_char(k - 1))
        invariant
            0 <= k <= j <= content@.len(),
            forall|m: int| k <= m < j ==> !is_ascii_whitespace(#[trigger] content@[m]),
        decreases k,
    {
        k = k - 1;
    }
    let trimmed = Ghost(content@.subrange(0, j as int));
    proof {
        if k == 0 {
            lemma_after_last_whitespace_no_ws(trimmed@);
        } else {
            assert(trimmed@[k - 1] == content@[k - 1]);
            lemma_after_last_whitespace_suffix(trimmed@, k - 1);
        }
        assert(trimmed@.subrange(k as int, j as int) =~= content@.subrange(k as int, j as int));
        assert(after_last_whitespace(trimmed@) =~= content@.subrange(k as int, j as int));
    }
    let token = content.substring_char(k, j);
    match parse_u64(token) {
        Some(value) => {
            if value <= i32::MAX as u64 {
                value as i32
            } else {
                0
            }
        },
        None => 0,
    }
}

} // verus!
