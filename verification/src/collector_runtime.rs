//! Bounded execution for fixed, application-owned collector commands: the
//! limits, and every decision the runner takes before, while and after a
//! command runs. Spawning the process, polling it and reading its pipes is
//! the caller's part; it hands each observation here and does what comes
//! back.

use vstd::prelude::*;
use crate::text::{owned, trim};
use crate::{CollectorError, CollectorErrorKind, CollectorName};

verus! {

/// Hard limits for one collector command. Times are in milliseconds.
#[derive(Debug, Clone, Copy, PartialEq, Eq)]
pub struct CollectorLimits {
    timeout_ms: u64,
    max_stdout_bytes: usize,
    max_stderr_bytes: usize,
    poll_interval_ms: u64,
}

impl CollectorLimits {
    pub closed spec fn timeout_spec(self) -> u64 {
        self.timeout_ms
    }

    pub closed spec fn max_stdout_spec(self) -> usize {
        self.max_stdout_bytes
    }

    pub closed spec fn max_stderr_spec(self) -> usize {
        self.max_stderr_bytes
    }

    pub closed spec fn poll_interval_spec(self) -> u64 {
        self.poll_interval_ms
    }

    /// Limits a command can run under: a real timeout, room for some output
    /// on both pipes, and a poll interval no longer than the timeout.
    pub open spec fn valid(self) -> bool {
        &&& self.timeout_spec() > 0
        &&& self.max_stdout_spec() > 0
        &&& self.max_stderr_spec() > 0
        &&& self.poll_interval_spec() > 0
        &&& self.poll_interval_spec() <= self.timeout_spec()
    }

    #[must_use]
    pub fn new(timeout_ms: u64, max_stdout_bytes: usize, max_stderr_bytes: usize, poll_interval_ms: u64) -> (l: Self)
        ensures
            l.timeout_spec() == timeout_ms,
            l.max_stdout_spec() == max_stdout_bytes,
            l.max_stderr_spec() == max_stderr_bytes,
            l.poll_interval_spec() == poll_interval_ms,
    {
        CollectorLimits { timeout_ms, max_stdout_bytes, max_stderr_bytes, poll_interval_ms }
    }

    /// The timeout, in milliseconds.
    #[must_use]
    pub fn timeout(self) -> (t: u64)
        ensures
            t == self.timeout_spec(),
    {
        self.timeout_ms
    }

    #[must_use]
    pub fn max_stdout_bytes(self) -> (n: usize)
        ensures
            n == self.max_stdout_spec(),
    {
        self.max_stdout_bytes
    }

    #[must_use]
    pub fn max_stderr_bytes(self) -> (n: usize)
        ensures
            n == self.max_stderr_spec(),
    {
        self.max_stderr_bytes
    }

    #[must_use]
    pub fn poll_interval_ms(self) -> (t: u64)
        ensures
            t == self.poll_interval_spec(),
    {
        self.poll_interval_ms
    }

    #[must_use]
    pub fn is_valid(self) -> (r: bool)
        ensures
            r == self.valid(),
    {
        self.timeout_ms > 0 && self.max_stdout_bytes > 0 && self.max_stderr_bytes > 0
            && self.poll_interval_ms > 0 && self.poll_interval_ms <= self.timeout_ms
    }
}

impl Default for CollectorLimits {
    /// Fifteen seconds, 256 KiB of stdout, 64 KiB of stderr, polled every
    /// 10 ms.
    fn default() -> (l: Self)
        ensures
            l.timeout_spec() == 15000,
            l.max_stdout_spec() == 262144,
            l.max_stderr_spec() == 65536,
            l.poll_interval_spec() == 10,
    {
        CollectorLimits::new(15000, 262144, 65536, 10)
    }
}

/// A compile-time PowerShell script that ships inside the application.
/// Never built from frontend, server, file, environment or network input.
#[derive(Clone, Copy)]
pub struct TrustedPowerShellScript(&'static str);

impl TrustedPowerShellScript {
    pub closed spec fn text(self) -> Seq<char> {
        self.0@
    }

    #[must_use]
    pub fn application_owned(script: &'static str) -> (s: Self)
        ensures
            s.text() == script@,
    {
        TrustedPowerShellScript(script)
    }

    #[must_use]
    pub fn as_str(self) -> (s: &'static str)
        ensures
            s@ == self.text(),
    {
        self.0
    }

    /// A script that is more than white space.
    #[must_use]
    pub fn is_configured(self) -> (r: bool)
        ensures
            r == (trim(self.text()).len() > 0),
    {
        let t = crate::text::trim_vec(&crate::text::chars_of(self.0));
        t.len() > 0
    }
}

/// Successful command output. Stderr is deliberately not kept, so routine
/// callers cannot log firmware strings or identifiers from it.
pub struct CommandOutput {
    stdout: Vec<u8>,
}

impl CommandOutput {
    pub closed spec fn bytes(&self) -> Seq<u8> {
        self.stdout@
    }

    #[must_use]
    pub fn stdout(&self) -> (s: &[u8])
        ensures
            s@ == self.bytes(),
    {
        self.stdout.as_slice()
    }
}

pub open spec fn error_is(e: CollectorError, collector: CollectorName, kind: CollectorErrorKind, message: Seq<char>) -> bool {
    e.collector == collector && e.kind == kind && e.safe_message@ == message
}

pub open spec fn refused_with(r: Option<CollectorError>, collector: CollectorName, kind: CollectorErrorKind, message: Seq<char>) -> bool {
    r matches Some(e) && error_is(e, collector, kind, message)
}

pub open spec fn stops_with(a: PollAction, collector: CollectorName, kind: CollectorErrorKind, message: Seq<char>) -> bool {
    a matches PollAction::Stop(e) && error_is(e, collector, kind, message)
}

pub open spec fn fails_with(
    r: Result<CommandOutput, CollectorError>,
    collector: CollectorName,
    kind: CollectorErrorKind,
    message: Seq<char>,
) -> bool {
    r matches Err(e) && error_is(e, collector, kind, message)
}

/// A typed collector failure with a customer-safe message.
pub fn collector_error(collector: CollectorName, kind: CollectorErrorKind, safe_message: &'static str) -> (e: CollectorError)
    ensures
        error_is(e, collector, kind, safe_message@),
{
    CollectorError { collector, kind, safe_message: owned(safe_message) }
}

/// Why a fixed PowerShell collector cannot start: off Windows, or with an
/// empty script. `None` when it may run.
pub fn script_refusal(collector: CollectorName, on_windows: bool, script: TrustedPowerShellScript) -> (r: Option<CollectorError>)
    ensures
        !on_windows ==> refused_with(
            r,
            collector,
            CollectorErrorKind::Unsupported,
            "The Windows collector command is unavailable on this operating system."@,
        ),
        on_windows && trim(script.text()).len() == 0 ==> refused_with(
            r,
            collector,
            CollectorErrorKind::Internal,
            "The collector command is not configured."@,
        ),
        on_windows && trim(script.text()).len() > 0 ==> r is None,
{
    if !on_windows {
        return Some(
            collector_error(
                collector,
                CollectorErrorKind::Unsupported,
                "The Windows collector command is unavailable on this operating system.",
            ),
        );
    }
    if !script.is_configured() {
        return Some(collector_error(collector, CollectorErrorKind::Internal, "The collector command is not configured."));
    }
    None
}

/// Whether a command may be spawned: valid limits and no cancellation yet.
/// Cancellation is honoured before any process exists.
pub fn before_spawn(collector: CollectorName, limits: CollectorLimits, cancelled: bool) -> (r: Option<CollectorError>)
    ensures
        !limits.valid() ==> refused_with(
            r,
            collector,
            CollectorErrorKind::Internal,
            "The collector execution limits are invalid."@,
        ),
        limits.valid() && cancelled ==> refused_with(
            r,
            collector,
            CollectorErrorKind::Cancelled,
            "The collector was cancelled before execution."@,
        ),
        limits.valid() && !cancelled ==> r is None,
{
    if !limits.is_valid() {
        return Some(collector_error(collector, CollectorErrorKind::Internal, "The collector execution limits are invalid."));
    }
    if cancelled {
        return Some(collector_error(collector, CollectorErrorKind::Cancelled, "The collector was cancelled before execution."));
    }
    None
}

/// A failure while starting the command.
#[derive(Debug, Clone, Copy, PartialEq, Eq, Structural)]
pub enum LaunchFailure {
    SpawnFailed,
    StdoutUnavailable,
    StderrUnavailable,
}

/// The error for a command that could not be started.
pub fn launch_error(collector: CollectorName, failure: LaunchFailure) -> (e: CollectorError)
    ensures
        failure == LaunchFailure::SpawnFailed ==> error_is(
            e,
            collector,
            CollectorErrorKind::CommandFailed,
            "The collector command could not be started."@,
        ),
        failure == LaunchFailure::StdoutUnavailable ==> error_is(
            e,
            collector,
            CollectorErrorKind::Internal,
            "The collector stdout pipe was unavailable."@,
        ),
        failure == LaunchFailure::StderrUnavailable ==> error_is(
            e,
            collector,
            CollectorErrorKind::Internal,
            "The collector stderr pipe was unavailable."@,
        ),
{
    match failure {
        LaunchFailure::SpawnFailed => collector_error(
            collector,
            CollectorErrorKind::CommandFailed,
            "The collector command could not be started.",
        ),
        LaunchFailure::StdoutUnavailable => collector_error(
            collector,
            CollectorErrorKind::Internal,
            "The collector stdout pipe was unavailable.",
        ),
        LaunchFailure::StderrUnavailable => collector_error(
            collector,
            CollectorErrorKind::Internal,
            "The collector stderr pipe was unavailable.",
        ),
    }
}

/// What a poll of the running process saw.
#[derive(Debug, Clone, Copy, PartialEq, Eq, Structural)]
pub enum ChildState {
    Running,
    Exited,
    Unreadable,
}

/// What the runner does after a poll.
#[derive(Debug, Clone, PartialEq, Eq)]
pub enum PollAction {
    /// Sleep for the poll interval and poll again.
    Wait,
    /// The process exited: join the readers and judge the result.
    Collect,
    /// Kill the process, join the readers, and fail with this error.
    Stop(CollectorError),
}

/// One poll's decision. Cancellation comes first, then the output limit,
/// then the timeout, and only then the process state.
pub fn poll_step(
    collector: CollectorName,
    limits: CollectorLimits,
    cancelled: bool,
    output_exceeded: bool,
    elapsed_ms: u64,
    child: ChildState,
) -> (a: PollAction)
    ensures
        cancelled ==> stops_with(
            a,
            collector,
            CollectorErrorKind::Cancelled,
            "The collector was cancelled."@,
        ),
        !cancelled && output_exceeded ==> stops_with(
            a,
            collector,
            CollectorErrorKind::OutputLimitExceeded,
            "The collector exceeded its output limit."@,
        ),
        !cancelled && !output_exceeded && elapsed_ms >= limits.timeout_spec() ==> stops_with(a, collector, CollectorErrorKind::TimedOut, "The collector exceeded its execution timeout."@),
        !cancelled && !output_exceeded && elapsed_ms < limits.timeout_spec() ==> match child {
            ChildState::Running => a == PollAction::Wait,
            ChildState::Exited => a == PollAction::Collect,
            ChildState::Unreadable => stops_with(
                a,
                collector,
                CollectorErrorKind::Internal,
                "The collector process status could not be read."@,
            ),
        },
{
    if cancelled {
        return PollAction::Stop(collector_error(collector, CollectorErrorKind::Cancelled, "The collector was cancelled."));
    }
    if output_exceeded {
        return PollAction::Stop(
            collector_error(collector, CollectorErrorKind::OutputLimitExceeded, "The collector exceeded its output limit."),
        );
    }
    if elapsed_ms >= limits.timeout() {
        return PollAction::Stop(
            collector_error(collector, CollectorErrorKind::TimedOut, "The collector exceeded its execution timeout."),
        );
    }
    match child {
        ChildState::Running => PollAction::Wait,
        ChildState::Exited => PollAction::Collect,
        ChildState::Unreadable => PollAction::Stop(
            collector_error(collector, CollectorErrorKind::Internal, "The collector process status could not be read."),
        ),
    }
}

/// The result of a command that exited: its stdout when both pipes were
/// read, nothing was cut off or is longer than `limits` allows, and the
/// process succeeded; else why not.
pub fn after_exit(
    collector: CollectorName,
    limits: CollectorLimits,
    stdout: Option<Vec<u8>>,
    stderr_read: bool,
    output_exceeded: bool,
    succeeded: bool,
) -> (r: Result<CommandOutput, CollectorError>)
    ensures
        stdout is None ==> fails_with(
            r,
            collector,
            CollectorErrorKind::Internal,
            "The collector stdout could not be read."@,
        ),
        stdout is Some && !stderr_read ==> fails_with(
            r,
            collector,
            CollectorErrorKind::Internal,
            "The collector stderr could not be read."@,
        ),
        stdout is Some && stderr_read && (output_exceeded || stdout.unwrap()@.len() > limits.max_stdout_spec())
            ==> fails_with(
            r,
            collector,
            CollectorErrorKind::OutputLimitExceeded,
            "The collector exceeded its output limit."@,
        ),
        stdout is Some && stderr_read && !output_exceeded && stdout.unwrap()@.len() <= limits.max_stdout_spec()
            && !succeeded ==> fails_with(
            r,
            collector,
            CollectorErrorKind::CommandFailed,
            "The collector command returned an unsuccessful status."@,
        ),
        stdout is Some && stderr_read && !output_exceeded && stdout.unwrap()@.len() <= limits.max_stdout_spec()
            && succeeded ==> (r matches Ok(out) && out.bytes() == stdout.unwrap()@),
        r matches Ok(out) ==> out.bytes().len() <= limits.max_stdout_spec() && succeeded,
{
    let bytes = match stdout {
        Some(b) => b,
        None => {
            return Err(collector_error(collector, CollectorErrorKind::Internal, "The collector stdout could not be read."));
        },
    };
    if !stderr_read {
        return Err(collector_error(collector, CollectorErrorKind::Internal, "The collector stderr could not be read."));
    }
    if output_exceeded || bytes.len() > limits.max_stdout_bytes() {
        return Err(
            collector_error(collector, CollectorErrorKind::OutputLimitExceeded, "The collector exceeded its output limit."),
        );
    }
    if !succeeded {
        return Err(
            collector_error(
                collector,
                CollectorErrorKind::CommandFailed,
                "The collector command returned an unsuccessful status.",
            ),
        );
    }
    Ok(CommandOutput { stdout: bytes })
}

// ---- bounded pipe reading ----

/// How much of a chunk of `chunk_len` bytes fits after `kept` bytes under
/// `limit`.
pub open spec fn fits(kept: nat, chunk_len: nat, limit: nat) -> nat {
    let remaining: nat = if limit >= kept {
        (limit - kept) as nat
    } else {
        0
    };
    if remaining < chunk_len {
        remaining
    } else {
        chunk_len
    }
}

/// Appends what fits of `chunk` under `limit`; true when some of it did
/// not fit.
pub fn keep_within(output: &mut Vec<u8>, chunk: &[u8], limit: usize) -> (cut: bool)
    ensures
        final(output)@ == old(output)@ + chunk@.take(fits(old(output)@.len(), chunk@.len(), limit as nat) as int),
        cut == (fits(old(output)@.len(), chunk@.len(), limit as nat) < chunk@.len()),
        old(output)@.len() <= limit ==> final(output)@.len() <= limit,
{
    let remaining: usize = if limit >= output.len() {
        limit - output.len()
    } else {
        0
    };
    let keep: usize = if remaining < chunk.len() {
        remaining
    } else {
        chunk.len()
    };
    let ghost before = output@;
    let mut i: usize = 0;
    while i < keep
        invariant
            i <= keep,
            keep <= chunk@.len(),
            output@ == before + chunk@.take(i as int),
        decreases keep - i,
    {
        output.push(chunk[i]);
        i += 1;
        assert(output@ =~= before + chunk@.take(i as int));
    }
    keep < chunk.len()
}

/// All chunks read from a pipe, end to end.
pub open spec fn concat_all(chunks: Seq<Seq<u8>>) -> Seq<u8>
    decreases chunks.len(),
{
    if chunks.len() == 0 {
        Seq::empty()
    } else {
        concat_all(chunks.drop_last()) + chunks.last()
    }
}

/// What a bounded reader has kept after reading `chunks`, one at a time.
pub open spec fn kept_after(chunks: Seq<Seq<u8>>, limit: nat) -> Seq<u8>
    decreases chunks.len(),
{
    if chunks.len() == 0 {
        Seq::empty()
    } else {
        let prev = kept_after(chunks.drop_last(), limit);
        prev + chunks.last().take(fits(prev.len(), chunks.last().len(), limit) as int)
    }
}

/// Whether a bounded reader has cut off any chunk while reading `chunks`.
pub open spec fn cut_after(chunks: Seq<Seq<u8>>, limit: nat) -> bool
    decreases chunks.len(),
{
    if chunks.len() == 0 {
        false
    } else {
        let prev = kept_after(chunks.drop_last(), limit);
        cut_after(chunks.drop_last(), limit) || fits(prev.len(), chunks.last().len(), limit)
            < chunks.last().len()
    }
}

/// However a pipe's output is split into reads, a bounded reader keeps
/// exactly its first `limit` bytes (all of it when shorter), and reports a
/// cut exactly when the output was longer than `limit`.
pub proof fn bounded_reader_keeps_the_prefix(chunks: Seq<Seq<u8>>, limit: nat)
    ensures
        kept_after(chunks, limit) == concat_all(chunks).take(
            if concat_all(chunks).len() < limit {
                concat_all(chunks).len() as int
            } else {
                limit as int
            },
        ),
        cut_after(chunks, limit) == (concat_all(chunks).len() > limit),
    decreases chunks.len(),
{
    if chunks.len() > 0 {
        let rest = chunks.drop_last();
        let c = chunks.last();
        bounded_reader_keeps_the_prefix(rest, limit);
        let p = concat_all(rest);
        let k = kept_after(rest, limit);
        let n = fits(k.len(), c.len(), limit);
        if p.len() >= limit {
            assert(k.len() == limit);
            assert(n == 0);
            assert(c.take(0) =~= Seq::<u8>::empty());
            assert(k + c.take(0) =~= (p + c).take(limit as int));
        } else {
            assert(k =~= p);
            assert(k + c.take(n as int) =~= (p + c).take((p.len() + n) as int));
        }
    }
}

} // verus!
