//! How each Advance scan probe is run, and what it says when it could
//! not run: the limits for its script, and the reason printed for each way
//! a run can fail.

use vstd::prelude::*;
use crate::collector_runtime::CollectorLimits;
use crate::CollectorErrorKind;

verus! {

/// The reason for a failed run, from the probe's seven phrases: unreadable
/// output (no error kind), then unsupported, refused, timed out, cancelled,
/// too much output, and any other failure.
pub open spec fn reason_for(kind: Option<CollectorErrorKind>, words: Seq<Seq<char>>) -> Seq<char> {
    match kind {
        None => words[0],
        Some(CollectorErrorKind::Unsupported) => words[1],
        Some(CollectorErrorKind::PermissionDenied) => words[2],
        Some(CollectorErrorKind::TimedOut) => words[3],
        Some(CollectorErrorKind::Cancelled) => words[4],
        Some(CollectorErrorKind::OutputLimitExceeded) => words[5],
        Some(_) => words[6],
    }
}

pub open spec fn battery_words() -> Seq<Seq<char>> {
    seq![
        "The battery probe returned unreadable output."@,
        "Battery collection is only available on Windows."@,
        "Windows refused the battery probe on this account."@,
        "The battery probe exceeded its time limit."@,
        "The battery probe was cancelled."@,
        "The battery probe returned more data than allowed."@,
        "The battery probe could not be completed on this PC."@,
    ]
}

/// Why the battery probe could not run; `None` when its output
/// was not readable text.
pub fn battery_failure(kind: Option<CollectorErrorKind>) -> (r: &'static str)
    ensures
        r@ == reason_for(kind, battery_words()),
{
    match kind {
        None => "The battery probe returned unreadable output.",
        Some(CollectorErrorKind::Unsupported) => "Battery collection is only available on Windows.",
        Some(CollectorErrorKind::PermissionDenied) => "Windows refused the battery probe on this account.",
        Some(CollectorErrorKind::TimedOut) => "The battery probe exceeded its time limit.",
        Some(CollectorErrorKind::Cancelled) => "The battery probe was cancelled.",
        Some(CollectorErrorKind::OutputLimitExceeded) => "The battery probe returned more data than allowed.",
        Some(_) => "The battery probe could not be completed on this PC.",
    }
}

/// The limits for the battery probe's script.
pub fn battery_limits() -> (l: CollectorLimits)
    ensures
        l.timeout_spec() == 45000,
        l.max_stdout_spec() == 65536,
        l.max_stderr_spec() == 16384,
        l.poll_interval_spec() == 10,
        l.valid(),
{
    CollectorLimits::new(45000, 65536, 16384, 10)
}

pub open spec fn identity_words() -> Seq<Seq<char>> {
    seq![
        "The processor and memory identity probe returned unreadable output."@,
        "Processor and memory identity collection is only available on Windows."@,
        "Windows refused the processor and memory query on this account."@,
        "The processor and memory identity probe exceeded its time limit."@,
        "The processor and memory identity probe was cancelled."@,
        "The processor and memory identity probe returned more data than allowed."@,
        "The processor and memory identity probe could not be completed on this PC."@,
    ]
}

/// Why the identity probe could not run; `None` when its output
/// was not readable text.
pub fn identity_failure(kind: Option<CollectorErrorKind>) -> (r: &'static str)
    ensures
        r@ == reason_for(kind, identity_words()),
{
    match kind {
        None => "The processor and memory identity probe returned unreadable output.",
        Some(CollectorErrorKind::Unsupported) => "Processor and memory identity collection is only available on Windows.",
        Some(CollectorErrorKind::PermissionDenied) => "Windows refused the processor and memory query on this account.",
        Some(CollectorErrorKind::TimedOut) => "The processor and memory identity probe exceeded its time limit.",
        Some(CollectorErrorKind::Cancelled) => "The processor and memory identity probe was cancelled.",
        Some(CollectorErrorKind::OutputLimitExceeded) => "The processor and memory identity probe returned more data than allowed.",
        Some(_) => "The processor and memory identity probe could not be completed on this PC.",
    }
}

/// The limits for the identity probe's script.
pub fn identity_limits() -> (l: CollectorLimits)
    ensures
        l.timeout_spec() == 30000,
        l.max_stdout_spec() == 32768,
        l.max_stderr_spec() == 8192,
        l.poll_interval_spec() == 10,
        l.valid(),
{
    CollectorLimits::new(30000, 32768, 8192, 10)
}

pub open spec fn storage_words() -> Seq<Seq<char>> {
    seq![
        "The storage probe returned unreadable output."@,
        "Storage SMART collection is only available on Windows."@,
        "Windows refused the storage health query on this account."@,
        "The storage health probe exceeded its time limit."@,
        "The storage health probe was cancelled."@,
        "The storage health probe returned more data than allowed."@,
        "The storage health probe could not be completed on this PC."@,
    ]
}

/// Why the storage probe could not run; `None` when its output
/// was not readable text.
pub fn storage_failure(kind: Option<CollectorErrorKind>) -> (r: &'static str)
    ensures
        r@ == reason_for(kind, storage_words()),
{
    match kind {
        None => "The storage probe returned unreadable output.",
        Some(CollectorErrorKind::Unsupported) => "Storage SMART collection is only available on Windows.",
        Some(CollectorErrorKind::PermissionDenied) => "Windows refused the storage health query on this account.",
        Some(CollectorErrorKind::TimedOut) => "The storage health probe exceeded its time limit.",
        Some(CollectorErrorKind::Cancelled) => "The storage health probe was cancelled.",
        Some(CollectorErrorKind::OutputLimitExceeded) => "The storage health probe returned more data than allowed.",
        Some(_) => "The storage health probe could not be completed on this PC.",
    }
}

/// The limits for the storage probe's script.
pub fn storage_limits() -> (l: CollectorLimits)
    ensures
        l.timeout_spec() == 45000,
        l.max_stdout_spec() == 98304,
        l.max_stderr_spec() == 16384,
        l.poll_interval_spec() == 10,
        l.valid(),
{
    CollectorLimits::new(45000, 98304, 16384, 10)
}

pub open spec fn usb_words() -> Seq<Seq<char>> {
    seq![
        "The USB probe returned unreadable output."@,
        "USB topology collection is only available on Windows."@,
        "Windows refused the USB topology query on this account."@,
        "The USB topology probe exceeded its time limit."@,
        "The USB topology probe was cancelled."@,
        "The USB topology probe returned more data than allowed."@,
        "The USB topology probe could not be completed on this PC."@,
    ]
}

/// Why the usb probe could not run; `None` when its output
/// was not readable text.
pub fn usb_failure(kind: Option<CollectorErrorKind>) -> (r: &'static str)
    ensures
        r@ == reason_for(kind, usb_words()),
{
    match kind {
        None => "The USB probe returned unreadable output.",
        Some(CollectorErrorKind::Unsupported) => "USB topology collection is only available on Windows.",
        Some(CollectorErrorKind::PermissionDenied) => "Windows refused the USB topology query on this account.",
        Some(CollectorErrorKind::TimedOut) => "The USB topology probe exceeded its time limit.",
        Some(CollectorErrorKind::Cancelled) => "The USB topology probe was cancelled.",
        Some(CollectorErrorKind::OutputLimitExceeded) => "The USB topology probe returned more data than allowed.",
        Some(_) => "The USB topology probe could not be completed on this PC.",
    }
}

/// The limits for the usb probe's script.
pub fn usb_limits() -> (l: CollectorLimits)
    ensures
        l.timeout_spec() == 45000,
        l.max_stdout_spec() == 65536,
        l.max_stderr_spec() == 16384,
        l.poll_interval_spec() == 10,
        l.valid(),
{
    CollectorLimits::new(45000, 65536, 16384, 10)
}

pub open spec fn display_radio_words() -> Seq<Seq<char>> {
    seq![
        "The display and radio probe returned unreadable output."@,
        "Display and radio collection is only available on Windows."@,
        "Windows refused the display and radio query on this account."@,
        "The display and radio probe exceeded its time limit."@,
        "The display and radio probe was cancelled."@,
        "The display and radio probe returned more data than allowed."@,
        "The display and radio probe could not be completed on this PC."@,
    ]
}

/// Why the display radio probe could not run; `None` when its output
/// was not readable text.
pub fn display_radio_failure(kind: Option<CollectorErrorKind>) -> (r: &'static str)
    ensures
        r@ == reason_for(kind, display_radio_words()),
{
    match kind {
        None => "The display and radio probe returned unreadable output.",
        Some(CollectorErrorKind::Unsupported) => "Display and radio collection is only available on Windows.",
        Some(CollectorErrorKind::PermissionDenied) => "Windows refused the display and radio query on this account.",
        Some(CollectorErrorKind::TimedOut) => "The display and radio probe exceeded its time limit.",
        Some(CollectorErrorKind::Cancelled) => "The display and radio probe was cancelled.",
        Some(CollectorErrorKind::OutputLimitExceeded) => "The display and radio probe returned more data than allowed.",
        Some(_) => "The display and radio probe could not be completed on this PC.",
    }
}

/// The limits for the display radio probe's script.
pub fn display_radio_limits() -> (l: CollectorLimits)
    ensures
        l.timeout_spec() == 45000,
        l.max_stdout_spec() == 65536,
        l.max_stderr_spec() == 16384,
        l.poll_interval_spec() == 10,
        l.valid(),
{
    CollectorLimits::new(45000, 65536, 16384, 10)
}

pub open spec fn capture_words() -> Seq<Seq<char>> {
    seq![
        "The capture probe returned unreadable output."@,
        "Camera and microphone collection is only available on Windows."@,
        "Windows refused the camera and microphone query on this account."@,
        "The camera and microphone probe exceeded its time limit."@,
        "The camera and microphone probe was cancelled."@,
        "The camera and microphone probe returned more data than allowed."@,
        "The camera and microphone probe could not be completed on this PC."@,
    ]
}

/// Why the capture probe could not run; `None` when its output
/// was not readable text.
pub fn capture_failure(kind: Option<CollectorErrorKind>) -> (r: &'static str)
    ensures
        r@ == reason_for(kind, capture_words()),
{
    match kind {
        None => "The capture probe returned unreadable output.",
        Some(CollectorErrorKind::Unsupported) => "Camera and microphone collection is only available on Windows.",
        Some(CollectorErrorKind::PermissionDenied) => "Windows refused the camera and microphone query on this account.",
        Some(CollectorErrorKind::TimedOut) => "The camera and microphone probe exceeded its time limit.",
        Some(CollectorErrorKind::Cancelled) => "The camera and microphone probe was cancelled.",
        Some(CollectorErrorKind::OutputLimitExceeded) => "The camera and microphone probe returned more data than allowed.",
        Some(_) => "The camera and microphone probe could not be completed on this PC.",
    }
}

/// The limits for the capture probe's script.
pub fn capture_limits() -> (l: CollectorLimits)
    ensures
        l.timeout_spec() == 45000,
        l.max_stdout_spec() == 65536,
        l.max_stderr_spec() == 16384,
        l.poll_interval_spec() == 10,
        l.valid(),
{
    CollectorLimits::new(45000, 65536, 16384, 10)
}

} // verus!
