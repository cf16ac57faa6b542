//! The ways in which a command can fail, and what each tells the caller.

use crate::text::{chars_of, push_all, string_of};
use vstd::prelude::*;

verus! {

/// Why a command did not come back with a result.
#[derive(Debug)]
pub enum Failure {
    /// The process could not be started; the text says why.
    Spawn(String),
    /// The process was started and did not announce readiness in time.
    ReadinessTimeout,
    /// The process ended before it announced readiness.
    ExitedBeforeReady,
    /// No process is running to take the command.
    NotRunning,
    /// The command could not be rendered for the wire.
    Unencodable,
    /// The command could not be written to the process; the text says why.
    WriteFailed(String),
    /// The process ended while the command was in flight.
    Crashed,
    /// The waiter was given up without an answer.
    ChannelClosed,
    /// No reply came within the command's deadline.
    RequestTimeout,
    /// The adapter answered with an error of its own; the text is its
    /// message.
    Logical(String),
    /// The adapter's reply lacks what the command asked for, or holds it
    /// in a form that cannot be read; the text says what is wrong.
    BadReply(String),
}

/// The kinds into which failures fall.
#[derive(Clone, Copy, Debug, PartialEq, Eq, Structural)]
pub enum FailureKind {
    /// The process failed to start.
    SpawnError,
    /// The process never announced readiness.
    ReadinessTimeout,
    /// The connection to the process failed or the process is gone.
    TransportError,
    /// The reply did not come in time; the process may still be at work.
    RequestTimeout,
    /// The adapter reported an error.
    LogicalError,
}

/// The kind of each failure.
pub open spec fn kind_of(failure: Failure) -> FailureKind {
    match failure {
        Failure::Spawn(_) => FailureKind::SpawnError,
        Failure::ReadinessTimeout => FailureKind::ReadinessTimeout,
        Failure::ExitedBeforeReady => FailureKind::SpawnError,
        Failure::NotRunning => FailureKind::TransportError,
        Failure::Unencodable => FailureKind::TransportError,
        Failure::WriteFailed(_) => FailureKind::TransportError,
        Failure::Crashed => FailureKind::TransportError,
        Failure::ChannelClosed => FailureKind::TransportError,
        Failure::RequestTimeout => FailureKind::RequestTimeout,
        Failure::Logical(_) => FailureKind::LogicalError,
        Failure::BadReply(_) => FailureKind::LogicalError,
    }
}

/// What each failure tells the caller.
pub open spec fn message_of(failure: Failure) -> Seq<char> {
    match failure {
        Failure::Spawn(detail) => "Failed to spawn sidecar: "@ + detail@,
        Failure::ReadinessTimeout => "Sidecar failed to start within 10 seconds"@,
        Failure::ExitedBeforeReady => "Sidecar process exited before becoming ready"@,
        Failure::NotRunning => "Sidecar not running"@,
        Failure::Unencodable => "Failed to encode command"@,
        Failure::WriteFailed(detail) => "Failed to write to sidecar: "@ + detail@,
        Failure::Crashed => "Sidecar terminated unexpectedly"@,
        Failure::ChannelClosed => "Response channel dropped (sidecar may have crashed)"@,
        Failure::RequestTimeout => "Timeout waiting for sidecar response"@,
        Failure::Logical(message) => message@,
        Failure::BadReply(detail) => detail@,
    }
}

/// A text followed by a detail.
fn with_detail(lead: &str, detail: &String) -> (text: String)
    ensures
        text@ == lead@ + detail@,
{
    let mut chars = chars_of(lead);
    let more = chars_of(detail.as_str());
    push_all(&mut chars, &more);
    string_of(&chars)
}

impl Failure {
    /// The kind of the failure.
    pub fn kind(&self) -> (kind: FailureKind)
        ensures
            kind == kind_of(*self),
    {
        match self {
            Failure::Spawn(_) => FailureKind::SpawnError,
            Failure::ReadinessTimeout => FailureKind::ReadinessTimeout,
            Failure::ExitedBeforeReady => FailureKind::SpawnError,
            Failure::NotRunning => FailureKind::TransportError,
            Failure::Unencodable => FailureKind::TransportError,
            Failure::WriteFailed(_) => FailureKind::TransportError,
            Failure::Crashed => FailureKind::TransportError,
            Failure::ChannelClosed => FailureKind::TransportError,
            Failure::RequestTimeout => FailureKind::RequestTimeout,
            Failure::Logical(_) => FailureKind::LogicalError,
            Failure::BadReply(_) => FailureKind::LogicalError,
        }
    }

    /// What the failure tells the caller.
    pub fn message(&self) -> (text: String)
        ensures
            text@ == message_of(*self),
    {
        match self {
            Failure::Spawn(detail) => with_detail("Failed to spawn sidecar: ", detail),
            Failure::ReadinessTimeout => "Sidecar failed to start within 10 seconds".to_owned(),
            Failure::ExitedBeforeReady => "Sidecar process exited before becoming ready".to_owned(),
            Failure::NotRunning => "Sidecar not running".to_owned(),
            Failure::Unencodable => "Failed to encode command".to_owned(),
            Failure::WriteFailed(detail) => with_detail("Failed to write to sidecar: ", detail),
            Failure::Crashed => "Sidecar terminated unexpectedly".to_owned(),
            Failure::ChannelClosed => "Response channel dropped (sidecar may have crashed)".to_owned(),
            Failure::RequestTimeout => "Timeout waiting for sidecar response".to_owned(),
            Failure::Logical(message) => message.clone(),
            Failure::BadReply(detail) => detail.clone(),
        }
    }
}

} // verus!
