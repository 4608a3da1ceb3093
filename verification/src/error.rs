//! What can go wrong while one hostname is reconciled.

use vstd::prelude::*;
use crate::util::IP;

verus! {

/// How a request to the DNS provider failed, as the transport saw it.
#[derive(Debug, Clone, Copy, PartialEq, Eq, Structural)]
pub enum Failure {
    /// The request did not complete, or its answer could not be read.
    Network,
    /// The provider answered and reported failure.
    Api,
}

/// The broad kind of an [`Error`].
#[derive(Debug, Clone, Copy, PartialEq, Eq, Structural)]
pub enum ErrorKind {
    Network,
    Api,
    Protocol,
}

/// A failure that ends the reconciliation of one hostname.
#[derive(Debug, PartialEq, Eq)]
pub enum Error {
    /// The echo service for this family could not be connected to: the host
    /// most likely has no connectivity over this family.
    Connect { version: IP },
    /// The request to the echo service failed in another way, or its answer
    /// could not be read.
    Transport { version: IP },
    /// An answer carried a status outside the successful range.
    Status { url: String, status: u16 },
    /// As `Status`, with a message of the caller's.
    StatusWith { msg: String, url: String, status: u16 },
    /// An answer carried another status than the expected one.
    StatusCode { url: String, status: u16, expected: u16 },
    /// The echo service's answer holds no line that begins with `ip=`.
    MissingIp { url: String, body: String },
    /// The zone's details could not be had.
    ZoneDetails { zone_id: String, failure: Failure },
    /// The records under a name could not be listed.
    ListRecords { zone_id: String, name: String, failure: Failure },
    /// A record could not be updated.
    UpdateRecord { version: IP, name: String, failure: Failure },
    /// A record could not be created.
    CreateRecord { version: IP, name: String, failure: Failure },
    /// The answer handed in is not an answer to the request that was asked.
    UnexpectedReply,
}

/// The mathematical value of an [`Error`].
pub ghost enum ErrorView {
    Connect { version: IP },
    Transport { version: IP },
    Status { url: Seq<char>, status: u16 },
    StatusWith { msg: Seq<char>, url: Seq<char>, status: u16 },
    StatusCode { url: Seq<char>, status: u16, expected: u16 },
    MissingIp { url: Seq<char>, body: Seq<char> },
    ZoneDetails { zone_id: Seq<char>, failure: Failure },
    ListRecords { zone_id: Seq<char>, name: Seq<char>, failure: Failure },
    UpdateRecord { version: IP, name: Seq<char>, failure: Failure },
    CreateRecord { version: IP, name: Seq<char>, failure: Failure },
    UnexpectedReply,
}

impl View for Error {
    type V = ErrorView;

    open spec fn view(&self) -> ErrorView {
        match *self {
            Error::Connect { version } => ErrorView::Connect { version },
            Error::Transport { version } => ErrorView::Transport { version },
            Error::Status { url, status } => ErrorView::Status { url: url@, status },
            Error::StatusWith { msg, url, status } => ErrorView::StatusWith {
                msg: msg@,
                url: url@,
                status,
            },
            Error::StatusCode { url, status, expected } => ErrorView::StatusCode {
                url: url@,
                status,
                expected,
            },
            Error::MissingIp { url, body } => ErrorView::MissingIp { url: url@, body: body@ },
            Error::ZoneDetails { zone_id, failure } => ErrorView::ZoneDetails {
                zone_id: zone_id@,
                failure,
            },
            Error::ListRecords { zone_id, name, failure } => ErrorView::ListRecords {
                zone_id: zone_id@,
                name: name@,
                failure,
            },
            Error::UpdateRecord { version, name, failure } => ErrorView::UpdateRecord {
                version,
                name: name@,
                failure,
            },
            Error::CreateRecord { version, name, failure } => ErrorView::CreateRecord {
                version,
                name: name@,
                failure,
            },
            Error::UnexpectedReply => ErrorView::UnexpectedReply,
        }
    }
}

impl ErrorView {
    /// The broad kind of this error.
    pub open spec fn kind(self) -> ErrorKind {
        match self {
            ErrorView::Connect { .. }
            | ErrorView::Transport { .. }
            | ErrorView::Status { .. }
            | ErrorView::StatusWith { .. }
            | ErrorView::StatusCode { .. } => ErrorKind::Network,
            ErrorView::MissingIp { .. } | ErrorView::UnexpectedReply => ErrorKind::Protocol,
            ErrorView::ZoneDetails { failure, .. }
            | ErrorView::ListRecords { failure, .. }
            | ErrorView::UpdateRecord { failure, .. }
            | ErrorView::CreateRecord { failure, .. } => match failure {
                Failure::Network => ErrorKind::Network,
                Failure::Api => ErrorKind::Api,
            },
        }
    }
}

impl Error {
    /// The broad kind of this error.
    pub fn kind(&self) -> (k: ErrorKind)
        ensures
            k == self@.kind(),
    {
        match self {
            Error::Connect { .. }
            | Error::Transport { .. }
            | Error::Status { .. }
            | Error::StatusWith { .. }
            | Error::StatusCode { .. } => ErrorKind::Network,
            Error::MissingIp { .. } | Error::UnexpectedReply => ErrorKind::Protocol,
            Error::ZoneDetails { failure, .. }
            | Error::ListRecords { failure, .. }
            | Error::UpdateRecord { failure, .. }
            | Error::CreateRecord { failure, .. } => match failure {
                Failure::Network => ErrorKind::Network,
                Failure::Api => ErrorKind::Api,
            },
        }
    }
}

} // verus!
