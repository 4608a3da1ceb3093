//! The provider's records as this library sees them, the requests that it
//! asks the caller to make, and the answers that the caller hands back.

use vstd::prelude::*;
use crate::error::{Error, ErrorView, Failure};
use crate::util::{Fetched, FetchedView, IP};

verus! {

/// The type of a record, as far as it matters here.
#[derive(Debug, Clone, Copy, PartialEq, Eq, Structural)]
pub enum RecordType {
    /// An IPv4 address record.
    A,
    /// An IPv6 address record.
    AAAA,
    /// Any other record.
    Other,
}

/// The record type that holds addresses of a family.
pub open spec fn record_type(version: IP) -> RecordType {
    match version {
        IP::V4 => RecordType::A,
        IP::V6 => RecordType::AAAA,
    }
}

/// A record as the provider reported it.
#[derive(Debug, PartialEq, Eq)]
pub struct DnsRecord {
    /// The provider's identifier of the record.
    pub id: String,
    /// The record's type.
    pub kind: RecordType,
    /// The address that the record holds, as text.
    pub content: String,
    /// Whether the record is proxied.
    pub proxied: bool,
    /// Time to live in seconds; 1 means automatic.
    pub ttl: u32,
}

/// The mathematical value of a [`DnsRecord`].
pub ghost struct RecordView {
    pub id: Seq<char>,
    pub kind: RecordType,
    pub content: Seq<char>,
    pub proxied: bool,
    pub ttl: u32,
}

impl View for DnsRecord {
    type V = RecordView;

    open spec fn view(&self) -> RecordView {
        RecordView {
            id: self.id@,
            kind: self.kind,
            content: self.content@,
            proxied: self.proxied,
            ttl: self.ttl,
        }
    }
}

/// The values of some records, in their order.
pub open spec fn records_view(records: Seq<DnsRecord>) -> Seq<RecordView> {
    Seq::new(records.len(), |i: int| records[i]@)
}

/// What became of one address family of a hostname.
#[derive(Debug, Clone, Copy, PartialEq, Eq, Structural)]
pub enum Outcome {
    /// The family is not asked for.
    Skipped,
    /// The record was as wanted already.
    Unchanged,
    /// The record was changed.
    Updated,
    /// A record was made.
    Created,
}

/// What became of a hostname, family by family.
#[derive(Debug, Clone, Copy, PartialEq, Eq, Structural)]
pub struct Outcomes {
    pub a: Outcome,
    pub aaaa: Outcome,
}

impl Outcomes {
    /// The outcome of a family.
    pub open spec fn of(self, version: IP) -> Outcome {
        match version {
            IP::V4 => self.a,
            IP::V6 => self.aaaa,
        }
    }

    /// These outcomes with that of one family replaced.
    pub open spec fn with(self, version: IP, outcome: Outcome) -> Outcomes {
        match version {
            IP::V4 => Outcomes { a: outcome, aaaa: self.aaaa },
            IP::V6 => Outcomes { a: self.a, aaaa: outcome },
        }
    }
}

/// A request that the caller is asked to make.
#[derive(Debug, PartialEq, Eq)]
pub enum Request {
    /// Ask the provider for the base domain of a zone.
    ZoneDetails { zone_id: String },
    /// Ask the provider for the records under a name, of every type.
    ListRecords { zone_id: String, name: String, per_page: u32 },
    /// Ask the echo service of a family for the public address.
    PublicIp { version: IP },
    /// Ask the provider to make an address record.
    CreateRecord { zone_id: String, name: String, version: IP, content: String, proxied: bool, ttl: u32 },
    /// Ask the provider to replace name, address, proxy flag and time to live
    /// of a record.
    UpdateRecord {
        zone_id: String,
        record_id: String,
        name: String,
        version: IP,
        content: String,
        proxied: bool,
        ttl: u32,
    },
}

/// The mathematical value of a [`Request`].
pub ghost enum RequestView {
    ZoneDetails { zone_id: Seq<char> },
    ListRecords { zone_id: Seq<char>, name: Seq<char>, per_page: u32 },
    PublicIp { version: IP },
    CreateRecord {
        zone_id: Seq<char>,
        name: Seq<char>,
        version: IP,
        content: Seq<char>,
        proxied: bool,
        ttl: u32,
    },
    UpdateRecord {
        zone_id: Seq<char>,
        record_id: Seq<char>,
        name: Seq<char>,
        version: IP,
        content: Seq<char>,
        proxied: bool,
        ttl: u32,
    },
}

impl RequestView {
    /// Whether this request makes or changes the record of a family.
    pub open spec fn writes_family(self, family: IP) -> bool {
        match self {
            RequestView::CreateRecord { version, .. } => version == family,
            RequestView::UpdateRecord { version, .. } => version == family,
            _ => false,
        }
    }
}

impl View for Request {
    type V = RequestView;

    open spec fn view(&self) -> RequestView {
        match *self {
            Request::ZoneDetails { zone_id } => RequestView::ZoneDetails { zone_id: zone_id@ },
            Request::ListRecords { zone_id, name, per_page } => RequestView::ListRecords {
                zone_id: zone_id@,
                name: name@,
                per_page,
            },
            Request::PublicIp { version } => RequestView::PublicIp { version },
            Request::CreateRecord {
                zone_id,
                name,
                version,
                content,
                proxied,
                ttl,
            } => RequestView::CreateRecord {
                zone_id: zone_id@,
                name: name@,
                version,
                content: content@,
                proxied,
                ttl,
            },
            Request::UpdateRecord {
                zone_id,
                record_id,
                name,
                version,
                content,
                proxied,
                ttl,
            } => RequestView::UpdateRecord {
                zone_id: zone_id@,
                record_id: record_id@,
                name: name@,
                version,
                content: content@,
                proxied,
                ttl,
            },
        }
    }
}

/// Where the reconciliation of a hostname stands after a step.
#[derive(Debug, PartialEq, Eq)]
pub enum Progress {
    /// The caller is to make this request and hand back its answer.
    Ask(Request),
    /// The hostname is reconciled.
    Done(Outcomes),
    /// The reconciliation of this hostname has failed.
    Failed(Error),
}

/// The mathematical value of a [`Progress`].
pub ghost enum ProgressView {
    Ask(RequestView),
    Done(Outcomes),
    Failed(ErrorView),
}

impl View for Progress {
    type V = ProgressView;

    open spec fn view(&self) -> ProgressView {
        match *self {
            Progress::Ask(request) => ProgressView::Ask(request@),
            Progress::Done(outcomes) => ProgressView::Done(outcomes),
            Progress::Failed(error) => ProgressView::Failed(error@),
        }
    }
}

/// The answer to a request.
#[derive(Debug, PartialEq, Eq)]
pub enum Reply {
    /// The base domain of the zone that was asked for.
    ZoneName(String),
    /// The records under the name that was asked for, in the provider's order.
    Records(Vec<DnsRecord>),
    /// What came of the request to the echo service.
    Trace(Fetched),
    /// The provider made or changed the record.
    Written,
    /// The request to the provider failed.
    Failed(Failure),
}

/// The mathematical value of a [`Reply`].
pub ghost enum ReplyView {
    ZoneName(Seq<char>),
    Records(Seq<RecordView>),
    Trace(FetchedView),
    Written,
    Failed(Failure),
}

impl View for Reply {
    type V = ReplyView;

    open spec fn view(&self) -> ReplyView {
        match *self {
            Reply::ZoneName(name) => ReplyView::ZoneName(name@),
            Reply::Records(records) => ReplyView::Records(records_view(records@)),
            Reply::Trace(fetched) => ReplyView::Trace(fetched@),
            Reply::Written => ReplyView::Written,
            Reply::Failed(failure) => ReplyView::Failed(failure),
        }
    }
}

} // verus!
