//! What an SRV lookup brings back.

use trust_dns_resolver::error::ResolveError;
use trust_dns_resolver::error::ResolveErrorKind;
use trust_dns_resolver::lookup::SrvLookup;
use vstd::prelude::*;

verus! {

#[verifier::external_type_specification]
#[verifier::external_body]
pub struct ExSrvLookup(SrvLookup);

/// One SRV record: a service instance at `target`, listening on `port`.
#[derive(Clone, Debug, PartialEq, Eq)]
pub struct SrvRecord {
    pub target: String,
    pub port: u16,
    pub priority: u16,
    pub weight: u16,
}

/// An SRV record as plain text and numbers.
pub struct SrvRecordView {
    pub target: Seq<char>,
    pub port: u16,
    pub priority: u16,
    pub weight: u16,
}

impl View for SrvRecord {
    type V = SrvRecordView;

    open spec fn view(&self) -> SrvRecordView {
        SrvRecordView {
            target: self.target@,
            port: self.port,
            priority: self.priority,
            weight: self.weight,
        }
    }
}

/// The views of a run of records, in order.
pub open spec fn record_views(records: Seq<SrvRecord>) -> Seq<SrvRecordView> {
    records.map_values(|record: SrvRecord| record@)
}

/// The SRV records that a lookup holds, in the order in which the resolver
/// hands them out.
pub uninterp spec fn srv_records(lookup: SrvLookup) -> Seq<SrvRecordView>;

/// Reads the SRV records out of a lookup with `SrvLookup::iter`, and each
/// record's fields with `SRV::target`, `port`, `priority` and `weight`. The
/// target is written as the resolver displays the name. The records come in
/// the order of the iterator; answers of other types are not SRV records and
/// the iterator leaves them out.
#[verifier::external_body]
fn records_of(lookup: &SrvLookup) -> (r: Vec<SrvRecord>)
    ensures
        record_views(r@) == srv_records(*lookup),
{
    lookup.iter().map(|srv| SrvRecord {
        target: srv.target().to_string(),
        port: srv.port(),
        priority: srv.priority(),
        weight: srv.weight(),
    }).collect()
}

/// Tells with `ResolveError::kind` whether the resolver reports that the
/// name has no records, as opposed to a query that failed. Nothing is
/// claimed of the answer.
#[verifier::external_body]
fn is_no_records_found(error: &ResolveError) -> (r: bool) {
    matches!(error.kind(), ResolveErrorKind::NoRecordsFound { .. })
}

/// The outcome of one SRV lookup.
#[derive(Debug)]
pub enum LookupOutcome {
    /// Records exist. They are in the resolver's order, lowest priority
    /// first; only the first is ever used.
    Found(Vec<SrvRecord>),
    /// The name has no SRV records. This is an answer, not a failure.
    NotFound,
    /// The query itself failed.
    QueryFailed(ResolveError),
}

impl LookupOutcome {
    /// A found outcome holds at least one record.
    pub open spec fn wf(&self) -> bool {
        self matches LookupOutcome::Found(records) ==> records@.len() > 0
    }

    /// The record that decides the destination: the first one found.
    pub open spec fn chosen(&self) -> Option<SrvRecord> {
        match self {
            LookupOutcome::Found(records) => if records@.len() > 0 {
                Some(records@[0])
            } else {
                None
            },
            _ => None,
        }
    }

    /// The outcome of a lookup that answered with `records`.
    pub fn from_records(records: Vec<SrvRecord>) -> (r: Self)
        ensures
            r.wf(),
            records@.len() == 0 ==> r is NotFound,
            records@.len() > 0 ==> r == LookupOutcome::Found(records),
    {
        if records.len() == 0 {
            LookupOutcome::NotFound
        } else {
            LookupOutcome::Found(records)
        }
    }

    /// The outcome of a lookup that ended in `error`, where `no_records`
    /// says whether the error only reports that the name has no records.
    pub fn from_failure(error: ResolveError, no_records: bool) -> (r: Self)
        ensures
            r.wf(),
            no_records ==> r is NotFound,
            !no_records ==> r == LookupOutcome::QueryFailed(error),
    {
        if no_records {
            LookupOutcome::NotFound
        } else {
            LookupOutcome::QueryFailed(error)
        }
    }

    /// The outcome that a resolver's answer stands for.
    ///
    /// An answer without SRV records counts as not found. Of an error, the
    /// resolver alone says whether it means that no records exist; any other
    /// error is a failed query and is kept.
    pub fn from_result(result: Result<SrvLookup, ResolveError>) -> (r: Self)
        ensures
            r.wf(),
            match result {
                Ok(lookup) => if srv_records(lookup).len() == 0 {
                    r is NotFound
                } else {
                    r matches LookupOutcome::Found(records) && record_views(records@)
                        == srv_records(lookup)
                },
                Err(error) => r is NotFound || r == LookupOutcome::QueryFailed(error),
            },
    {
        match result {
            Ok(lookup) => {
                let records = records_of(&lookup);
                Self::from_records(records)
            },
            Err(error) => {
                let no_records = is_no_records_found(&error);
                Self::from_failure(error, no_records)
            },
        }
    }
}

} // verus!
