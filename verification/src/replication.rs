//! One page of a replication cursor walk: the decoded records together with
//! the opaque continuation URL, if the server offered one.

use vstd::prelude::*;

verus! {

#[verifier::external_type_specification]
#[verifier::external_body]
pub struct ExValue(serde_json::Value);

/// One page of records from the replication endpoint, plus the continuation
/// URL taken from the response metadata. The record count is fixed at
/// construction and always equals the number of records.
#[derive(Debug, Clone)]
pub struct ReplicationResponse {
    /// The array of records returned by the query, in server order.
    pub records: Vec<serde_json::Value>,
    /// The next-link URL for pagination, handed verbatim to the next fetch.
    pub next_link: Option<String>,
    /// Number of records in this response.
    pub record_count: usize,
}

impl ReplicationResponse {
    /// Whether the record count is consistent with the records held.
    pub open spec fn wf(self) -> bool {
        self.record_count == self.records@.len()
    }

    /// Wraps one decoded page: the records as given, the next link as
    /// given, and the record count computed from the records.
    pub fn new(records: Vec<serde_json::Value>, next_link: Option<String>) -> (r:
        ReplicationResponse)
        ensures
            r.wf(),
            r.records == records,
            r.next_link == next_link,
            r.record_count == records@.len(),
    {
        let record_count = records.len();
        ReplicationResponse { records, next_link, record_count }
    }

    /// Whether a next link is present, i.e. whether the walk has more pages.
    pub fn has_more(&self) -> (b: bool)
        ensures
            b == (self.next_link is Some),
    {
        self.next_link.is_some()
    }

    /// The next-link URL, when one is present.
    pub fn next_link(&self) -> (r: Option<&str>)
        ensures
            match r {
                Some(s) => self.next_link matches Some(t) && s@ == t@,
                None => self.next_link is None,
            },
    {
        match &self.next_link {
            Some(s) => Some(s.as_str()),
            None => None,
        }
    }
}

} // verus!
