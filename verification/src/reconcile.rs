//! Per-subdomain drift detection: given the fetched record and the cycle's
//! resolved IP, decide whether an update must be sent, and fold the answer
//! of a sent update into the subdomain's outcome.

use vstd::prelude::*;

use crate::provider::{build_update_payload, UpdatePayload, RECORD_TTL};
use crate::text::str_eq;
use crate::types::{ApiError, Credentials, DnsRecord};

verus! {

/// The result of reconciling one subdomain.
#[derive(Debug)]
pub enum Outcome {
    /// The stored record already holds the resolved IP; nothing was sent.
    NoChangeNeeded,
    /// The stored record differed and the provider accepted the new content.
    Updated,
    /// No matching A-record exists; records are never created, so the
    /// subdomain is skipped.
    SkippedNoRecord,
    /// Fetching the existing record failed; no update was attempted.
    ReadFailed(ApiError),
    /// The update call itself failed.
    UpdateFailed(ApiError),
}

/// What to do for one subdomain once the fetch has answered: either the
/// outcome is already decided, or exactly one update must be sent.
#[derive(Debug)]
pub enum FetchDecision {
    Finished(Outcome),
    NeedsUpdate { record_id: String, payload: UpdatePayload },
}

/// Decides one subdomain from the fetch answer. An update is called for
/// exactly when an existing record holds different content than the
/// resolved IP; the update then carries the existing record's id, the bare
/// subdomain as name, the resolved IP as content, and the fixed TTL. Equal
/// content, a missing record, and a failed fetch all finish without any
/// update.
pub fn decide_after_fetch(
    creds: &Credentials,
    subdomain: &str,
    current_ip: &str,
    fetch: Result<Option<DnsRecord>, ApiError>,
) -> (d: FetchDecision)
    ensures
        d is NeedsUpdate <==> (fetch matches Ok(Some(rec)) && rec.content@ != current_ip@),
        fetch matches Err(e) ==> d == FetchDecision::Finished(Outcome::ReadFailed(e)),
        fetch matches Ok(r) ==> (r is None ==> d == FetchDecision::Finished(
            Outcome::SkippedNoRecord,
        )),
        fetch matches Ok(Some(rec)) ==> (rec.content@ == current_ip@ ==> d
            == FetchDecision::Finished(Outcome::NoChangeNeeded)),
        fetch matches Ok(Some(rec)) ==> (rec.content@ != current_ip@ ==> (d
            matches FetchDecision::NeedsUpdate { record_id, payload } && {
            &&& record_id == rec.id
            &&& payload.apikey@ == creds.api_key@
            &&& payload.secretapikey@ == creds.secret_api_key@
            &&& payload.name@ == subdomain@
            &&& payload.record_type@ == "A"@
            &&& payload.content@ == current_ip@
            &&& payload.ttl == RECORD_TTL
        })),
{
    match fetch {
        Err(e) => FetchDecision::Finished(Outcome::ReadFailed(e)),
        Ok(None) => FetchDecision::Finished(Outcome::SkippedNoRecord),
        Ok(Some(rec)) => {
            if str_eq(rec.content.as_str(), current_ip) {
                FetchDecision::Finished(Outcome::NoChangeNeeded)
            } else {
                FetchDecision::NeedsUpdate {
                    record_id: rec.id,
                    payload: build_update_payload(creds, subdomain, current_ip),
                }
            }
        },
    }
}

/// Folds the answer of a sent update into the subdomain's outcome.
pub fn decide_after_update(update: Result<(), ApiError>) -> (o: Outcome)
    ensures
        update is Ok ==> o == Outcome::Updated,
        update matches Err(e) ==> o == Outcome::UpdateFailed(e),
{
    match update {
        Ok(()) => Outcome::Updated,
        Err(e) => Outcome::UpdateFailed(e),
    }
}

} // verus!
