//! The DNS provider's request and response shapes, and the logic that
//! interprets its answers: building names, paths and payloads, and picking
//! the matching A-record out of a lookup response.

use vstd::prelude::*;
use vstd::string::StringExecFns;

use crate::text::str_eq;
use crate::types::{ApiError, Credentials, DnsRecord};

verus! {

/// Every update writes this TTL; it is fixed by design, not configurable.
pub const RECORD_TTL: u32 = 600;

/// The fully-qualified record name: subdomain and domain joined by a dot,
/// or the bare domain when the subdomain is empty.
pub open spec fn full_name_spec(domain: Seq<char>, subdomain: Seq<char>) -> Seq<char> {
    if subdomain.len() == 0 {
        domain
    } else {
        subdomain + "."@ + domain
    }
}

pub fn full_name(domain: &str, subdomain: &str) -> (r: String)
    ensures
        r@ == full_name_spec(domain@, subdomain@),
{
    if subdomain.is_empty() {
        domain.to_owned()
    } else {
        let mut r = subdomain.to_owned();
        r.append(".");
        r.append(domain);
        r
    }
}

/// Path of the record lookup, scoped by domain and the record type `A`,
/// with the subdomain as the trailing discriminator.
pub open spec fn fetch_path_spec(domain: Seq<char>, subdomain: Seq<char>) -> Seq<char> {
    "https://api.porkbun.com/api/json/v3/dns/retrieveByNameType/"@ + domain + "/A/"@ + subdomain
}

pub fn fetch_path(domain: &str, subdomain: &str) -> (r: String)
    ensures
        r@ == fetch_path_spec(domain@, subdomain@),
{
    let mut r = String::from_str("https://api.porkbun.com/api/json/v3/dns/retrieveByNameType/");
    r.append(domain);
    r.append("/A/");
    r.append(subdomain);
    proof {
        assert(r@ =~= fetch_path_spec(domain@, subdomain@));
    }
    r
}

/// Path of the record update, scoped by domain and the record's id.
pub open spec fn update_path_spec(domain: Seq<char>, record_id: Seq<char>) -> Seq<char> {
    "https://api.porkbun.com/api/json/v3/dns/edit/"@ + domain + "/"@ + record_id
}

pub fn update_path(domain: &str, record_id: &str) -> (r: String)
    ensures
        r@ == update_path_spec(domain@, record_id@),
{
    let mut r = String::from_str("https://api.porkbun.com/api/json/v3/dns/edit/");
    r.append(domain);
    r.append("/");
    r.append(record_id);
    proof {
        assert(r@ =~= update_path_spec(domain@, record_id@));
    }
    r
}

/// Body of a record lookup: the credentials and the fully-qualified name.
#[derive(Debug)]
pub struct FetchPayload {
    pub apikey: String,
    pub secretapikey: String,
    pub name: String,
}

pub fn build_fetch_payload(creds: &Credentials, domain: &str, subdomain: &str) -> (p: FetchPayload)
    ensures
        p.apikey@ == creds.api_key@,
        p.secretapikey@ == creds.secret_api_key@,
        p.name@ == full_name_spec(domain@, subdomain@),
{
    FetchPayload {
        apikey: creds.api_key.clone(),
        secretapikey: creds.secret_api_key.clone(),
        name: full_name(domain, subdomain),
    }
}

/// Body of a record update: the credentials, the bare subdomain as the
/// name (the provider's write path, unlike its read path, does not take
/// the fully-qualified form), the record type, the new IP as content, and
/// the fixed TTL.
#[derive(Debug)]
pub struct UpdatePayload {
    pub apikey: String,
    pub secretapikey: String,
    pub name: String,
    pub record_type: String,
    pub content: String,
    pub ttl: u32,
}

pub fn build_update_payload(creds: &Credentials, subdomain: &str, new_ip: &str) -> (p:
    UpdatePayload)
    ensures
        p.apikey@ == creds.api_key@,
        p.secretapikey@ == creds.secret_api_key@,
        p.name@ == subdomain@,
        p.record_type@ == "A"@,
        p.content@ == new_ip@,
        p.ttl == RECORD_TTL,
{
    UpdatePayload {
        apikey: creds.api_key.clone(),
        secretapikey: creds.secret_api_key.clone(),
        name: subdomain.to_owned(),
        record_type: String::from_str("A"),
        content: new_ip.to_owned(),
        ttl: RECORD_TTL,
    }
}

/// The decoded answer of a record lookup. `records` is absent when the
/// provider holds no records for the name.
#[derive(Debug)]
pub struct RetrieveResponse {
    pub status: String,
    pub records: Option<Vec<DnsRecord>>,
    pub message: Option<String>,
}

/// The decoded answer of a record update: a status and an optional message.
#[derive(Debug)]
pub struct ApiResponse {
    pub status: String,
    pub message: Option<String>,
}

/// The provider's message, or the fixed fallback text when it sent none.
pub open spec fn message_text(message: Option<String>) -> Seq<char> {
    match message {
        Some(m) => m@,
        None => "Unknown error"@,
    }
}

fn message_or_unknown(message: Option<String>) -> (r: String)
    ensures
        r@ == message_text(message),
{
    match message {
        Some(m) => m,
        None => String::from_str("Unknown error"),
    }
}

/// An exact match: the record is of type `A` and carries exactly the
/// fully-qualified name. A record with the right name but another type is
/// never a match.
pub open spec fn record_matches(r: DnsRecord, full: Seq<char>) -> bool {
    r.record_type@ == "A"@ && r.name@ == full
}

/// The first record in provider order that matches the fully-qualified
/// name, or `None` when no record matches.
pub open spec fn first_match(records: Seq<DnsRecord>, full: Seq<char>) -> Option<DnsRecord>
    decreases records.len(),
{
    if records.len() == 0 {
        None
    } else if record_matches(records[0], full) {
        Some(records[0])
    } else {
        first_match(records.skip(1), full)
    }
}

/// What `first_match` selects is always an exact match, it is the earliest
/// match, and it is `None` exactly when no record matches: a record with a
/// matching name but a type other than `A` is never selected.
pub proof fn lemma_first_match_exact(records: Seq<DnsRecord>, full: Seq<char>)
    ensures
        first_match(records, full) matches Some(rec) ==> exists|i: int|
            0 <= i < records.len() && records[i] == rec && record_matches(rec, full) && (forall|
                j: int,
            | 0 <= j < i ==> !record_matches(records[j], full)),
        first_match(records, full) is None <==> (forall|i: int|
            0 <= i < records.len() ==> !record_matches(records[i], full)),
    decreases records.len(),
{
    if records.len() == 0 {
    } else if record_matches(records[0], full) {
        let rec = records[0];
        assert(records[0] == rec && record_matches(rec, full) && (forall|j: int|
            0 <= j < 0 ==> !record_matches(records[j], full)));
    } else {
        let rest = records.skip(1);
        lemma_first_match_exact(rest, full);
        assert(forall|k: int| 0 <= k < rest.len() ==> rest[k] == records[k + 1]);
        match first_match(records, full) {
            Some(rec) => {
                let i = choose|i: int|
                    0 <= i < rest.len() && rest[i] == rec && record_matches(rec, full) && (forall|
                        j: int,
                    | 0 <= j < i ==> !record_matches(rest[j], full));
                assert(records[i + 1] == rec);
                assert(forall|j: int| 0 <= j < i + 1 ==> !record_matches(records[j], full)) by {
                    assert(forall|j: int| 1 <= j < i + 1 ==> records[j] == rest[j - 1]);
                }
                assert(0 <= i + 1 < records.len() && records[i + 1] == rec && record_matches(
                    rec,
                    full,
                ) && (forall|j: int| 0 <= j < i + 1 ==> !record_matches(records[j], full)));
            },
            None => {},
        }
        if forall|i: int| 0 <= i < rest.len() ==> !record_matches(rest[i], full) {
            assert(forall|i: int| 0 <= i < records.len() ==> !record_matches(records[i], full))
                by {
                assert(forall|i: int| 1 <= i < records.len() ==> records[i] == rest[i - 1]);
            }
        }
    }
}

/// Walks the records in provider order and returns the first exact
/// A-record match for the fully-qualified name, if any.
pub fn select_record(records: Vec<DnsRecord>, full: &str) -> (r: Option<DnsRecord>)
    ensures
        r == first_match(records@, full@),
{
    let len = records.len();
    let mut i: usize = 0;
    proof {
        assert(records@.skip(0) =~= records@);
    }
    while i < len
        invariant
            len == records@.len(),
            i <= len,
            first_match(records@, full@) == first_match(records@.skip(i as int), full@),
        decreases len - i,
    {
        let type_ok = str_eq(records[i].record_type.as_str(), "A");
        let name_ok = str_eq(records[i].name.as_str(), full);
        proof {
            assert(records@.skip(i as int)[0] == records@[i as int]);
        }
        if type_ok && name_ok {
            let mut owned = records;
            let rec = owned.remove(i);
            return Some(rec);
        }
        proof {
            assert(records@.skip(i as int).skip(1) =~= records@.skip(i as int + 1));
        }
        i += 1;
    }
    proof {
        assert(records@.skip(len as int) =~= Seq::<DnsRecord>::empty());
    }
    None
}

/// Reads a lookup answer. A non-success status is a provider error
/// carrying the provider's message (or the fallback text); a success with
/// no record list is the normal no-record outcome; a success with records
/// selects the first exact A-record match for the fully-qualified name.
pub fn interpret_fetch(resp: RetrieveResponse, domain: &str, subdomain: &str) -> (r: Result<
    Option<DnsRecord>,
    ApiError,
>)
    ensures
        resp.status@ != "SUCCESS"@ ==> (r matches Err(e) && e matches ApiError::Provider {
            message,
        } && message@ == message_text(resp.message)),
        resp.status@ == "SUCCESS"@ && resp.records is None ==> r == Ok::<
            Option<DnsRecord>,
            ApiError,
        >(None),
        resp.records matches Some(recs) ==> (resp.status@ == "SUCCESS"@ ==> r == Ok::<
            Option<DnsRecord>,
            ApiError,
        >(first_match(recs@, full_name_spec(domain@, subdomain@)))),
{
    if str_eq(resp.status.as_str(), "SUCCESS") {
        match resp.records {
            Some(recs) => {
                let full = full_name(domain, subdomain);
                Ok(select_record(recs, full.as_str()))
            },
            None => Ok(None),
        }
    } else {
        Err(ApiError::Provider { message: message_or_unknown(resp.message) })
    }
}

/// Reads an update answer: a success status means the update took; any
/// other status is a provider error carrying the provider's message (or
/// the fallback text).
pub fn interpret_update(resp: ApiResponse) -> (r: Result<(), ApiError>)
    ensures
        resp.status@ == "SUCCESS"@ <==> r is Ok,
        resp.status@ != "SUCCESS"@ ==> (r matches Err(e) && e matches ApiError::Provider {
            message,
        } && message@ == message_text(resp.message)),
{
    if str_eq(resp.status.as_str(), "SUCCESS") {
        Ok(())
    } else {
        Err(ApiError::Provider { message: message_or_unknown(resp.message) })
    }
}

} // verus!
