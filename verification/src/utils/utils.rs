//! Timestamp parsing and formatting, object-identifier normalization,
//! and the conversions between the stored and the API-facing record
//! shapes.

use vstd::prelude::*;

use crate::models::client_request::ClientRequest;
use crate::models::hog::Hog;
use crate::models::hog::HogView;
use crate::models::hog_record::HogRecord;
use crate::models::hog_record::HogRecordView;
use crate::models::options::clone_opt_string;
use crate::models::options::clone_opt_value;

verus! {

/// The milliseconds since the epoch denoted by an RFC 3339 timestamp
/// text, if the text is one.
pub uninterp spec fn rfc3339_millis_of(s: Seq<char>) -> Option<i64>;

/// Whether a millisecond count lies in the range that a calendar
/// date-time can represent.
pub uninterp spec fn millis_in_datetime_range(ms: i64) -> bool;

/// The RFC 3339 text, with millisecond precision and a `Z` suffix,
/// of a representable millisecond count.
pub uninterp spec fn rfc3339_text_of(ms: i64) -> Seq<char>;

/// The canonical (lower-case) hexadecimal form of an object
/// identifier text, if the text is a valid 24-digit one.
pub uninterp spec fn oid_hex_of(s: Seq<char>) -> Option<Seq<char>>;

/// The text with leading and trailing whitespace removed, as std's
/// `str::trim` leaves it.
pub uninterp spec fn trimmed_of(s: Seq<char>) -> Seq<char>;

/// Relies on std's `str::trim`: the result depends on the text alone.
#[verifier::external_body]
pub fn trimmed(s: &str) -> (r: &str)
    ensures
        r@ == trimmed_of(s@),
{
    s.trim()
}

/// Whether nothing is left of the text once surrounding whitespace is
/// trimmed away.
pub open spec fn spec_is_blank(s: Seq<char>) -> bool {
    trimmed_of(s).len() == 0
}

/// Whether the text is blank.
pub fn is_blank(s: &str) -> (r: bool)
    ensures
        r == spec_is_blank(s@),
{
    trimmed(s).is_empty()
}

/// Relies on chrono's `DateTime::parse_from_rfc3339` and
/// `timestamp_millis`: the parse is a function of the text alone, and
/// every parsed date-time carries a representable millisecond count.
#[verifier::external_body]
pub fn parse_rfc3339_millis(s: &str) -> (r: Option<i64>)
    ensures
        r == rfc3339_millis_of(s@),
        r matches Some(ms) ==> millis_in_datetime_range(ms),
{
    chrono::DateTime::parse_from_rfc3339(s)
        .ok()
        .map(|dt| dt.with_timezone(&chrono::Utc).timestamp_millis())
}

/// Relies on chrono's `DateTime::from_timestamp_millis`, which accepts
/// exactly the representable millisecond counts, and `to_rfc3339_opts`,
/// whose text depends on the date-time alone.
#[verifier::external_body]
pub fn format_rfc3339_millis(ms: i64) -> (r: Option<String>)
    ensures
        r is Some <==> millis_in_datetime_range(ms),
        r matches Some(s) ==> s@ == rfc3339_text_of(ms),
{
    chrono::DateTime::<chrono::Utc>::from_timestamp_millis(ms)
        .map(|dt| dt.to_rfc3339_opts(chrono::SecondsFormat::Millis, true))
}

/// Relies on chrono's `Utc::now` and `timestamp_millis`: whatever
/// instant the clock reports, its millisecond count is representable.
#[verifier::external_body]
pub fn get_timestamp() -> (r: i64)
    ensures
        millis_in_datetime_range(r),
{
    chrono::Utc::now().timestamp_millis()
}

/// Relies on bson's `ObjectId::parse_str` (accepts exactly the
/// 24-digit hexadecimal texts) and `to_hex` (24 lower-case digits):
/// both depend on the text alone.
#[verifier::external_body]
pub fn normalize_object_id(s: &str) -> (r: Option<String>)
    ensures
        match r {
            Some(h) => oid_hex_of(s@) == Some(h@) && h@.len() == 24,
            None => oid_hex_of(s@) is None,
        },
{
    bson::oid::ObjectId::parse_str(s).ok().map(|oid| oid.to_hex())
}

/// How an API-facing record reflects a stored record: the stored
/// millisecond timestamp is rendered as RFC 3339 text, all other
/// fields carry over unchanged.
pub open spec fn hog_of_record(h: HogView, r: HogRecordView) -> bool {
    &&& h.client_request.log_timestamp == rfc3339_text_of(r.log_timestamp)
    &&& h.client_request.log_level == r.log_level
    &&& h.client_request.log_message == r.log_message
    &&& h.client_request.log_data == r.log_data
    &&& h.client_request.log_type == r.log_type
    &&& h.client_request.log_source == r.log_source
    &&& h.client_request.log_source_id == r.log_source_id
    &&& h.hog_uuid == r.hog_uuid
    &&& h.hog_timestamp == r.hog_timestamp
    &&& h.id == r.id
    &&& h.created_at == r.created_at
}

/// Turns one stored record into its API-facing shape. Nothing comes
/// back only when the stored timestamp lies outside the representable
/// date-time range.
pub fn convert_hog_record_to_hog(hog_record: &HogRecord) -> (r: Option<Hog>)
    ensures
        r is Some <==> millis_in_datetime_range(hog_record.log_timestamp),
        r matches Some(h) ==> hog_of_record(h@, hog_record@),
{
    let log_timestamp = match format_rfc3339_millis(hog_record.log_timestamp) {
        Some(t) => t,
        None => {
            return None;
        },
    };
    Some(
        Hog {
            client_request: ClientRequest {
                log_timestamp,
                log_level: clone_opt_string(&hog_record.log_level),
                log_message: hog_record.log_message.clone(),
                log_data: clone_opt_value(&hog_record.log_data),
                log_type: clone_opt_string(&hog_record.log_type),
                log_source: clone_opt_string(&hog_record.log_source),
                log_source_id: clone_opt_string(&hog_record.log_source_id),
            },
            hog_uuid: clone_opt_string(&hog_record.hog_uuid),
            hog_timestamp: hog_record.hog_timestamp,
            id: clone_opt_string(&hog_record.id),
            created_at: hog_record.created_at,
        },
    )
}

/// How a stored record reflects an API-facing record stamped at
/// `now_ms`: the RFC 3339 text is parsed back to milliseconds, the
/// identifier is kept only in its canonical form, `created_at` is
/// stamped with `now_ms`, and all other fields carry over unchanged.
pub open spec fn record_of_hog(r: HogRecordView, h: HogView, now_ms: i64) -> bool {
    &&& rfc3339_millis_of(h.client_request.log_timestamp) == Some(r.log_timestamp)
    &&& r.log_level == h.client_request.log_level
    &&& r.log_message == h.client_request.log_message
    &&& r.log_data == h.client_request.log_data
    &&& r.log_type == h.client_request.log_type
    &&& r.log_source == h.client_request.log_source
    &&& r.log_source_id == h.client_request.log_source_id
    &&& r.hog_uuid == h.hog_uuid
    &&& r.hog_timestamp == h.hog_timestamp
    &&& r.created_at == Some(now_ms)
    &&& r.id == (match h.id {
        Some(s) => oid_hex_of(s),
        None => None,
    })
}

/// Turns one API-facing record into its stored shape, stamping
/// `created_at` with `now_ms`. Nothing comes back only when the
/// record's timestamp text does not parse as RFC 3339. An identifier
/// that is not a valid object identifier is dropped.
pub fn convert_hog_to_hog_record(hog: &Hog, now_ms: i64) -> (r: Option<HogRecord>)
    ensures
        r is Some <==> rfc3339_millis_of(hog.client_request.log_timestamp@) is Some,
        r matches Some(rec) ==> record_of_hog(rec@, hog@, now_ms),
{
    let log_timestamp = match parse_rfc3339_millis(hog.client_request.log_timestamp.as_str()) {
        Some(ms) => ms,
        None => {
            return None;
        },
    };
    let id = match &hog.id {
        Some(s) => normalize_object_id(s.as_str()),
        None => None,
    };
    Some(
        HogRecord {
            log_timestamp,
            log_level: clone_opt_string(&hog.client_request.log_level),
            log_message: hog.client_request.log_message.clone(),
            log_data: clone_opt_value(&hog.client_request.log_data),
            log_type: clone_opt_string(&hog.client_request.log_type),
            log_source: clone_opt_string(&hog.client_request.log_source),
            log_source_id: clone_opt_string(&hog.client_request.log_source_id),
            hog_uuid: clone_opt_string(&hog.hog_uuid),
            hog_timestamp: hog.hog_timestamp,
            created_at: Some(now_ms),
            id,
        },
    )
}

/// Turns a page of stored records into their API-facing shape, in
/// order. Nothing comes back only when some stored timestamp lies
/// outside the representable date-time range.
pub fn convert_hog_records_to_hogs(hog_records: &Vec<HogRecord>) -> (r: Option<Vec<Hog>>)
    ensures
        r is Some <==> (forall|i: int|
            0 <= i < hog_records@.len() ==> millis_in_datetime_range(
                hog_records@[i].log_timestamp,
            )),
        r matches Some(hs) ==> hs@.len() == hog_records@.len() && (forall|i: int|
            0 <= i < hs@.len() ==> hog_of_record(hs@[i]@, hog_records@[i]@)),
{
    let mut out: Vec<Hog> = Vec::new();
    let mut i: usize = 0;
    while i < hog_records.len()
        invariant
            0 <= i <= hog_records@.len(),
            out@.len() == i,
            forall|j: int| 0 <= j < i ==> millis_in_datetime_range(hog_records@[j].log_timestamp),
            forall|j: int| 0 <= j < i ==> hog_of_record(out@[j]@, hog_records@[j]@),
        decreases hog_records@.len() - i,
    {
        match convert_hog_record_to_hog(&hog_records[i]) {
            Some(h) => {
                out.push(h);
            },
            None => {
                return None;
            },
        }
        i = i + 1;
    }
    Some(out)
}

/// Turns a list of API-facing records into their stored shape, all
/// stamped at `now_ms`, in order. Nothing comes back only when some
/// record's timestamp text does not parse as RFC 3339.
pub fn convert_hogs_to_hog_records(hogs: &Vec<Hog>, now_ms: i64) -> (r: Option<Vec<HogRecord>>)
    ensures
        r is Some <==> (forall|i: int|
            0 <= i < hogs@.len() ==> rfc3339_millis_of(hogs@[i].client_request.log_timestamp@)
                is Some),
        r matches Some(recs) ==> recs@.len() == hogs@.len() && (forall|i: int|
            0 <= i < recs@.len() ==> record_of_hog(recs@[i]@, hogs@[i]@, now_ms)),
{
    let mut out: Vec<HogRecord> = Vec::new();
    let mut i: usize = 0;
    while i < hogs.len()
        invariant
            0 <= i <= hogs@.len(),
            out@.len() == i,
            forall|j: int|
                0 <= j < i ==> rfc3339_millis_of(hogs@[j].client_request.log_timestamp@) is Some,
            forall|j: int| 0 <= j < i ==> record_of_hog(out@[j]@, hogs@[j]@, now_ms),
        decreases hogs@.len() - i,
    {
        match convert_hog_to_hog_record(&hogs[i], now_ms) {
            Some(rec) => {
                out.push(rec);
            },
            None => {
                return None;
            },
        }
        i = i + 1;
    }
    Some(out)
}

} // verus!
