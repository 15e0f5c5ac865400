//! Context records: what is written when a record is added, and what is
//! read back when one is shown.
use vstd::prelude::*;
use vstd::string::*;

use crate::error::CtxError;

verus! {

/// A record as it is added to the store.
#[derive(Debug)]
pub struct RecordInput {
    pub id: String,
    pub key: Option<String>,
    pub title: String,
    pub content: String,
    pub tags: Vec<String>,
    pub service: Option<String>,
    pub env: Option<String>,
    pub source: Option<String>,
    pub created_at: String,
    pub updated_at: String,
}

/// A record as it is read back from the store; the tags are one
/// space-separated text.
#[derive(Debug)]
pub struct RecordDetail {
    pub id: String,
    pub key: Option<String>,
    pub title: String,
    pub content: String,
    pub tags_text: String,
    pub service: Option<String>,
    pub env: Option<String>,
    pub source: Option<String>,
    pub created_at: String,
    pub updated_at: String,
}

/// The text of an optional string.
pub open spec fn opt_view(o: Option<String>) -> Option<Seq<char>> {
    match o {
        Some(s) => Some(s@),
        None => None,
    }
}

/// `d` is the record whose key, or else id, is `q`.
pub open spec fn is_record_for(d: RecordDetail, q: Seq<char>) -> bool {
    opt_view(d.key) == Some(q) || d.id@ == q
}

/// A lowercase hexadecimal digit.
pub open spec fn is_lower_hex(c: char) -> bool {
    ('0' <= c && c <= '9') || ('a' <= c && c <= 'f')
}

/// The id of a new record: `ctx_` followed by the 32 lowercase hex digits
/// of a random (version 4) UUID.
pub open spec fn is_record_id(id: Seq<char>) -> bool {
    &&& id.len() == 36
    &&& id.take(4) == "ctx_"@
    &&& forall|i: int| 4 <= i < 36 ==> is_lower_hex(#[trigger] id[i])
}

/// A decimal digit.
pub open spec fn is_digit(c: char) -> bool {
    '0' <= c && c <= '9'
}

/// An RFC 3339 zone: `Z`, or a sign, two digits, `:` and two digits.
pub open spec fn is_zone(z: Seq<char>) -> bool {
    ||| z == seq!['Z']
    ||| (z.len() == 6 && (z[0] == '+' || z[0] == '-') && is_digit(z[1]) && is_digit(z[2]) && z[3]
        == ':' && is_digit(z[4]) && is_digit(z[5]))
}

/// Fractional seconds as written after the seconds: nothing, or `.` and
/// one to nine digits.
pub open spec fn is_fraction(f: Seq<char>) -> bool {
    f.len() == 0 || (2 <= f.len() <= 10 && f[0] == '.' && forall|i: int|
        1 <= i < f.len() ==> is_digit(#[trigger] f[i]))
}

/// An RFC 3339 timestamp: `YYYY-MM-DDTHH:MM:SS`, optional fractional
/// seconds, and a zone.
pub open spec fn is_rfc3339(s: Seq<char>) -> bool {
    &&& s.len() >= 20
    &&& forall|i: int|
        (0 <= i < 4 || 5 <= i < 7 || 8 <= i < 10 || 11 <= i < 13 || 14 <= i < 16 || 17 <= i < 19)
            ==> is_digit(#[trigger] s[i])
    &&& s[4] == '-' && s[7] == '-' && s[10] == 'T' && s[13] == ':' && s[16] == ':'
    &&& exists|k: int|
        19 <= k <= s.len() && #[trigger] is_fraction(s.subrange(19, k)) && is_zone(
            s.subrange(k, s.len() as int),
        )
}

#[verifier::external_type_specification]
#[verifier::external_body]
pub struct ExOffsetDateTime(time::OffsetDateTime);

#[verifier::external_type_specification]
#[verifier::external_body]
pub struct ExTimeFormatError(time::error::Format);

/// `uuid::Uuid::new_v4` rendered by `Uuid::simple`: a fresh random UUID
/// as 32 lowercase hexadecimal digits (the `Display` impl of `Simple`
/// encodes in lower case). Which UUID comes back is chance.
#[verifier::external_body]
fn new_uuid_simple() -> (r: String)
    ensures
        r@.len() == 32,
        forall|i: int| 0 <= i < 32 ==> is_lower_hex(#[trigger] r@[i]),
{
    uuid::Uuid::new_v4().simple().to_string()
}

/// `time::OffsetDateTime::now_utc`: the current time in UTC. Nothing is
/// stated of it.
#[verifier::external_body]
fn now_utc() -> (r: time::OffsetDateTime) {
    time::OffsetDateTime::now_utc()
}

/// `time::OffsetDateTime::format` with the well-known RFC 3339 format:
/// the text is the four-digit year, month and day, `T`, hour, minute and
/// second (each zero-padded), the nanoseconds after a `.` with trailing
/// zeros cut where they are not zero, then `Z` for UTC or the signed
/// offset hours and minutes. Which instant it shows, and when it fails (a
/// year outside 0 to 9999, an offset with seconds), is not stated.
#[verifier::external_body]
fn format_rfc3339(t: time::OffsetDateTime) -> (r: Result<String, time::error::Format>)
    ensures
        r matches Ok(s) ==> is_rfc3339(s@),
{
    t.format(&time::format_description::well_known::Rfc3339)
}

/// The `Display` text of a `time::error::Format`. Nothing is stated of it.
#[verifier::external_body]
fn time_error_message(e: &time::error::Format) -> (r: String) {
    e.to_string()
}

impl RecordInput {
    /// A record with the given id suffix and timestamp: the id is `ctx_`
    /// followed by `uuid_hex`, and both timestamps are `timestamp`.
    pub fn from_parts(
        uuid_hex: String,
        timestamp: String,
        title: String,
        content: String,
        key: Option<String>,
        tags: Vec<String>,
        service: Option<String>,
        env: Option<String>,
        source: Option<String>,
    ) -> (r: RecordInput)
        ensures
            r.id@ == "ctx_"@ + uuid_hex@,
            r.created_at@ == timestamp@,
            r.updated_at@ == timestamp@,
            r.title == title,
            r.content == content,
            r.key == key,
            r.tags == tags,
            r.service == service,
            r.env == env,
            r.source == source,
    {
        let mut id = String::from_str("ctx_");
        id.append(uuid_hex.as_str());
        let created_at = timestamp.clone();
        RecordInput {
            id,
            key,
            title,
            content,
            tags,
            service,
            env,
            source,
            created_at,
            updated_at: timestamp,
        }
    }

    /// A new record: a fresh random id (`ctx_` and 32 hex digits), and the
    /// current UTC time in RFC 3339 as both creation and update time.
    pub fn new(
        title: String,
        content: String,
        key: Option<String>,
        tags: Vec<String>,
        service: Option<String>,
        env: Option<String>,
        source: Option<String>,
    ) -> (r: Result<RecordInput, CtxError>)
        ensures
            r matches Ok(rec) ==> {
                &&& is_record_id(rec.id@)
                &&& rec.created_at@ == rec.updated_at@
                &&& is_rfc3339(rec.created_at@)
                &&& rec.title == title
                &&& rec.content == content
                &&& rec.key == key
                &&& rec.tags == tags
                &&& rec.service == service
                &&& rec.env == env
                &&& rec.source == source
            },
            r matches Err(e) ==> e is Time,
    {
        let now = match format_rfc3339(now_utc()) {
            Ok(now) => now,
            Err(e) => {
                return Err(CtxError::Time(time_error_message(&e)));
            },
        };
        let hex = new_uuid_simple();
        let rec = RecordInput::from_parts(hex, now, title, content, key, tags, service, env, source);
        proof {
            reveal_strlit("ctx_");
            assert(rec.id@.take(4) =~= "ctx_"@);
            assert forall|i: int| 4 <= i < 36 implies is_lower_hex(#[trigger] rec.id@[i]) by {
                assert(rec.id@[i] == hex@[i - 4]);
            }
        }
        Ok(rec)
    }
}

} // verus!
