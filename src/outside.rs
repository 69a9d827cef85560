//! Every call into an outside crate, each behind a small trusted wrapper whose
//! contract states what that crate's source shows and no more.
use vstd::prelude::*;
use vstd::utf8::{encode_utf8, valid_utf8};

use chrono::TimeZone;

verus! {

/// An open SQLite connection.
#[verifier::external_type_specification]
#[verifier::external_body]
pub struct ExConnection(rusqlite::Connection);

/// An error reported by SQLite or by rusqlite's conversions.
#[verifier::external_type_specification]
#[verifier::external_body]
pub struct ExSqlError(rusqlite::Error);

/// An IANA time zone.
#[verifier::external_type_specification]
#[verifier::external_body]
pub struct ExTz(chrono_tz::Tz);

/// A civil date and time without a zone.
#[verifier::external_type_specification]
#[verifier::external_body]
pub struct ExNaiveDateTime(chrono::NaiveDateTime);

/// Relies on rusqlite's `Connection::execute` with positional text-or-NULL
/// parameters: runs one statement and reports the number of rows it changed.
#[verifier::external_body]
pub(crate) fn sql_execute(conn: &rusqlite::Connection, sql: &str, args: &Vec<Option<String>>) -> (r:
    Result<usize, rusqlite::Error>) {
    conn.execute(sql, rusqlite::params_from_iter(args.iter()))
}

/// Relies on rusqlite's `Connection::query_row`: the first column of the first
/// row, read as an integer.
#[verifier::external_body]
pub(crate) fn sql_query_count(conn: &rusqlite::Connection, sql: &str, args: &Vec<Option<String>>) -> (r:
    Result<i64, rusqlite::Error>) {
    conn.query_row(sql, rusqlite::params_from_iter(args.iter()), |row| row.get::<usize, i64>(0))
}

/// Relies on rusqlite's `Connection::prepare` and `Statement::query_map`: every
/// row of the result, each as its first `width` columns read as text or NULL.
#[verifier::external_body]
pub(crate) fn sql_query_rows(
    conn: &rusqlite::Connection,
    sql: &str,
    args: &Vec<Option<String>>,
    width: usize,
) -> (r: Result<Vec<Vec<Option<String>>>, rusqlite::Error>)
    ensures
        r matches Ok(rows) ==> forall|k: int| 0 <= k < rows@.len() ==> #[trigger] rows@[k]@.len() == width,
{
    let mut stmt = conn.prepare(sql)?;
    let rows = stmt.query_map(rusqlite::params_from_iter(args.iter()), |row| {
        (0..width).map(|i| row.get::<usize, Option<String>>(i)).collect()
    })?;
    rows.collect()
}

/// Relies on chrono_tz's `UTC` zone.
#[verifier::external_body]
pub(crate) fn utc_zone() -> (r: chrono_tz::Tz) {
    chrono_tz::UTC
}

/// Relies on chrono's `Utc::now`, `DateTime::with_timezone` and `DateTime::format`:
/// the current civil time in `tz`, as `YYYY-MM-DD HH:MM:SS` text.
#[verifier::external_body]
pub(crate) fn now_stamp(tz: &chrono_tz::Tz) -> (r: String) {
    chrono::Utc::now().with_timezone(tz).format("%Y-%m-%d %H:%M:%S").to_string()
}

/// Relies on chrono's `Utc::now` and `DateTime::timestamp`: seconds since the
/// UNIX epoch, now.
#[verifier::external_body]
pub(crate) fn now_epoch() -> (r: i64) {
    chrono::Utc::now().timestamp()
}

/// Relies on chrono's `NaiveDateTime::parse_from_str` with the store's
/// `%Y-%m-%d %H:%M:%S` layout.
#[verifier::external_body]
pub(crate) fn parse_stamp(text: &str) -> (r: Option<chrono::NaiveDateTime>) {
    chrono::NaiveDateTime::parse_from_str(text, "%Y-%m-%d %H:%M:%S").ok()
}

/// Relies on chrono's `TimeZone::from_local_datetime` (earliest reading of an
/// ambiguous local time) and `DateTime::timestamp`: the instant, in seconds since
/// the UNIX epoch, that the civil time `t` denotes in `tz`.
#[verifier::external_body]
pub(crate) fn zone_epoch(tz: &chrono_tz::Tz, t: &chrono::NaiveDateTime) -> (r: Option<i64>) {
    match tz.from_local_datetime(t).earliest() {
        Some(d) => Some(d.timestamp()),
        None => None,
    }
}

/// Relies on uuid's `Uuid::new_v4` and its `Simple` format: a random identifier
/// written as 32 lowercase hexadecimal digits.
#[verifier::external_body]
pub(crate) fn fresh_id() -> (r: String)
    ensures
        r@.len() == 32,
        forall|i: int| 0 <= i < 32 ==> is_lower_hex_digit(#[trigger] r@[i]),
{
    uuid::Uuid::new_v4().simple().to_string()
}

/// A digit of lowercase hexadecimal.
pub open spec fn is_lower_hex_digit(c: char) -> bool {
    ('0' <= c && c <= '9') || ('a' <= c && c <= 'f')
}

/// What `String::from_utf8_lossy` makes of a byte sequence.
pub uninterp spec fn lossy_text(b: Seq<u8>) -> Seq<char>;

/// Relies on std's `String::from_utf8_lossy`: text from bytes, with each invalid
/// sequence replaced; valid UTF-8 comes through unchanged.
#[verifier::external_body]
pub(crate) fn text_from_bytes(b: &[u8]) -> (r: String)
    ensures
        r@ == lossy_text(b@),
        valid_utf8(b@) ==> encode_utf8(r@) == b@,
{
    String::from_utf8_lossy(b).into_owned()
}

} // verus!
