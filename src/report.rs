//! The report: one row of text fields per check result, and the JSON
//! document that holds the rows.
use vstd::prelude::*;
use crate::record::{CheckResult, Timestamp};
use crate::retry::CheckOutcome;

verus! {

/// The decimal digit `d` (below ten) as a character.
pub open spec fn digit_char(d: nat) -> char {
    seq!['0', '1', '2', '3', '4', '5', '6', '7', '8', '9'][d as int]
}

/// `n` written in decimal, without sign or leading zeros.
pub open spec fn decimal(n: nat) -> Seq<char>
    decreases n,
{
    if n < 10 {
        seq![digit_char(n)]
    } else {
        decimal(n / 10).push(digit_char(n % 10))
    }
}

pub open spec fn is_digit(c: char) -> bool {
    '0' <= c <= '9'
}

/// The `status` field of a report row: the HTTP status code in decimal for a
/// reachable URL, the failure message for an unreachable one.
pub open spec fn status_of(outcome: CheckOutcome) -> Seq<char> {
    match outcome {
        CheckOutcome::Success { status_code } => decimal(status_code as nat),
        CheckOutcome::Failure { message } => message@,
    }
}

/// The RFC 3339 text (UTC offset) of the instant `secs` seconds and `nanos`
/// nanoseconds after the Unix epoch, as chrono writes it.
pub uninterp spec fn rfc3339_text(secs: i64, nanos: u32) -> Seq<char>;

/// The pretty-printed JSON array of objects with the fields `url`, `status`,
/// `response_time_ms` and `timestamp`, one object per row, as serde_json
/// writes it.
pub uninterp spec fn report_json(rows: Seq<(Seq<char>, Seq<char>, u64, Seq<char>)>) -> Seq<char>;

/// One object of the report.
pub struct ReportRow {
    pub url: String,
    pub status: String,
    pub response_time_ms: u64,
    pub timestamp: String,
}

impl ReportRow {
    pub open spec fn fields(&self) -> (Seq<char>, Seq<char>, u64, Seq<char>) {
        (self.url@, self.status@, self.response_time_ms, self.timestamp@)
    }
}

/// The fields of the row that reports `r`.
pub open spec fn row_fields_of(r: CheckResult) -> (Seq<char>, Seq<char>, u64, Seq<char>) {
    (r.url@, status_of(r.outcome), r.elapsed_ms, rfc3339_text(r.timestamp.secs, r.timestamp.nanos))
}

pub open spec fn all_fields(rows: Seq<ReportRow>) -> Seq<(Seq<char>, Seq<char>, u64, Seq<char>)> {
    rows.map_values(|row: ReportRow| row.fields())
}

/// The digit `d` as a one-character string.
fn digit_str(d: u16) -> (s: &'static str)
    requires
        d < 10,
    ensures
        s@ == seq![digit_char(d as nat)],
{
    proof {
        reveal_strlit("0");
        reveal_strlit("1");
        reveal_strlit("2");
        reveal_strlit("3");
        reveal_strlit("4");
        reveal_strlit("5");
        reveal_strlit("6");
        reveal_strlit("7");
        reveal_strlit("8");
        reveal_strlit("9");
    }
    match d {
        0 => "0",
        1 => "1",
        2 => "2",
        3 => "3",
        4 => "4",
        5 => "5",
        6 => "6",
        7 => "7",
        8 => "8",
        _ => "9",
    }
}

/// `n` in decimal.
pub fn decimal_text(n: u16) -> (s: String)
    ensures
        s@ == decimal(n as nat),
    decreases n,
{
    if n < 10 {
        String::from_str(digit_str(n))
    } else {
        let high = decimal_text(n / 10);
        high.concat(digit_str(n % 10))
    }
}

/// The status field of a report row for `outcome`.
pub fn status_text(outcome: &CheckOutcome) -> (s: String)
    ensures
        s@ == status_of(*outcome),
{
    match outcome {
        CheckOutcome::Success { status_code } => decimal_text(*status_code),
        CheckOutcome::Failure { message } => message.clone(),
    }
}

/// Relies on chrono's `DateTime::<Utc>::from_timestamp`, which gives `None`
/// only where the day number leaves `i32` or chrono's year range (about
/// +-262000) or the nanoseconds reach a second that is no leap second: a
/// well-formed `Timestamp` (year at most 5138, nanoseconds below one second)
/// is never refused. And on `DateTime::to_rfc3339`, which writes the instant
/// with the offset `+00:00`.
#[verifier::external_body]
fn rfc3339(secs: i64, nanos: u32) -> (r: Option<String>)
    ensures
        r is Some ==> r->0@ == rfc3339_text(secs, nanos),
        (Timestamp { secs, nanos }).wf() ==> r is Some,
{
    chrono::DateTime::<chrono::Utc>::from_timestamp(secs, nanos).map(|t| t.to_rfc3339())
}

/// The timestamp field of a report row.
pub fn timestamp_text(t: Timestamp) -> (s: String)
    requires
        t.wf(),
    ensures
        s@ == rfc3339_text(t.secs, t.nanos),
{
    match rfc3339(t.secs, t.nanos) {
        Some(s) => s,
        None => String::new(),
    }
}

/// The report row of one check result.
pub fn report_row(r: &CheckResult) -> (row: ReportRow)
    requires
        r.wf(),
    ensures
        row.fields() == row_fields_of(*r),
{
    ReportRow {
        url: r.url.clone(),
        status: status_text(&r.outcome),
        response_time_ms: r.elapsed_ms,
        timestamp: timestamp_text(r.timestamp),
    }
}

/// The report rows of `results`, one per result, in the same order.
pub fn report_rows(results: &Vec<CheckResult>) -> (rows: Vec<ReportRow>)
    requires
        forall|i: int| 0 <= i < results@.len() ==> (#[trigger] results@[i]).wf(),
    ensures
        all_fields(rows@) == results@.map_values(|r: CheckResult| row_fields_of(r)),
{
    let mut rows: Vec<ReportRow> = Vec::new();
    let mut i: usize = 0;
    while i < results.len()
        invariant
            i <= results@.len(),
            forall|j: int| 0 <= j < results@.len() ==> (#[trigger] results@[j]).wf(),
            rows@.len() == i,
            forall|j: int| 0 <= j < i ==> (#[trigger] rows@[j]).fields() == row_fields_of(results@[j]),
        decreases results@.len() - i,
    {
        let row = report_row(&results[i]);
        rows.push(row);
        i = i + 1;
    }
    assert(all_fields(rows@) =~= results@.map_values(|r: CheckResult| row_fields_of(r)));
    rows
}

/// Relies on serde_json: each row becomes a JSON object of four fields
/// (`Value::Object`, `Value::from`), the rows a `Value::Array`, and the
/// alternate `Display` of `Value` writes it pretty-printed.
#[verifier::external_body]
fn pretty_json(rows: &Vec<ReportRow>) -> (s: String)
    ensures
        s@ == report_json(all_fields(rows@)),
{
    let items: Vec<serde_json::Value> = rows.iter().map(|r| serde_json::Value::Object(serde_json::Map::from_iter([
        ("url".to_string(), serde_json::Value::from(r.url.clone())),
        ("status".to_string(), serde_json::Value::from(r.status.clone())),
        ("response_time_ms".to_string(), serde_json::Value::from(r.response_time_ms)),
        ("timestamp".to_string(), serde_json::Value::from(r.timestamp.clone())),
    ]))).collect();
    format!("{:#}", serde_json::Value::Array(items))
}

/// The JSON report of `results`: an array with one object per result, in
/// the order given.
pub fn render_report(results: &Vec<CheckResult>) -> (s: String)
    requires
        forall|i: int| 0 <= i < results@.len() ==> (#[trigger] results@[i]).wf(),
    ensures
        s@ == report_json(results@.map_values(|r: CheckResult| row_fields_of(r))),
{
    let rows = report_rows(results);
    pretty_json(&rows)
}

/// The status of a reachable URL is a non-empty string of decimal digits.
pub proof fn lemma_success_status_numeric(status_code: u16)
    ensures
        status_of(CheckOutcome::Success { status_code }).len() > 0,
        forall|i: int|
            0 <= i < status_of(CheckOutcome::Success { status_code }).len() ==> is_digit(
                #[trigger] status_of(CheckOutcome::Success { status_code })[i],
            ),
{
    lemma_decimal_digits(status_code as nat);
}

proof fn lemma_decimal_digits(n: nat)
    ensures
        decimal(n).len() > 0,
        forall|i: int| 0 <= i < decimal(n).len() ==> is_digit(#[trigger] decimal(n)[i]),
    decreases n,
{
    if n >= 10 {
        lemma_decimal_digits(n / 10);
        let d = decimal(n / 10).push(digit_char(n % 10));
        assert forall|i: int| 0 <= i < d.len() implies is_digit(#[trigger] d[i]) by {
            if i < d.len() - 1 {
                assert(d[i] == decimal(n / 10)[i]);
            }
        }
    }
}

} // verus!
