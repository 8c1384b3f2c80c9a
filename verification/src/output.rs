//! The results of a run laid out as delimited records, one line to an
//! attempt under a line of headings, and as statistics.

use crate::config::LatencyMonitorError;
use crate::metrics::describes;
use crate::metrics::Statistics;
use crate::text::find_char;
use crate::text::first_place;
use crate::tx::TxResult;
use crate::tx::NANOS_PER_MILLI;
use vstd::prelude::*;
use vstd::string::StrSliceExecFns;
use vstd::string::StringExecFns;

verus! {

/// The character that writes a value below ten.
pub open spec fn digit_char(value: nat) -> char {
    (value + '0' as nat) as char
}

/// A number written in decimal.
pub open spec fn decimal_text(n: nat) -> Seq<char>
    decreases n,
{
    if n < 10 {
        seq![digit_char(n)]
    } else {
        decimal_text(n / 10).push(digit_char(n % 10))
    }
}

/// A number written in decimal, with a minus sign before it where it is
/// negative.
pub open spec fn signed_decimal_text(n: int) -> Seq<char> {
    if n < 0 {
        seq!['-'] + decimal_text((-n) as nat)
    } else {
        decimal_text(n as nat)
    }
}

/// `true` or `false`, written out.
pub open spec fn bool_text(b: bool) -> Seq<char> {
    if b {
        "true"@
    } else {
        "false"@
    }
}

/// The digit that writes `value`, as a string.
fn digit_str(value: u64) -> (text: &'static str)
    requires
        value < 10,
    ensures
        text@ == seq![digit_char(value as nat)],
{
    proof {
        reveal_strlit("0");
        reveal_strlit("1");
        reveal_strlit("2");
        reveal_strlit("3");
        reveal_strlit("4");
        reveal_strlit("5");
        reveal_strlit("6");
        reveal_strlit("7");
        reveal_strlit("8");
        reveal_strlit("9");
    }
    let text = match value {
        0 => "0",
        1 => "1",
        2 => "2",
        3 => "3",
        4 => "4",
        5 => "5",
        6 => "6",
        7 => "7",
        8 => "8",
        _ => "9",
    };
    assert(text@ =~= seq![digit_char(value as nat)]);
    text
}

/// Writes a number in decimal.
pub fn decimal(n: u64) -> (text: String)
    ensures
        text@ == decimal_text(n as nat),
    decreases n,
{
    if n < 10 {
        String::from_str(digit_str(n))
    } else {
        let front = decimal(n / 10);
        let text = front.concat(digit_str(n % 10));
        assert(text@ =~= decimal_text(n as nat));
        text
    }
}

/// Writes a number in decimal, with a minus sign before it where it is
/// negative.
pub fn signed_decimal(n: i64) -> (text: String)
    ensures
        text@ == signed_decimal_text(n as int),
{
    if n < 0 {
        proof {
            reveal_strlit("-");
        }
        let magnitude: u64 = (-(n as i128)) as u64;
        let digits = decimal(magnitude);
        let text = String::from_str("-").concat(digits.as_str());
        assert(text@ =~= signed_decimal_text(n as int));
        text
    } else {
        decimal(n as u64)
    }
}

/// The latency of a result as it stands in a record: nothing for a failure,
/// and for a success the whole milliseconds with two decimal places.
pub open spec fn latency_text(failed: bool, latency: u64) -> Seq<char> {
    if failed {
        Seq::empty()
    } else {
        decimal_text((latency / NANOS_PER_MILLI) as nat) + ".00"@
    }
}

/// What `humantime::format_rfc3339` writes for the instant that lies `nanos`
/// nanoseconds after the Unix epoch.
pub uninterp spec fn rfc3339_text(nanos: u64) -> Seq<char>;

/// Writes an instant, given in nanoseconds since the Unix epoch, as an
/// RFC 3339 timestamp with `humantime::format_rfc3339`. The text depends on
/// the instant alone: it is always in UTC. No instant that the nanoseconds
/// can give lies beyond the year 9999, where the formatting would fail.
#[verifier::external_body]
fn format_rfc3339(nanos: u64) -> (text: String)
    ensures
        text@ == rfc3339_text(nanos),
{
    let since_epoch = std::time::Duration::from_nanos(nanos);
    humantime::format_rfc3339(std::time::UNIX_EPOCH + since_epoch).to_string()
}

/// The part of a timestamp that follows its first `T`, up to the next `T`
/// if there is one; nothing where the timestamp has no `T`.
pub open spec fn time_part(timestamp: Seq<char>) -> Seq<char> {
    match first_place(timestamp, 'T', 0) {
        None => Seq::empty(),
        Some(start) => match first_place(timestamp, 'T', start + 1) {
            None => timestamp.skip(start + 1),
            Some(end) => timestamp.subrange(start + 1, end),
        },
    }
}

/// Cuts the time of day out of a timestamp.
pub fn time_of_timestamp(timestamp: &str) -> (text: String)
    ensures
        text@ == time_part(timestamp@),
{
    let len = timestamp.unicode_len();
    match find_char(timestamp, 'T', 0) {
        None => String::new(),
        Some(start) => match find_char(timestamp, 'T', start + 1) {
            None => String::from_str(timestamp.substring_char(start + 1, len)),
            Some(end) => String::from_str(timestamp.substring_char(start + 1, end)),
        },
    }
}

/// The time of day of an instant, given in nanoseconds since the Unix epoch,
/// as its RFC 3339 timestamp writes it.
pub fn format_time_only(time: u64) -> (text: String)
    ensures
        text@ == time_part(rfc3339_text(time)),
{
    let timestamp = format_rfc3339(time);
    time_of_timestamp(timestamp.as_str())
}

/// The characters of each of `fields`.
pub open spec fn texts_of(fields: Seq<String>) -> Seq<Seq<char>> {
    fields.map_values(|field: String| field@)
}

/// The headings of the record's fields.
pub open spec fn header_fields() -> Seq<Seq<char>> {
    seq![
        "Submit Time"@,
        "Commit Time"@,
        "Latency (ms)"@,
        "Tx Hash"@,
        "Height"@,
        "Failed"@,
        "Error"@,
    ]
}

/// The fields of the record of one result: the instants of submission and
/// of commit as timestamps, the latency, the hash, the height, whether the
/// attempt failed, and the error.
pub open spec fn row_of(result: TxResult) -> Seq<Seq<char>> {
    seq![
        rfc3339_text(result.submit_time),
        rfc3339_text(result.commit_time),
        latency_text(result.failed, result.latency),
        result.tx_hash@,
        signed_decimal_text(result.height as int),
        bool_text(result.failed),
        result.error_msg@,
    ]
}

/// The headings of the record's fields.
pub fn csv_header() -> (fields: Vec<String>)
    ensures
        texts_of(fields@) == header_fields(),
{
    let mut fields: Vec<String> = Vec::new();
    fields.push(String::from_str("Submit Time"));
    fields.push(String::from_str("Commit Time"));
    fields.push(String::from_str("Latency (ms)"));
    fields.push(String::from_str("Tx Hash"));
    fields.push(String::from_str("Height"));
    fields.push(String::from_str("Failed"));
    fields.push(String::from_str("Error"));
    assert(texts_of(fields@) =~= header_fields());
    fields
}

/// The fields of the record of one result.
pub fn csv_row(result: &TxResult) -> (fields: Vec<String>)
    ensures
        texts_of(fields@) == row_of(*result),
{
    let latency = if result.failed {
        String::new()
    } else {
        decimal(result.latency_millis()).concat(".00")
    };
    let failed = if result.failed {
        String::from_str("true")
    } else {
        String::from_str("false")
    };
    let mut fields: Vec<String> = Vec::new();
    fields.push(format_rfc3339(result.submit_time));
    fields.push(format_rfc3339(result.commit_time));
    fields.push(latency);
    fields.push(result.tx_hash.clone());
    fields.push(signed_decimal(result.height));
    fields.push(failed);
    fields.push(result.error_msg.clone());
    assert(texts_of(fields@) =~= row_of(*result));
    fields
}

/// What a `csv::Writer` with the default settings writes for one record of
/// these fields, terminator included, or the text of its error.
pub uninterp spec fn csv_record_bytes(fields: Seq<Seq<char>>) -> Result<Seq<u8>, Seq<char>>;

/// Writes one record with a `csv::Writer` of the default settings into
/// memory and gives the bytes: `Writer::from_writer`, `write_record` and
/// `into_inner`. They depend on the fields alone.
#[verifier::external_body]
fn csv_record(fields: &Vec<String>) -> (r: Result<Vec<u8>, String>)
    ensures
        match r {
            Ok(bytes) => csv_record_bytes(texts_of(fields@)) == Ok::<Seq<u8>, Seq<char>>(bytes@),
            Err(cause) => csv_record_bytes(texts_of(fields@)) == Err::<Seq<u8>, Seq<char>>(
                cause@,
            ),
        },
{
    let mut writer = csv::Writer::from_writer(Vec::new());
    match writer.write_record(fields) {
        Ok(()) => match writer.into_inner() {
            Ok(bytes) => Ok(bytes),
            Err(e) => Err(e.to_string()),
        },
        Err(e) => Err(e.to_string()),
    }
}

/// The records `rows` one after the other as a `csv::Writer` writes them,
/// or the first error among them.
pub open spec fn joined_records(rows: Seq<Seq<Seq<char>>>) -> Result<Seq<u8>, Seq<char>>
    decreases rows.len(),
{
    if rows.len() == 0 {
        Ok(Seq::empty())
    } else {
        match joined_records(rows.drop_last()) {
            Err(cause) => Err(cause),
            Ok(front) => match csv_record_bytes(rows.last()) {
                Err(cause) => Err(cause),
                Ok(bytes) => Ok(front + bytes),
            },
        }
    }
}

/// The rows of the results file: the headings, then one row for each result.
pub open spec fn rows_of(results: Seq<TxResult>) -> Seq<Seq<Seq<char>>> {
    seq![header_fields()] + results.map_values(|r: TxResult| row_of(r))
}

/// The results file for `results`, or the text of the first error that
/// writing a record gave.
pub open spec fn results_file(results: Seq<TxResult>) -> Result<Seq<u8>, Seq<char>> {
    joined_records(rows_of(results))
}

/// Adds one encoded record to the file, or gives the error that encoding it
/// met.
pub fn append_record(file: &mut Vec<u8>, encoded: Result<Vec<u8>, String>) -> (r: Result<
    (),
    LatencyMonitorError,
>)
    ensures
        match encoded {
            Ok(bytes) => r is Ok && final(file)@ == old(file)@ + bytes@,
            Err(cause) => r matches Err(LatencyMonitorError::CsvError(text)) && text@ == cause@
                && final(file)@ == old(file)@,
        },
{
    match encoded {
        Ok(bytes) => {
            let mut bytes = bytes;
            file.append(&mut bytes);
            Ok(())
        },
        Err(cause) => Err(LatencyMonitorError::CsvError(cause)),
    }
}

/// Lays the results out as a file of delimited records.
pub fn write_results_to_csv(results: &[TxResult]) -> (r: Result<Vec<u8>, LatencyMonitorError>)
    ensures
        match results_file(results@) {
            Ok(bytes) => r matches Ok(file) && file@ == bytes,
            Err(cause) => r matches Err(LatencyMonitorError::CsvError(text)) && text@ == cause,
        },
{
    let ghost rows = rows_of(results@);
    let mut file: Vec<u8> = Vec::new();
    let header = csv_header();
    proof {
        assert(rows.take(1).drop_last() =~= Seq::empty());
        assert(rows.take(1).last() == header_fields());
        assert(joined_records(rows.take(1).drop_last()) == Ok::<Seq<u8>, Seq<char>>(
            Seq::empty(),
        ));
    }
    match append_record(&mut file, csv_record(&header)) {
        Err(e) => {
            proof {
                lemma_error_stays(rows, 1);
            }
            return Err(e);
        },
        Ok(_) => {},
    }
    assert(file@ =~= Seq::<u8>::empty() + file@);
    let mut i: usize = 0;
    while i < results.len()
        invariant
            i <= results@.len(),
            rows == rows_of(results@),
            joined_records(rows.take(i + 1)) == Ok::<Seq<u8>, Seq<char>>(file@),
        decreases results@.len() - i,
    {
        let row = csv_row(&results[i]);
        proof {
            assert(rows.take(i + 2).drop_last() =~= rows.take(i + 1));
            assert(rows.take(i + 2).last() == row_of(results@[i as int]));
        }
        match append_record(&mut file, csv_record(&row)) {
            Err(e) => {
                proof {
                    lemma_error_stays(rows, i + 2);
                }
                return Err(e);
            },
            Ok(_) => {},
        }
        i = i + 1;
    }
    assert(rows.take(i + 1) =~= rows);
    Ok(file)
}

/// Once writing the first `n` records has met an error, writing them all
/// meets the same.
proof fn lemma_error_stays(rows: Seq<Seq<Seq<char>>>, n: int)
    requires
        0 <= n <= rows.len(),
        joined_records(rows.take(n)) is Err,
    ensures
        joined_records(rows) == joined_records(rows.take(n)),
    decreases rows.len() - n,
{
    if n < rows.len() {
        assert(rows.take(n + 1).drop_last() =~= rows.take(n));
        lemma_error_stays(rows, n + 1);
    } else {
        assert(rows.take(n) =~= rows);
    }
}

/// Lays the results out as a file of delimited records and computes their
/// statistics.
pub fn output_results(results: &[TxResult]) -> (r: Result<(Vec<u8>, Statistics), LatencyMonitorError>)
    ensures
        match results_file(results@) {
            Ok(bytes) => r matches Ok((file, stats)) && file@ == bytes && describes(
                stats,
                results@.map_values(|r: TxResult| r@),
            ),
            Err(cause) => r matches Err(LatencyMonitorError::CsvError(text)) && text@ == cause,
        },
{
    match write_results_to_csv(results) {
        Err(e) => Err(e),
        Ok(file) => {
            let stats = Statistics::calculate(results);
            Ok((file, stats))
        },
    }
}

} // verus!
