use lumina_latency_monitor::config::LatencyMonitorError;
use lumina_latency_monitor::output::append_record;
use lumina_latency_monitor::output::csv_header;
use lumina_latency_monitor::output::csv_row;
use lumina_latency_monitor::output::decimal;
use lumina_latency_monitor::output::format_time_only;
use lumina_latency_monitor::output::output_results;
use lumina_latency_monitor::output::signed_decimal;
use lumina_latency_monitor::output::time_of_timestamp;
use lumina_latency_monitor::output::write_results_to_csv;
use lumina_latency_monitor::tx::TxResult;

const SECOND: u64 = 1_000_000_000;
const HEADER: &str = "Submit Time,Commit Time,Latency (ms),Tx Hash,Height,Failed,Error\n";

#[test]
fn numbers_are_written_in_decimal() {
    assert_eq!(decimal(0), "0");
    assert_eq!(decimal(7), "7");
    assert_eq!(decimal(10), "10");
    assert_eq!(decimal(1_234_567_890), "1234567890");
    assert_eq!(decimal(u64::MAX), "18446744073709551615");
    assert_eq!(signed_decimal(0), "0");
    assert_eq!(signed_decimal(42), "42");
    assert_eq!(signed_decimal(-42), "-42");
    assert_eq!(signed_decimal(i64::MIN), "-9223372036854775808");
    assert_eq!(signed_decimal(i64::MAX), "9223372036854775807");
}

#[test]
fn the_headings_are_the_seven_fields() {
    assert_eq!(
        csv_header(),
        vec![
            "Submit Time",
            "Commit Time",
            "Latency (ms)",
            "Tx Hash",
            "Height",
            "Failed",
            "Error"
        ]
    );
}

#[test]
fn a_success_is_laid_out_as_a_row() {
    let result = TxResult::success(
        1_518_568_087 * SECOND,
        1_518_568_088 * SECOND + 500_000_000,
        1_500_000_000,
        String::from("ABCD"),
        7,
        123,
    );
    assert_eq!(
        csv_row(&result),
        vec![
            "2018-02-14T00:28:07Z",
            "2018-02-14T00:28:08.500000000Z",
            "1500.00",
            "ABCD",
            "123",
            "false",
            ""
        ]
    );
}

#[test]
fn a_failure_is_laid_out_as_a_row() {
    let result = TxResult::failure(0, String::from("timed out"));
    assert_eq!(
        csv_row(&result),
        vec![
            "1970-01-01T00:00:00Z",
            "1970-01-01T00:00:00Z",
            "",
            "",
            "0",
            "true",
            "timed out"
        ]
    );
}

#[test]
fn results_are_written_as_delimited_records() {
    let results = vec![
        TxResult::success(
            1_518_568_087 * SECOND,
            1_518_568_088 * SECOND,
            SECOND,
            String::from("ABCD"),
            0,
            5,
        ),
        TxResult::failure(1_518_568_087 * SECOND, String::from("rejected, \"badly\"")),
    ];
    let file = write_results_to_csv(&results).unwrap();
    let expected = format!(
        "{}{}{}",
        HEADER,
        "2018-02-14T00:28:07Z,2018-02-14T00:28:08Z,1000.00,ABCD,5,false,\n",
        "2018-02-14T00:28:07Z,1970-01-01T00:00:00Z,,,0,true,\"rejected, \"\"badly\"\"\"\n"
    );
    assert_eq!(String::from_utf8(file).unwrap(), expected);
}

#[test]
fn no_results_give_only_the_headings() {
    let file = write_results_to_csv(&[]).unwrap();
    assert_eq!(String::from_utf8(file).unwrap(), HEADER);
}

#[test]
fn output_gives_the_file_and_the_statistics() {
    let results = vec![
        TxResult::success(0, 2 * SECOND, 2 * SECOND, String::from("A"), 0, 1),
        TxResult::failure(0, String::from("no")),
    ];
    let (file, stats) = output_results(&results).unwrap();
    assert_eq!(file, write_results_to_csv(&results).unwrap());
    assert_eq!(stats.total_count, 2);
    assert_eq!(stats.success_count, 1);
    assert_eq!(stats.failure_count, 1);
    assert_eq!(stats.latency_sum_ms, 2000);
}

#[test]
fn an_encoded_record_is_appended() {
    let mut file = b"ab".to_vec();
    assert!(append_record(&mut file, Ok(b"cd\n".to_vec())).is_ok());
    assert_eq!(file, b"abcd\n");
    match append_record(&mut file, Err(String::from("broken"))) {
        Err(LatencyMonitorError::CsvError(cause)) => assert_eq!(cause, "broken"),
        other => panic!("unexpected outcome: {:?}", other),
    }
    assert_eq!(file, b"abcd\n");
}

#[test]
fn the_time_of_day_is_cut_out() {
    assert_eq!(format_time_only(1_518_568_087 * SECOND), "00:28:07Z");
    assert_eq!(format_time_only(1_518_568_087 * SECOND + 1), "00:28:07.000000001Z");
    assert_eq!(format_time_only(0), "00:00:00Z");
    assert_eq!(time_of_timestamp("2018-02-14T00:28:07Z"), "00:28:07Z");
    assert_eq!(time_of_timestamp("no time here"), "");
    assert_eq!(time_of_timestamp("aTbTc"), "b");
    assert_eq!(time_of_timestamp("T"), "");
    assert_eq!(time_of_timestamp("xT"), "");
    assert_eq!(time_of_timestamp(""), "");
}
