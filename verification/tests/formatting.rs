use frost::csvfmt::{csv_header, csv_record, i32_text, tenths_text};
use frost::rows::PrecipitationRow;
use frost::sql::{batch_rows, escape_quotes, insert_statement, row_values, sql_http_error, sql_state_error};
use frost::text::{prefix_before, str_contains, str_eq, str_lt, suffix_after_last, u64_dec};

fn row(name: &str, tenths: Option<u64>, quality: Option<i32>) -> PrecipitationRow {
    PrecipitationRow {
        station_id: "SN18700".to_string(),
        station_name: name.to_string(),
        el_area: "NO1".to_string(),
        reference_time: "2024-01-01".to_string(),
        precipitation_tenths_mm: tenths,
        quality_code: quality,
    }
}

#[test]
fn decimal_renderings() {
    assert_eq!(u64_dec(0), "0");
    assert_eq!(u64_dec(7), "7");
    assert_eq!(u64_dec(12045), "12045");
    assert_eq!(tenths_text(123), "12.3");
    assert_eq!(tenths_text(30), "3");
    assert_eq!(tenths_text(5), "0.5");
    assert_eq!(tenths_text(0), "0");
    assert_eq!(i32_text(42), "42");
    assert_eq!(i32_text(-2), "-2");
    assert_eq!(i32_text(0), "0");
}

#[test]
fn csv_records_render_fields_in_header_order() {
    let header = csv_header();
    assert_eq!(
        header,
        vec!["station_id", "station_name", "el_area", "reference_time", "precipitation_mm", "quality_code"]
    );
    let rec = csv_record(&row("Oslo - Blindern", Some(123), Some(0)));
    assert_eq!(rec, vec!["SN18700", "Oslo - Blindern", "NO1", "2024-01-01", "12.3", "0"]);
    let empty = csv_record(&row("Oslo - Blindern", None, None));
    assert_eq!(empty[4], "");
    assert_eq!(empty[5], "");
}

#[test]
fn escaping_doubles_single_quotes() {
    assert_eq!(escape_quotes("O'Brien"), "O''Brien");
    assert_eq!(escape_quotes("no quotes"), "no quotes");
    assert_eq!(escape_quotes("''"), "''''");
    assert_eq!(escape_quotes(""), "");
}

#[test]
fn row_values_render_one_tuple() {
    let v = row_values(&row("L'Observatoire", Some(5), None));
    assert_eq!(
        v,
        "('SN18700', 'L''Observatoire', 'NO1', '2024-01-01', 0.5, NULL, CURRENT_TIMESTAMP())"
    );
}

#[test]
fn insert_statement_joins_tuples() {
    let rows = vec![row("A", Some(10), Some(0)), row("B", None, Some(2))];
    let sql = insert_statement("lakehouse", &rows);
    assert_eq!(
        sql,
        "INSERT INTO lakehouse.raw_frost.precipitation (station_id, station_name, el_area, \
         reference_time, precipitation_mm, quality_code, ingested_at) VALUES \
         ('SN18700', 'A', 'NO1', '2024-01-01', 1, 0, CURRENT_TIMESTAMP()), \
         ('SN18700', 'B', 'NO1', '2024-01-01', NULL, 2, CURRENT_TIMESTAMP())"
    );
}

#[test]
fn batching_splits_at_the_given_size() {
    let rows: Vec<PrecipitationRow> = (0..7).map(|_| row("A", None, None)).collect();
    let batches = batch_rows(&rows, 3);
    assert_eq!(batches.len(), 3);
    assert_eq!(batches[0].len(), 3);
    assert_eq!(batches[1].len(), 3);
    assert_eq!(batches[2].len(), 1);
    let empty = batch_rows(&Vec::new(), 3);
    assert_eq!(empty.len(), 0);
}

#[test]
fn sql_response_decisions() {
    assert!(sql_http_error(200, "").is_none());
    assert_eq!(sql_http_error(500, "boom").unwrap(), "HTTP 500: boom");
    assert!(sql_state_error(Some("SUCCEEDED".to_string()), None).is_none());
    assert!(sql_state_error(None, Some("x".to_string())).is_none());
    assert_eq!(
        sql_state_error(Some("FAILED".to_string()), Some("bad grant".to_string())).unwrap(),
        "bad grant"
    );
    assert_eq!(
        sql_state_error(Some("FAILED".to_string()), None).unwrap(),
        "Unknown SQL error"
    );
}

#[test]
fn text_utilities() {
    assert!(str_eq("abc", "abc"));
    assert!(!str_eq("abc", "abd"));
    assert!(!str_eq("abc", "ab"));
    assert!(str_contains("Møre og Romsdal", "og"));
    assert!(!str_contains("Møre", "og"));
    assert!(str_contains("anything", ""));
    assert!(str_lt("2024-01-01", "2024-01-02"));
    assert!(!str_lt("2024-01-02", "2024-01-02"));
    assert!(str_lt("abc", "abcd"));
    assert_eq!(prefix_before("SN18700:0", ':'), "SN18700");
    assert_eq!(prefix_before("SN18700", ':'), "SN18700");
    assert_eq!(prefix_before("2024-01-01T06:00:00.000Z", 'T'), "2024-01-01");
    assert_eq!(suffix_after_last("/sql/1.0/warehouses/abc", '/'), "abc");
    assert_eq!(suffix_after_last("abc", '/'), "abc");
}
