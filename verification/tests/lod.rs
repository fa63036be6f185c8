use flightdata::errors::DataError;
use flightdata::lod::{lod_extract, lod_extract_file};
use flightdata::text::parse_axis_index;

fn s(v: &str) -> String {
    v.to_string()
}

fn pair(a: &str, b: &str) -> (String, String) {
    (s(a), s(b))
}

#[test]
fn extract_headers_and_pairs() {
    let data = b"x,y,z\n1,2,3\n4,5\n7,8,9\n";
    let e = lod_extract(data, b',', "0", "1").unwrap();
    assert_eq!(e.headers, vec![s("x"), s("y"), s("z")]);
    assert_eq!(e.x_index, 0);
    assert_eq!(e.y_index, 1);
    assert_eq!(e.pairs, vec![pair("1", "2"), pair("4", "5"), pair("7", "8")]);
}

#[test]
fn extract_skips_rows_too_short_for_an_axis() {
    let data = b"x,y,z\n1,2,3\n4,5\n7,8,9\n";
    let e = lod_extract(data, b',', "0", "2").unwrap();
    assert_eq!(e.pairs, vec![pair("1", "3"), pair("7", "9")]);
}

#[test]
fn unparsable_axis_strings_fall_back_to_zero_and_one() {
    let data = b"x,y,z\n1,2,3\n";
    let e = lod_extract(data, b',', "abc", "").unwrap();
    assert_eq!(e.x_index, 0);
    assert_eq!(e.y_index, 1);
    assert_eq!(e.pairs, vec![pair("1", "2")]);
}

#[test]
fn axis_with_plus_sign_parses() {
    let data = b"x,y,z\n1,2,3\n";
    let e = lod_extract(data, b',', "+2", "0").unwrap();
    assert_eq!(e.x_index, 2);
    assert_eq!(e.y_index, 0);
    assert_eq!(e.pairs, vec![pair("3", "1")]);
}

#[test]
fn axis_beyond_header_width_is_rejected() {
    let data = b"x,y,z\n1,2,3\n";
    let err = lod_extract(data, b',', "5", "1").unwrap_err();
    assert!(matches!(err, DataError::AxisRange));
    assert_eq!(err.message(), "Axis index out of range");
}

#[test]
fn binning_unsupported_for_non_delimited_types() {
    let err = lod_extract_file(b"x", "mat", b',', "0", "1").unwrap_err();
    assert!(matches!(err, DataError::LodUnsupported(ref t) if t == "mat"));
    assert_eq!(err.message(), "LOD not supported for mat");
    let err = lod_extract_file(b"x", "excel", b',', "0", "1").unwrap_err();
    assert_eq!(err.message(), "LOD not supported for excel");
}

#[test]
fn binning_supported_for_delimited_types() {
    let data = b"x,y\n1,2\n";
    let e = lod_extract_file(data, "dat", b',', "0", "1").unwrap();
    assert_eq!(e.pairs, vec![pair("1", "2")]);
}

#[test]
fn axis_index_parsing_rules() {
    assert_eq!(parse_axis_index("42", 0), 42);
    assert_eq!(parse_axis_index("", 7), 7);
    assert_eq!(parse_axis_index("+0", 9), 0);
    assert_eq!(parse_axis_index("+", 3), 3);
    assert_eq!(parse_axis_index("12x", 5), 5);
    assert_eq!(parse_axis_index("-1", 4), 4);
    // a value beyond the integer range falls back as an unparsable string does
    assert_eq!(parse_axis_index("99999999999999999999999999999", 6), 6);
}

#[test]
fn no_numeric_data_message() {
    assert_eq!(DataError::NoNumericData.message(), "No numeric data found");
}

#[test]
fn open_error_message() {
    let err = DataError::Open("no such file".to_string());
    assert_eq!(err.message(), "open error: no such file");
    let err = DataError::Format("bad container".to_string());
    assert_eq!(err.message(), "format error: bad container");
}

#[test]
fn repeated_extractions_yield_identical_results() {
    let data = b"x,y\n1,2\n3,4\n5,6\n";
    let e1 = lod_extract(data, b',', "0", "1").unwrap();
    let e2 = lod_extract(data, b',', "0", "1").unwrap();
    assert_eq!(e1, e2);
}
