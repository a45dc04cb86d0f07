use request_stats::codec::{encode_duration, encode_fields};
use request_stats::digits::u64_to_string;
use request_stats::record::{LogPacket, TimeVal};

fn packet(url: &str, ip: &str, status: Option<u16>, start: TimeVal, timing: TimeVal) -> LogPacket {
    LogPacket::new(url.to_owned(), ip.to_owned(), status, start, timing)
}

#[test]
fn decimal_rendering() {
    assert_eq!(u64_to_string(0), "0");
    assert_eq!(u64_to_string(7), "7");
    assert_eq!(u64_to_string(10), "10");
    assert_eq!(u64_to_string(200), "200");
    assert_eq!(u64_to_string(1234567890), "1234567890");
    assert_eq!(u64_to_string(u64::MAX), "18446744073709551615");
}

#[test]
fn duration_formatting() {
    assert_eq!(encode_duration(&TimeVal::new(5, 0)), "5.0");
    assert_eq!(encode_duration(&TimeVal::new(0, 5_000_000)), "0.5000000");
    assert_eq!(encode_duration(&TimeVal::new(1, 999_999_999)), "1.999999999");
    assert_eq!(encode_duration(&TimeVal::new(100, 1)), "100.1");
}

#[test]
fn field_order_and_content() {
    let p = packet(
        "/a",
        "127.0.0.1:8080",
        Some(200),
        TimeVal::new(100, 1),
        TimeVal::new(0, 5_000_000),
    );
    let fields = encode_fields(&p);
    assert_eq!(
        fields,
        vec![
            "/a".to_owned(),
            "127.0.0.1:8080".to_owned(),
            "200".to_owned(),
            "100.1".to_owned(),
            "0.5000000".to_owned(),
        ]
    );
}

#[test]
fn absent_status_is_empty_field() {
    let p = packet("/x", "10.0.0.1:1234", None, TimeVal::new(7, 0), TimeVal::new(0, 0));
    let fields = encode_fields(&p);
    assert_eq!(fields[2], "");
    assert_eq!(fields.len(), 5);
}

#[test]
fn encode_produces_csv_row() {
    let p = packet(
        "/a",
        "127.0.0.1:8080",
        Some(200),
        TimeVal::new(100, 1),
        TimeVal::new(0, 5_000_000),
    );
    let row = p.encode();
    assert_eq!(row, b"/a,127.0.0.1:8080,200,100.1,0.5000000\n".to_vec());
}

#[test]
fn encode_quotes_fields_that_need_it() {
    let p = packet(
        "/a?list=x,y",
        "127.0.0.1:8080",
        Some(200),
        TimeVal::new(100, 1),
        TimeVal::new(0, 5_000_000),
    );
    let row = p.encode();
    assert_eq!(row, b"\"/a?list=x,y\",127.0.0.1:8080,200,100.1,0.5000000\n".to_vec());
}

#[test]
fn encoding_is_deterministic() {
    let p = packet(
        "/same",
        "192.168.0.9:443",
        Some(500),
        TimeVal::new(1234, 567),
        TimeVal::new(2, 300),
    );
    let first = p.encode();
    let second = p.encode();
    assert_eq!(first, second);
}

#[test]
fn duration_field_ignores_wall_clock() {
    let timing = TimeVal::new(0, 2_000_000);
    let early = packet("/b", "1.1.1.1:1", Some(404), TimeVal::new(1000, 0), timing);
    let late = packet("/b", "1.1.1.1:1", Some(404), TimeVal::new(999, 999_999_999), timing);
    let early_fields = encode_fields(&early);
    let late_fields = encode_fields(&late);
    assert_eq!(early_fields[4], late_fields[4]);
    assert_eq!(early_fields[4], "0.2000000");
}
