use sql_bridge::jobs::{JobStatus, JobTable};
use sql_bridge::json::{error_payload, status_payload, Json};
use sql_bridge::native::NativeValue;
use sql_bridge::pool::{ConnectConfig, PoolSlot};
use sql_bridge::query::{query_result, Cell};
use sql_bridge::text::parse_unsigned;

fn status(word: &str) -> Json {
    Json::Object(vec![("status".to_string(), Json::Str(word.to_string()))])
}

#[test]
fn query_before_connect_is_offline() {
    let slot: PoolSlot<u32> = PoolSlot::new();
    assert_eq!(slot.checkout(), Err(status("offline")));
    assert_eq!(slot.is_connected(), status("offline"));
}

#[test]
fn pool_lifecycle() {
    let mut slot: PoolSlot<u32> = PoolSlot::new();
    assert_eq!(slot.connect(1), status("ok"));
    assert_eq!(slot.is_connected(), status("online"));
    assert_eq!(slot.checkout(), Ok(&1));
    assert_eq!(slot.connect(2), status("ok"));
    assert_eq!(slot.checkout(), Ok(&2));
    assert_eq!(slot.disconnect(), status("success"));
    assert_eq!(slot.disconnect(), status("offline"));
    assert_eq!(slot.checkout(), Err(status("offline")));
}

#[test]
fn payload_shapes() {
    assert_eq!(status_payload("ok"), status("ok"));
    assert_eq!(
        error_payload("boom".to_string()),
        Json::Object(vec![
            ("status".to_string(), Json::Str("err".to_string())),
            ("data".to_string(), Json::Str("boom".to_string())),
        ])
    );
}

#[test]
fn connect_arguments_fall_back_to_defaults() {
    let c = ConnectConfig::from_args("h", "abc", "u", "p", "d", "x", "", "many");
    assert_eq!(c.host, "h");
    assert_eq!(c.user, "u");
    assert_eq!(c.password, "p");
    assert_eq!(c.database, "d");
    assert_eq!(c.port, 3306);
    assert_eq!(c.timeout_secs, 10);
    assert_eq!(c.min_size, 1);
    assert_eq!(c.max_size, 50);
}

#[test]
fn connect_arguments_are_read() {
    let c = ConnectConfig::from_args("h", "3307", "u", "p", "d", "+30", "2", "8");
    assert_eq!(c.port, 3307);
    assert_eq!(c.timeout_secs, 30);
    assert_eq!(c.min_size, 2);
    assert_eq!(c.max_size, 8);
}

#[test]
fn non_numeric_port_is_default_port() {
    let a = ConnectConfig::from_args("h", "port", "u", "p", "d", "5", "1", "4");
    let b = ConnectConfig::from_args("h", "3306", "u", "p", "d", "5", "1", "4");
    assert_eq!(a, b);
    let c = ConnectConfig::from_args("h", "70000", "u", "p", "d", "5", "1", "4");
    assert_eq!(c, b);
}

#[test]
fn decimal_parsing() {
    assert_eq!(parse_unsigned("0", 10), Some(0));
    assert_eq!(parse_unsigned("+7", 10), Some(7));
    assert_eq!(parse_unsigned("10", 10), Some(10));
    assert_eq!(parse_unsigned("11", 10), None);
    assert_eq!(parse_unsigned("+", 10), None);
    assert_eq!(parse_unsigned("", 10), None);
    assert_eq!(parse_unsigned("-1", 10), None);
    assert_eq!(parse_unsigned("1a", 10), None);
    assert_eq!(parse_unsigned("18446744073709551615", u64::MAX), Some(u64::MAX));
    assert_eq!(parse_unsigned("18446744073709551616", u64::MAX), None);
}

#[test]
fn query_result_shape() {
    let rows = vec![
        vec![
            Cell { value: NativeValue::UInt(1), column_type: 8, binary: false },
            Cell { value: NativeValue::Bytes(b"a".to_vec()), column_type: 253, binary: false },
        ],
        vec![
            Cell { value: NativeValue::Int(-2), column_type: 8, binary: false },
            Cell { value: NativeValue::Null, column_type: 253, binary: false },
        ],
    ];
    let r = query_result(3, &rows);
    let expected = Json::Object(vec![
        ("status".to_string(), Json::Str("ok".to_string())),
        ("affected".to_string(), Json::UInt(3)),
        (
            "rows".to_string(),
            Json::Array(vec![
                Json::Array(vec![Json::UInt(1), Json::Str("a".to_string())]),
                Json::Array(vec![Json::Int(-2), Json::Null]),
            ]),
        ),
    ]);
    assert_eq!(r, expected);
}

#[test]
fn query_result_without_rows() {
    let r = query_result(0, &vec![]);
    let expected = Json::Object(vec![
        ("status".to_string(), Json::Str("ok".to_string())),
        ("affected".to_string(), Json::UInt(0)),
        ("rows".to_string(), Json::Array(vec![])),
    ]);
    assert_eq!(r, expected);
}

#[test]
fn jobs_report_running_then_result() {
    let mut t = JobTable::new();
    let a = t.start();
    let b = t.start();
    assert_eq!((a, b), (0, 1));
    assert_eq!(t.check(a), JobStatus::Running);
    assert_eq!(t.check(b), JobStatus::Running);
    t.complete(b, status("ok"));
    assert_eq!(t.check(a), JobStatus::Running);
    assert_eq!(t.check(b), JobStatus::Completed(status("ok")));
}

#[test]
fn completed_job_polls_the_same_each_time() {
    let mut t = JobTable::new();
    let a = t.start();
    t.complete(a, status("ok"));
    let first = t.check(a);
    let _ = t.start();
    t.complete(a, status("err"));
    assert_eq!(t.check(a), first);
    assert_eq!(t.check(a), JobStatus::Completed(status("ok")));
}

#[test]
fn unknown_job_is_reported() {
    let mut t = JobTable::new();
    assert_eq!(t.check(0), JobStatus::NoSuchJob);
    let a = t.start();
    t.complete(5, status("ok"));
    assert_eq!(t.check(a), JobStatus::Running);
    assert_eq!(t.check_text("0"), JobStatus::Running);
    assert_eq!(t.check_text("1"), JobStatus::NoSuchJob);
    assert_eq!(t.check_text("zero"), JobStatus::NoSuchJob);
}

#[test]
fn many_jobs_complete_in_any_order() {
    let mut t = JobTable::new();
    let ids: Vec<usize> = (0..5).map(|_| t.start()).collect();
    for &i in ids.iter().rev() {
        assert_eq!(t.check(i), JobStatus::Running);
        t.complete(i, Json::UInt(i as u64));
    }
    for &i in &ids {
        assert_eq!(t.check(i), JobStatus::Completed(Json::UInt(i as u64)));
    }
}
