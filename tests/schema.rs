use oura::date::Date;
use oura::schema::{
    decode_bedtime, decode_ideal_bedtimes, decode_readiness, decode_readiness_period,
    decode_window, BedtimeWindow, Json,
};

fn obj(fields: Vec<(&str, Json)>) -> Json {
    Json::Object(fields.into_iter().map(|(k, v)| (k.to_string(), v)).collect())
}

fn s(t: &str) -> Json {
    Json::Str(t.to_string())
}

fn readiness_fixture() -> Json {
    obj(vec![
        ("summary_date", s("2016-09-03")),
        ("period_id", Json::Int(0)),
        ("score", Json::Int(62)),
        ("score_previous_night", Json::Int(5)),
        ("score_sleep_balance", Json::Int(75)),
        ("score_previous_day", Json::Int(61)),
        ("score_activity_balance", Json::Int(77)),
        ("score_resting_hr", Json::Int(98)),
        ("score_hrv_balance", Json::Int(90)),
        ("score_recovery_index", Json::Int(45)),
        ("score_temperature", Json::Int(86)),
    ])
}

#[test]
fn window_start_null() {
    let v = obj(vec![("start", Json::Null), ("end", Json::Int(1800))]);
    assert_eq!(decode_window(&v), Some(BedtimeWindow { start: None, end: Some(1800) }));
}

#[test]
fn window_end_null() {
    let v = obj(vec![("start", Json::Int(1200)), ("end", Json::Null)]);
    assert_eq!(decode_window(&v), Some(BedtimeWindow { start: Some(1200), end: None }));
}

#[test]
fn window_both_null() {
    let v = obj(vec![("start", Json::Null), ("end", Json::Null)]);
    assert_eq!(decode_window(&v), Some(BedtimeWindow { start: None, end: None }));
}

#[test]
fn window_rejects_wrong_types() {
    let v = obj(vec![("start", s("1200")), ("end", Json::Null)]);
    assert_eq!(decode_window(&v), None);
    let v = obj(vec![("start", Json::Int(1 << 40)), ("end", Json::Null)]);
    assert_eq!(decode_window(&v), None);
    assert_eq!(decode_window(&Json::Null), None);
}

#[test]
fn readiness_period_fields_exact() {
    let p = decode_readiness_period(&readiness_fixture()).unwrap();
    assert_eq!(p.summary_date, Date { year: 2016, month: 9, day: 3 });
    assert_eq!(p.period_id, 0);
    assert_eq!(p.score, 62);
    assert_eq!(p.score_previous_night, 5);
    assert_eq!(p.score_sleep_balance, 75);
    assert_eq!(p.score_previous_day, 61);
    assert_eq!(p.score_activity_balance, 77);
    assert_eq!(p.score_resting_hr, 98);
    assert_eq!(p.score_hrv_balance, 90);
    assert_eq!(p.score_recovery_index, 45);
    assert_eq!(p.score_temperature, 86);
}

#[test]
fn readiness_period_missing_or_wrong_field_fails() {
    let mut v = readiness_fixture();
    if let Json::Object(f) = &mut v {
        f.retain(|(k, _)| k != "score_temperature");
    }
    assert_eq!(decode_readiness_period(&v), None);
    let mut v = readiness_fixture();
    if let Json::Object(f) = &mut v {
        f[2].1 = Json::Int(256);
    }
    assert_eq!(decode_readiness_period(&v), None);
    let mut v = readiness_fixture();
    if let Json::Object(f) = &mut v {
        f[0].1 = s("2016-02-30");
    }
    assert_eq!(decode_readiness_period(&v), None);
}

#[test]
fn readiness_list_ignores_extra_keys() {
    let mut item = readiness_fixture();
    if let Json::Object(f) = &mut item {
        f.push(("unknown_key".to_string(), Json::Bool(true)));
    }
    let v = obj(vec![("readiness", Json::Array(vec![readiness_fixture(), item]))]);
    let r = decode_readiness(&v).unwrap();
    assert_eq!(r.len(), 2);
    assert_eq!(r[1].score, 62);
    let empty = obj(vec![("readiness", Json::Array(vec![]))]);
    assert_eq!(decode_readiness(&empty), Some(vec![]));
    let bare = Json::Array(vec![readiness_fixture()]);
    assert_eq!(decode_readiness(&bare), None);
    let bad = obj(vec![("readiness", Json::Array(vec![readiness_fixture(), Json::Null]))]);
    assert_eq!(decode_readiness(&bad), None);
}

fn bedtime_fixture(start: Json, end: Json) -> Json {
    obj(vec![
        ("date", s("2020-03-17")),
        ("bedtime_window", obj(vec![("start", start), ("end", end)])),
        ("status", s("IDEAL_BEDTIME_AVAILABLE")),
    ])
}

#[test]
fn ideal_bedtimes_fields_exact() {
    let b = decode_ideal_bedtimes(&bedtime_fixture(Json::Int(-3600), Json::Int(0))).unwrap();
    assert_eq!(b.date, Date { year: 2020, month: 3, day: 17 });
    assert_eq!(b.bedtime_window, BedtimeWindow { start: Some(-3600), end: Some(0) });
    assert_eq!(b.status, "IDEAL_BEDTIME_AVAILABLE");
}

#[test]
fn bedtime_list_decodes_each_night() {
    let v = obj(vec![(
        "ideal_bedtimes",
        Json::Array(vec![
            bedtime_fixture(Json::Null, Json::Int(1800)),
            bedtime_fixture(Json::Null, Json::Null),
        ]),
    )]);
    let r = decode_bedtime(&v).unwrap();
    assert_eq!(r.len(), 2);
    assert_eq!(r[0].bedtime_window, BedtimeWindow { start: None, end: Some(1800) });
    assert_eq!(r[1].bedtime_window, BedtimeWindow { start: None, end: None });
    let missing = obj(vec![("bedtime", Json::Array(vec![]))]);
    assert!(decode_bedtime(&missing).is_none());
}
