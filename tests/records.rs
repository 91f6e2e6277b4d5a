use oura::date::Date;
use oura::schema::{
    decode_activity, decode_activity_period, decode_sleep, decode_sleep_period, decode_user_info,
    Json, Real,
};

fn obj(fields: Vec<(&str, Json)>) -> Json {
    Json::Object(fields.into_iter().map(|(k, v)| (k.to_string(), v)).collect())
}

fn s(t: &str) -> Json {
    Json::Str(t.to_string())
}

fn num(t: &str) -> Json {
    Json::Number(t.to_string())
}

fn is_text(r: &Real, t: &str) -> bool {
    matches!(r, Real::Text(x) if x == t)
}

fn activity_fixture(medium_plus: Option<i64>) -> Json {
    let mut f = vec![
        ("summary_date", s("2016-09-03")),
        ("day_start", s("2016-09-03T04:00:00+03:00")),
        ("day_end", s("2016-09-04T03:59:59+03:00")),
        ("timezone", Json::Int(180)),
        ("score", Json::Int(87)),
        ("score_stay_active", Json::Int(90)),
        ("score_move_every_hour", Json::Int(100)),
        ("score_meet_daily_targets", Json::Int(60)),
        ("score_training_frequency", Json::Int(96)),
        ("score_training_volume", Json::Int(95)),
        ("score_recovery_time", Json::Int(100)),
        ("daily_movement", Json::Int(7806)),
        ("non_wear", Json::Int(313)),
        ("rest", Json::Int(426)),
        ("inactive", Json::Int(429)),
        ("inactivity_alerts", Json::Int(0)),
        ("low", Json::Int(224)),
        ("medium", Json::Int(48)),
        ("high", Json::Int(0)),
        ("steps", Json::Int(9206)),
        ("cal_total", Json::Int(2540)),
        ("cal_active", Json::Int(416)),
        ("met_min_inactive", Json::Int(9)),
        ("met_min_low", Json::Int(167)),
        ("met_min_medium", Json::Int(159)),
        ("met_min_high", Json::Int(0)),
        ("average_met", num("1.4375")),
        ("class_5min", s("1112211111111111111111111111111111111111111111233322322223333323322222220000000000000000000000000000000000000000000000000000000233334444332222222222222322333444432222222221230003233332232222333332333333330002222222233233233222212222222223121121111222111111122212321223211111111111111111")),
        ("met_1min", Json::Array(vec![num("0.9"), Json::Int(1), num("1.2")])),
    ];
    if let Some(m) = medium_plus {
        f.push(("met_min_medium_plus", Json::Int(m)));
    }
    obj(f)
}

#[test]
fn activity_without_medium_plus_defaults_to_zero() {
    let p = decode_activity_period(&activity_fixture(None)).unwrap();
    assert_eq!(p.met_min_medium_plus, 0);
    assert_eq!(p.met_min_medium, 159);
}

#[test]
fn activity_with_medium_plus_keeps_value() {
    let p = decode_activity_period(&activity_fixture(Some(159))).unwrap();
    assert_eq!(p.met_min_medium_plus, 159);
}

#[test]
fn activity_medium_plus_null_fails() {
    let mut v = activity_fixture(None);
    if let Json::Object(f) = &mut v {
        f.push(("met_min_medium_plus".to_string(), Json::Null));
    }
    assert!(decode_activity_period(&v).is_none());
}

#[test]
fn activity_fields_exact() {
    let p = decode_activity_period(&activity_fixture(Some(5))).unwrap();
    assert_eq!(p.summary_date, Date { year: 2016, month: 9, day: 3 });
    assert_eq!(p.day_start, "2016-09-03T04:00:00+03:00");
    assert_eq!(p.day_end, "2016-09-04T03:59:59+03:00");
    assert_eq!(p.timezone, 180);
    assert_eq!(p.score, 87);
    assert_eq!(p.score_stay_active, 90);
    assert_eq!(p.score_move_every_hour, 100);
    assert_eq!(p.score_meet_daily_targets, 60);
    assert_eq!(p.score_training_frequency, 96);
    assert_eq!(p.score_training_volume, 95);
    assert_eq!(p.score_recovery_time, 100);
    assert_eq!(p.daily_movement, 7806);
    assert_eq!(p.non_wear, 313);
    assert_eq!(p.rest, 426);
    assert_eq!(p.inactive, 429);
    assert_eq!(p.inactivity_alerts, 0);
    assert_eq!(p.low, 224);
    assert_eq!(p.medium, 48);
    assert_eq!(p.high, 0);
    assert_eq!(p.steps, 9206);
    assert_eq!(p.cal_total, 2540);
    assert_eq!(p.cal_active, 416);
    assert_eq!(p.met_min_inactive, 9);
    assert_eq!(p.met_min_low, 167);
    assert_eq!(p.met_min_high, 0);
    assert!(is_text(&p.average_met, "1.4375"));
    assert_eq!(p.class_5min.len(), 286);
    assert_eq!(p.met_1min.len(), 3);
    assert!(is_text(&p.met_1min[0], "0.9"));
    assert!(matches!(p.met_1min[1], Real::Whole(1)));
    assert!(is_text(&p.met_1min[2], "1.2"));
}

#[test]
fn activity_list_unwraps_array() {
    let v = obj(vec![("activity", Json::Array(vec![activity_fixture(None), activity_fixture(Some(3))]))]);
    let r = decode_activity(&v).unwrap();
    assert_eq!(r.len(), 2);
    assert_eq!(r[0].met_min_medium_plus, 0);
    assert_eq!(r[1].met_min_medium_plus, 3);
    let v = obj(vec![("activity", Json::Array(vec![activity_fixture(None), s("x")]))]);
    assert!(decode_activity(&v).is_none());
}

#[test]
fn activity_float_where_integer_expected_fails() {
    let mut v = activity_fixture(None);
    if let Json::Object(f) = &mut v {
        f[11].1 = num("7806.5");
    }
    assert!(decode_activity_period(&v).is_none());
}

fn sleep_fixture() -> Json {
    obj(vec![
        ("summary_date", s("2017-11-05")),
        ("period_id", Json::Int(0)),
        ("is_longest", Json::Int(1)),
        ("timezone", Json::Int(120)),
        ("bedtime_start", s("2017-11-06T02:13:19+02:00")),
        ("bedtime_end", s("2017-11-06T08:12:19+02:00")),
        ("score", Json::Int(70)),
        ("score_total", Json::Int(57)),
        ("score_disturbances", Json::Int(83)),
        ("score_efficiency", Json::Int(99)),
        ("score_latency", Json::Int(88)),
        ("score_rem", Json::Int(97)),
        ("score_deep", Json::Int(59)),
        ("score_alignment", Json::Int(31)),
        ("total", Json::Int(20310)),
        ("duration", Json::Int(21540)),
        ("awake", Json::Int(1230)),
        ("light", Json::Int(10260)),
        ("rem", Json::Int(7140)),
        ("deep", Json::Int(2910)),
        ("onset_latency", Json::Int(480)),
        ("restless", Json::Int(39)),
        ("efficiency", Json::Int(94)),
        ("midpoint_time", Json::Int(11010)),
        ("hr_lowest", Json::Int(49)),
        ("hr_average", num("56.375")),
        ("rmssd", Json::Int(54)),
        ("breath_average", num("13.25")),
        ("temperature_delta", num("-0.06")),
        ("hypnogram_5min", s("443432222211222333321112222222222111133333322221112233333333332232222334")),
        ("hr_5min", Json::Array(vec![Json::Int(0), Json::Int(53), Json::Int(51)])),
        ("rmssd_5min", Json::Array(vec![Json::Int(0), Json::Int(0), Json::Int(62)])),
    ])
}

#[test]
fn sleep_fields_exact() {
    let p = decode_sleep_period(&sleep_fixture()).unwrap();
    assert_eq!(p.summary_date, Date { year: 2017, month: 11, day: 5 });
    assert_eq!(p.period_id, 0);
    assert_eq!(p.is_longest, 1);
    assert_eq!(p.timezone, 120);
    assert_eq!(p.bedtime_start, "2017-11-06T02:13:19+02:00");
    assert_eq!(p.bedtime_end, "2017-11-06T08:12:19+02:00");
    assert_eq!(p.score, 70);
    assert_eq!(p.score_total, 57);
    assert_eq!(p.score_disturbances, 83);
    assert_eq!(p.score_efficiency, 99);
    assert_eq!(p.score_latency, 88);
    assert_eq!(p.score_rem, 97);
    assert_eq!(p.score_deep, 59);
    assert_eq!(p.score_alignment, 31);
    assert_eq!(p.total, 20310);
    assert_eq!(p.duration, 21540);
    assert_eq!(p.awake, 1230);
    assert_eq!(p.light, 10260);
    assert_eq!(p.rem, 7140);
    assert_eq!(p.deep, 2910);
    assert_eq!(p.onset_latency, 480);
    assert_eq!(p.restless, 39);
    assert_eq!(p.efficiency, 94);
    assert_eq!(p.midpoint_time, 11010);
    assert_eq!(p.hr_lowest, 49);
    assert!(is_text(&p.hr_average, "56.375"));
    assert_eq!(p.rmssd, 54);
    assert!(is_text(&p.breath_average, "13.25"));
    assert!(is_text(&p.temperature_delta, "-0.06"));
    assert_eq!(p.hypnogram_5min.len(), 72);
    assert_eq!(p.hr_5min, vec![0u8, 53, 51]);
    assert_eq!(p.rmssd_5min, vec![0u16, 0, 62]);
}

#[test]
fn sleep_sample_out_of_range_fails() {
    let mut v = sleep_fixture();
    if let Json::Object(f) = &mut v {
        f[30].1 = Json::Array(vec![Json::Int(300)]);
    }
    assert!(decode_sleep_period(&v).is_none());
    let v = obj(vec![("sleep", Json::Array(vec![sleep_fixture()]))]);
    assert_eq!(decode_sleep(&v).unwrap().len(), 1);
}

#[test]
fn user_info_fields_exact() {
    let v = obj(vec![
        ("age", Json::Int(27)),
        ("weight", num("80.5")),
        ("height", Json::Int(180)),
        ("gender", s("male")),
        ("email", s("john.doe@the.domain")),
        ("extra", Json::Null),
    ]);
    let u = decode_user_info(&v).unwrap();
    assert_eq!(u.age, 27);
    assert!(is_text(&u.weight, "80.5"));
    assert_eq!(u.height, 180);
    assert_eq!(u.gender, "male");
    assert_eq!(u.email, "john.doe@the.domain");
}

#[test]
fn user_info_missing_email_fails() {
    let v = obj(vec![
        ("age", Json::Int(27)),
        ("weight", Json::Int(80)),
        ("height", Json::Int(180)),
        ("gender", s("male")),
    ]);
    assert!(decode_user_info(&v).is_none());
}
