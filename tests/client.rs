use oura::client::{check_response, decode_response, Client, ClientError, Record};
use oura::schema::Json;
use oura::date::{Date, TimeOpts};
use oura::endpoint::Resource;

fn date(y: u32, m: u32, d: u32) -> Date {
    Date::from_ymd(y, m, d).unwrap()
}

#[test]
fn new_keeps_token() {
    let c = Client::new("abc123".to_string());
    assert_eq!(c.token, "abc123");
}

#[test]
fn sleep_url_without_range() {
    let c = Client::new("abc123".to_string());
    let u = c.request_url(Resource::Sleep, None, date(2024, 3, 15)).unwrap();
    assert_eq!(u, "https://api.ouraring.com/v1/sleep?access_token=abc123");
}

#[test]
fn sleep_url_with_defaulted_range() {
    let c = Client::new("abc123".to_string());
    let opts = TimeOpts { start: None, end: None };
    let u = c.request_url(Resource::Sleep, Some(opts), date(2024, 3, 15)).unwrap();
    assert_eq!(
        u,
        "https://api.ouraring.com/v1/sleep?access_token=abc123&start=2024-03-08&end=2024-03-15"
    );
}

#[test]
fn activity_url_with_given_range() {
    let c = Client::new("tok".to_string());
    let opts = TimeOpts { start: Some(date(2023, 12, 30)), end: Some(date(2024, 1, 2)) };
    let u = c.activity(opts, date(2024, 3, 15)).unwrap();
    assert_eq!(
        u,
        "https://api.ouraring.com/v1/activity?access_token=tok&start=2023-12-30&end=2024-01-02"
    );
}

#[test]
fn bedtime_and_userinfo_ignore_range() {
    let c = Client::new("abc123".to_string());
    let opts = TimeOpts { start: None, end: None };
    let u = c.request_url(Resource::Bedtime, Some(opts), date(2024, 3, 15)).unwrap();
    assert_eq!(u, "https://api.ouraring.com/v1/bedtime?access_token=abc123");
    let opts = TimeOpts { start: None, end: None };
    let u = c.request_url(Resource::UserInfo, Some(opts), date(2024, 3, 15)).unwrap();
    assert_eq!(u, "https://api.ouraring.com/v1/userinfo?access_token=abc123");
}

#[test]
fn token_is_percent_encoded() {
    let c = Client::new("a b&c=d".to_string());
    let u = c.request_url(Resource::Readiness, None, date(2024, 3, 15)).unwrap();
    assert_eq!(u, "https://api.ouraring.com/v1/readiness?access_token=a+b%26c%3Dd");
}

#[test]
fn query_params_in_order() {
    let c = Client::new("t".to_string());
    let opts = TimeOpts { start: Some(date(2024, 1, 1)), end: None };
    let p = c.query_params(Resource::Readiness, &Some(opts), date(2024, 2, 29));
    let expected = vec![
        ("access_token".to_string(), "t".to_string()),
        ("start".to_string(), "2024-01-01".to_string()),
        ("end".to_string(), "2024-02-29".to_string()),
    ];
    assert_eq!(p, expected);
}

#[test]
fn status_401_is_http_error() {
    let r = check_response(401, "{\"message\": \"unauthorized\"}".to_string());
    match r {
        Err(ClientError::HttpStatus(s, b)) => {
            assert_eq!(s, 401);
            assert_eq!(b, "{\"message\": \"unauthorized\"}");
        }
        other => panic!("unexpected {:?}", other),
    }
}

#[test]
fn status_200_hands_body_on() {
    let r = check_response(200, "{\"sleep\": [".to_string());
    assert_eq!(r.unwrap(), "{\"sleep\": [");
    assert!(matches!(check_response(299, String::new()), Ok(_)));
    assert!(matches!(check_response(300, String::new()), Err(ClientError::HttpStatus(300, _))));
    assert!(matches!(check_response(199, String::new()), Err(ClientError::HttpStatus(199, _))));
}

#[test]
fn endpoint_table() {
    let e = Resource::UserInfo.endpoint();
    assert_eq!(e.url, "https://api.ouraring.com/v1/userinfo");
    assert!(!e.accepts_range);
    assert_eq!(e.wrapper_key, None);
    let e = Resource::Sleep.endpoint();
    assert_eq!(e.url, "https://api.ouraring.com/v1/sleep");
    assert!(e.accepts_range);
    assert_eq!(e.wrapper_key, Some("sleep"));
    let e = Resource::Readiness.endpoint();
    assert_eq!(e.url, "https://api.ouraring.com/v1/readiness");
    assert!(e.accepts_range);
    assert_eq!(e.wrapper_key, Some("readiness"));
    let e = Resource::Activity.endpoint();
    assert_eq!(e.url, "https://api.ouraring.com/v1/activity");
    assert!(e.accepts_range);
    assert_eq!(e.wrapper_key, Some("activity"));
    let e = Resource::Bedtime.endpoint();
    assert_eq!(e.url, "https://api.ouraring.com/v1/bedtime");
    assert!(!e.accepts_range);
    assert_eq!(e.wrapper_key, Some("ideal_bedtimes"));
}

fn window(start: Json, end: Json) -> Json {
    Json::Object(vec![("start".to_string(), start), ("end".to_string(), end)])
}

#[test]
fn decode_response_dispatches_by_resource() {
    let night = Json::Object(vec![
        ("date".to_string(), Json::Str("2020-03-17".to_string())),
        ("bedtime_window".to_string(), window(Json::Null, Json::Int(1800))),
        ("status".to_string(), Json::Str("IDEAL_BEDTIME_AVAILABLE".to_string())),
    ]);
    let body = Json::Object(vec![("ideal_bedtimes".to_string(), Json::Array(vec![night]))]);
    match decode_response(Resource::Bedtime, &body) {
        Ok(Record::Bedtime(v)) => {
            assert_eq!(v.len(), 1);
            assert_eq!(v[0].bedtime_window.end, Some(1800));
        }
        other => panic!("unexpected {:?}", other),
    }
    match decode_response(Resource::Sleep, &body) {
        Err(ClientError::Decode(r, _)) => assert_eq!(r, Resource::Sleep),
        other => panic!("unexpected {:?}", other),
    }
}

#[test]
fn ok_status_with_bad_body_is_decode_error() {
    let body = check_response(200, "{\"readiness\": 3}".to_string()).unwrap();
    assert_eq!(body, "{\"readiness\": 3}");
    let parsed = Json::Object(vec![("readiness".to_string(), Json::Int(3))]);
    assert!(matches!(
        decode_response(Resource::Readiness, &parsed),
        Err(ClientError::Decode(Resource::Readiness, _))
    ));
    let empty = Json::Object(vec![("readiness".to_string(), Json::Array(vec![]))]);
    assert!(matches!(decode_response(Resource::Readiness, &empty), Ok(Record::Readiness(v)) if v.is_empty()));
}
