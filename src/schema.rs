use vstd::prelude::*;
use vstd::string::StringExecFns;
use vstd::utf8::encode_utf8;
use crate::date::{Date, date_of_bytes, lemma_text_parses_back};

verus! {

/// A JSON value as the vendor sends it. A number that is a whole number within
/// `i64` is an `Int`; any other number keeps the text it was written with.
#[derive(Debug)]
pub enum Json {
    Null,
    Bool(bool),
    Int(i64),
    Number(String),
    Str(String),
    Array(Vec<Json>),
    Object(Vec<(String, Json)>),
}

/// The value under `key` from index `i` on: the first one, where keys repeat.
pub open spec fn lookup_from(fields: Seq<(String, Json)>, key: Seq<char>, i: int) -> Option<Json>
    decreases fields.len() - i,
{
    if i < 0 || i >= fields.len() {
        None
    } else if fields[i].0@ == key {
        Some(fields[i].1)
    } else {
        lookup_from(fields, key, i + 1)
    }
}

pub open spec fn lookup(fields: Seq<(String, Json)>, key: Seq<char>) -> Option<Json> {
    lookup_from(fields, key, 0)
}

/// A present integer within `lo..=hi`.
pub open spec fn int_of(v: Option<Json>, lo: int, hi: int) -> Option<int> {
    match v {
        Some(Json::Int(n)) => if lo <= n <= hi {
            Some(n as int)
        } else {
            None
        },
        _ => None,
    }
}

/// A nullable integer within `lo..=hi`: missing or null is absent, and
/// anything else but such an integer fails.
pub open spec fn nullable_int_of(v: Option<Json>, lo: int, hi: int) -> Option<Option<int>> {
    match v {
        None => Some(None),
        Some(Json::Null) => Some(None),
        Some(Json::Int(n)) => if lo <= n <= hi {
            Some(Some(n as int))
        } else {
            None
        },
        _ => None,
    }
}

/// A present string.
pub open spec fn str_of(v: Option<Json>) -> Option<Seq<char>> {
    match v {
        Some(Json::Str(s)) => Some(s@),
        _ => None,
    }
}

/// A present string that writes a date `YYYY-MM-DD`.
pub open spec fn date_of(v: Option<Json>) -> Option<Date> {
    match v {
        Some(Json::Str(s)) => date_of_bytes(encode_utf8(s@)),
        _ => None,
    }
}

/// The value under `key`.
pub fn get<'a>(fields: &'a Vec<(String, Json)>, key: &str) -> (r: Option<&'a Json>)
    ensures
        r matches Some(x) ==> lookup(fields@, key@) == Some(*x),
        r is None ==> lookup(fields@, key@) is None,
{
    let k = String::from_str(key);
    let mut i: usize = 0;
    while i < fields.len()
        invariant
            i <= fields@.len(),
            k@ == key@,
            lookup_from(fields@, key@, i as int) == lookup(fields@, key@),
        decreases fields@.len() - i,
    {
        if fields[i].0 == k {
            return Some(&fields[i].1);
        }
        i = i + 1;
    }
    None
}

/// The integer under `key`, where it lies within `lo..=hi`.
pub fn get_int(fields: &Vec<(String, Json)>, key: &str, lo: i64, hi: i64) -> (r: Option<i64>)
    ensures
        r matches Some(n) ==> int_of(lookup(fields@, key@), lo as int, hi as int) == Some(n as int),
        r is None ==> int_of(lookup(fields@, key@), lo as int, hi as int) is None,
{
    match get(fields, key) {
        Some(Json::Int(n)) => if lo <= *n && *n <= hi {
            Some(*n)
        } else {
            None
        },
        _ => None,
    }
}

/// The nullable integer under `key`.
pub fn get_nullable_int(fields: &Vec<(String, Json)>, key: &str, lo: i64, hi: i64) -> (r: Option<
    Option<i64>,
>)
    ensures
        r matches Some(Some(n)) ==> nullable_int_of(lookup(fields@, key@), lo as int, hi as int)
            == Some(Some(n as int)),
        r matches Some(None) ==> nullable_int_of(lookup(fields@, key@), lo as int, hi as int)
            == Some(None::<int>),
        r is None ==> nullable_int_of(lookup(fields@, key@), lo as int, hi as int) is None,
{
    match get(fields, key) {
        None => Some(None),
        Some(Json::Null) => Some(None),
        Some(Json::Int(n)) => if lo <= *n && *n <= hi {
            Some(Some(*n))
        } else {
            None
        },
        _ => None,
    }
}

/// The string under `key`.
pub fn get_str(fields: &Vec<(String, Json)>, key: &str) -> (r: Option<String>)
    ensures
        r matches Some(s) ==> str_of(lookup(fields@, key@)) == Some(s@),
        r is None ==> str_of(lookup(fields@, key@)) is None,
{
    match get(fields, key) {
        Some(Json::Str(s)) => Some(s.clone()),
        _ => None,
    }
}

/// The date under `key`.
pub fn get_date(fields: &Vec<(String, Json)>, key: &str) -> (r: Option<Date>)
    ensures
        r == date_of(lookup(fields@, key@)),
{
    match get(fields, key) {
        Some(Json::Str(s)) => Date::parse(s.as_str()),
        _ => None,
    }
}


/// An unsigned byte under `key`.
pub open spec fn u8_field(f: Seq<(String, Json)>, key: Seq<char>) -> Option<int> {
    int_of(lookup(f, key), 0, 255)
}

/// Start and end offsets of an ideal bedtime, each of which may be absent on
/// its own.
#[derive(Clone, Copy, Debug, PartialEq, Eq, Structural)]
pub struct BedtimeWindow {
    pub start: Option<i32>,
    pub end: Option<i32>,
}

pub open spec fn opt_i32(v: Option<int>) -> Option<i32> {
    match v {
        Some(n) => Some(n as i32),
        None => None,
    }
}

/// The bedtime window that a JSON object gives.
pub open spec fn window_of(v: Json) -> Option<BedtimeWindow> {
    match v {
        Json::Object(f) => {
            let s = nullable_int_of(lookup(f@, "start"@), i32::MIN as int, i32::MAX as int);
            let e = nullable_int_of(lookup(f@, "end"@), i32::MIN as int, i32::MAX as int);
            if s is Some && e is Some {
                Some(BedtimeWindow { start: opt_i32(s->0), end: opt_i32(e->0) })
            } else {
                None
            }
        },
        _ => None,
    }
}

fn to_opt_i32(v: Option<i64>) -> (r: Option<i32>)
    requires
        v matches Some(n) ==> i32::MIN <= n <= i32::MAX,
    ensures
        r == opt_i32(match v {
            Some(n) => Some(n as int),
            None => None,
        }),
{
    match v {
        Some(n) => Some(n as i32),
        None => None,
    }
}

/// Reads a bedtime window: `start` and `end`, each a 32-bit integer, null, or
/// missing.
pub fn decode_window(v: &Json) -> (r: Option<BedtimeWindow>)
    ensures
        r == window_of(*v),
{
    match v {
        Json::Object(f) => {
            let s = match get_nullable_int(f, "start", i32::MIN as i64, i32::MAX as i64) {
                Some(x) => x,
                None => return None,
            };
            let e = match get_nullable_int(f, "end", i32::MIN as i64, i32::MAX as i64) {
                Some(x) => x,
                None => return None,
            };
            Some(BedtimeWindow { start: to_opt_i32(s), end: to_opt_i32(e) })
        },
        _ => None,
    }
}

/// One day's readiness: its date, the period and the sub-scores.
#[derive(Clone, Copy, Debug, PartialEq, Eq, Structural)]
pub struct ReadinessPeriod {
    pub summary_date: Date,
    pub period_id: u8,
    pub score: u8,
    pub score_previous_night: u8,
    pub score_sleep_balance: u8,
    pub score_previous_day: u8,
    pub score_activity_balance: u8,
    pub score_resting_hr: u8,
    pub score_hrv_balance: u8,
    pub score_recovery_index: u8,
    pub score_temperature: u8,
}

/// The readiness period that a JSON object gives.
pub open spec fn readiness_period_of(v: Json) -> Option<ReadinessPeriod> {
    match v {
        Json::Object(fs) => {
            let f = fs@;
            if date_of(lookup(f, "summary_date"@)) is Some
                && u8_field(f, "period_id"@) is Some
                && u8_field(f, "score"@) is Some
                && u8_field(f, "score_previous_night"@) is Some
                && u8_field(f, "score_sleep_balance"@) is Some
                && u8_field(f, "score_previous_day"@) is Some
                && u8_field(f, "score_activity_balance"@) is Some
                && u8_field(f, "score_resting_hr"@) is Some
                && u8_field(f, "score_hrv_balance"@) is Some
                && u8_field(f, "score_recovery_index"@) is Some
                && u8_field(f, "score_temperature"@) is Some {
                Some(ReadinessPeriod {
                    summary_date: date_of(lookup(f, "summary_date"@))->0,
                    period_id: u8_field(f, "period_id"@)->0 as u8,
                    score: u8_field(f, "score"@)->0 as u8,
                    score_previous_night: u8_field(f, "score_previous_night"@)->0 as u8,
                    score_sleep_balance: u8_field(f, "score_sleep_balance"@)->0 as u8,
                    score_previous_day: u8_field(f, "score_previous_day"@)->0 as u8,
                    score_activity_balance: u8_field(f, "score_activity_balance"@)->0 as u8,
                    score_resting_hr: u8_field(f, "score_resting_hr"@)->0 as u8,
                    score_hrv_balance: u8_field(f, "score_hrv_balance"@)->0 as u8,
                    score_recovery_index: u8_field(f, "score_recovery_index"@)->0 as u8,
                    score_temperature: u8_field(f, "score_temperature"@)->0 as u8,
                })
            } else {
                None
            }
        },
        _ => None,
    }
}

/// Reads one readiness period; every field is required.
pub fn decode_readiness_period(v: &Json) -> (r: Option<ReadinessPeriod>)
    ensures
        r == readiness_period_of(*v),
{
    match v {
        Json::Object(f) => {
            let summary_date = match get_date(f, "summary_date") {
                Some(d) => d,
                None => return None,
            };
            let period_id = match get_int(f, "period_id", 0, 255) {
                Some(n) => n as u8,
                None => return None,
            };
            let score = match get_int(f, "score", 0, 255) {
                Some(n) => n as u8,
                None => return None,
            };
            let score_previous_night = match get_int(f, "score_previous_night", 0, 255) {
                Some(n) => n as u8,
                None => return None,
            };
            let score_sleep_balance = match get_int(f, "score_sleep_balance", 0, 255) {
                Some(n) => n as u8,
                None => return None,
            };
            let score_previous_day = match get_int(f, "score_previous_day", 0, 255) {
                Some(n) => n as u8,
                None => return None,
            };
            let score_activity_balance = match get_int(f, "score_activity_balance", 0, 255) {
                Some(n) => n as u8,
                None => return None,
            };
            let score_resting_hr = match get_int(f, "score_resting_hr", 0, 255) {
                Some(n) => n as u8,
                None => return None,
            };
            let score_hrv_balance = match get_int(f, "score_hrv_balance", 0, 255) {
                Some(n) => n as u8,
                None => return None,
            };
            let score_recovery_index = match get_int(f, "score_recovery_index", 0, 255) {
                Some(n) => n as u8,
                None => return None,
            };
            let score_temperature = match get_int(f, "score_temperature", 0, 255) {
                Some(n) => n as u8,
                None => return None,
            };
            Some(ReadinessPeriod { summary_date, period_id, score, score_previous_night, score_sleep_balance, score_previous_day, score_activity_balance, score_resting_hr, score_hrv_balance, score_recovery_index, score_temperature })
        },
        _ => None,
    }
}


/// One night's ideal bedtime: its date, the window and the vendor's status.
#[derive(Debug)]
pub struct IdealBedtimes {
    pub date: Date,
    pub bedtime_window: BedtimeWindow,
    pub status: String,
}

pub struct IdealBedtimesView {
    pub date: Date,
    pub bedtime_window: BedtimeWindow,
    pub status: Seq<char>,
}

impl View for IdealBedtimes {
    type V = IdealBedtimesView;

    open spec fn view(&self) -> IdealBedtimesView {
        IdealBedtimesView { date: self.date, bedtime_window: self.bedtime_window, status: self.status@ }
    }
}

/// The ideal bedtime that a JSON object gives.
pub open spec fn ideal_bedtimes_of(v: Json) -> Option<IdealBedtimesView> {
    match v {
        Json::Object(fs) => {
            let f = fs@;
            let w = lookup(f, "bedtime_window"@);
            if date_of(lookup(f, "date"@)) is Some && w is Some && window_of(w->0) is Some && str_of(
                lookup(f, "status"@),
            ) is Some {
                Some(
                    IdealBedtimesView {
                        date: date_of(lookup(f, "date"@))->0,
                        bedtime_window: window_of(w->0)->0,
                        status: str_of(lookup(f, "status"@))->0,
                    },
                )
            } else {
                None
            }
        },
        _ => None,
    }
}

/// Reads one ideal bedtime; every field is required.
pub fn decode_ideal_bedtimes(v: &Json) -> (r: Option<IdealBedtimes>)
    ensures
        r matches Some(b) ==> ideal_bedtimes_of(*v) == Some(b@),
        r is None ==> ideal_bedtimes_of(*v) is None,
{
    match v {
        Json::Object(f) => {
            let date = match get_date(f, "date") {
                Some(d) => d,
                None => return None,
            };
            let bedtime_window = match get(f, "bedtime_window") {
                Some(w) => match decode_window(w) {
                    Some(w) => w,
                    None => return None,
                },
                None => return None,
            };
            let status = match get_str(f, "status") {
                Some(s) => s,
                None => return None,
            };
            Some(IdealBedtimes { date, bedtime_window, status })
        },
        _ => None,
    }
}

/// Each item read by `f`, where every one of them reads.
pub open spec fn all_of<T>(items: Seq<Json>, f: spec_fn(Json) -> Option<T>) -> Option<Seq<T>>
    decreases items.len(),
{
    if items.len() == 0 {
        Some(Seq::empty())
    } else {
        let init = all_of(items.drop_last(), f);
        let x = f(items.last());
        if init is Some && x is Some {
            Some(init->0.push(x->0))
        } else {
            None
        }
    }
}

/// The items of the array under `key` of an object, each read by `f`.
pub open spec fn list_under<T>(v: Json, key: Seq<char>, f: spec_fn(Json) -> Option<T>) -> Option<
    Seq<T>,
> {
    match v {
        Json::Object(fs) => match lookup(fs@, key) {
            Some(Json::Array(items)) => all_of(items@, f),
            _ => None,
        },
        _ => None,
    }
}

proof fn lemma_all_of_fails_on<T>(s: Seq<Json>, k: int, j: int, f: spec_fn(Json) -> Option<T>)
    requires
        0 <= k <= j <= s.len(),
        all_of(s.take(k), f) is None,
    ensures
        all_of(s.take(j), f) is None,
    decreases j - k,
{
    if j > k {
        lemma_all_of_fails_on(s, k, j - 1, f);
        assert(s.take(j).drop_last() =~= s.take(j - 1));
    }
}

/// The array under `key` of an object.
fn array_under<'a>(v: &'a Json, key: &str) -> (r: Option<&'a Vec<Json>>)
    ensures
        r matches Some(items) ==> (v matches Json::Object(fs) && lookup(fs@, key@) == Some(
            Json::Array(*items),
        )),
        r is None ==> !(v matches Json::Object(fs) && lookup(fs@, key@) matches Some(Json::Array(_))),
{
    match v {
        Json::Object(f) => match get(f, key) {
            Some(Json::Array(items)) => Some(items),
            _ => None,
        },
        _ => None,
    }
}

/// Reads a readiness response: the periods listed under `readiness`.
pub fn decode_readiness(v: &Json) -> (r: Option<Vec<ReadinessPeriod>>)
    ensures
        r matches Some(x) ==> list_under(*v, "readiness"@, |j: Json| readiness_period_of(j))
            == Some(x@),
        r is None ==> list_under(*v, "readiness"@, |j: Json| readiness_period_of(j)) is None,
{
    let ghost f = |j: Json| readiness_period_of(j);
    let items = match array_under(v, "readiness") {
        Some(items) => items,
        None => return None,
    };
    let mut out: Vec<ReadinessPeriod> = Vec::new();
    let mut i: usize = 0;
    while i < items.len()
        invariant
            f == (|j: Json| readiness_period_of(j)),
            v matches Json::Object(fs) && lookup(fs@, "readiness"@) == Some(Json::Array(*items)),
            i <= items@.len(),
            all_of(items@.take(i as int), f) == Some(out@),
        decreases items@.len() - i,
    {
        assert(items@.take(i + 1).drop_last() =~= items@.take(i as int));
        assert(items@.take(i + 1).last() == items@[i as int]);
        match decode_readiness_period(&items[i]) {
            Some(p) => out.push(p),
            None => {
                proof {
                    assert(items@.take(i + 1).last() == items@[i as int]);
                    lemma_all_of_fails_on(items@, i + 1, items@.len() as int, f);
                    assert(items@.take(items@.len() as int) =~= items@);
                }
                return None;
            },
        }
        i = i + 1;
    }
    assert(items@.take(items@.len() as int) =~= items@);
    Some(out)
}

/// Reads an ideal bedtime response: the nights listed under `ideal_bedtimes`.
pub fn decode_bedtime(v: &Json) -> (r: Option<Vec<IdealBedtimes>>)
    ensures
        r matches Some(x) ==> list_under(*v, "ideal_bedtimes"@, |j: Json| ideal_bedtimes_of(j))
            == Some(x@.map_values(|b: IdealBedtimes| b@)),
        r is None ==> list_under(*v, "ideal_bedtimes"@, |j: Json| ideal_bedtimes_of(j)) is None,
{
    let ghost f = |j: Json| ideal_bedtimes_of(j);
    let items = match array_under(v, "ideal_bedtimes") {
        Some(items) => items,
        None => return None,
    };
    let mut out: Vec<IdealBedtimes> = Vec::new();
    let mut i: usize = 0;
    while i < items.len()
        invariant
            f == (|j: Json| ideal_bedtimes_of(j)),
            v matches Json::Object(fs) && lookup(fs@, "ideal_bedtimes"@) == Some(Json::Array(*items)),
            i <= items@.len(),
            all_of(items@.take(i as int), f) == Some(out@.map_values(|b: IdealBedtimes| b@)),
        decreases items@.len() - i,
    {
        assert(items@.take(i + 1).drop_last() =~= items@.take(i as int));
        assert(items@.take(i + 1).last() == items@[i as int]);
        match decode_ideal_bedtimes(&items[i]) {
            Some(p) => {
                let ghost before = out@;
                out.push(p);
                assert(out@.map_values(|b: IdealBedtimes| b@) =~= before.map_values(
                    |b: IdealBedtimes| b@,
                ).push(p@));
            },
            None => {
                proof {
                    assert(items@.take(i + 1).last() == items@[i as int]);
                    lemma_all_of_fails_on(items@, i + 1, items@.len() as int, f);
                    assert(items@.take(items@.len() as int) =~= items@);
                }
                return None;
            },
        }
        i = i + 1;
    }
    assert(items@.take(items@.len() as int) =~= items@);
    Some(out)
}


/// The JSON that a nullable integer is written as.
pub open spec fn nullable_json(n: Option<i32>) -> Json {
    match n {
        Some(x) => Json::Int(x as i64),
        None => Json::Null,
    }
}

/// A bedtime window object whose `start` and `end` each hold an integer or
/// null decodes to exactly those values, each absent where it is null.
pub proof fn lemma_window_decodes_fields(fs: Vec<(String, Json)>, w: BedtimeWindow)
    requires
        lookup(fs@, "start"@) == Some(nullable_json(w.start)),
        lookup(fs@, "end"@) == Some(nullable_json(w.end)),
    ensures
        window_of(Json::Object(fs)) == Some(w),
{
}

/// A readiness object that holds every documented field decodes to a period
/// whose fields equal the object's values, whatever other keys it has.
pub proof fn lemma_readiness_period_decodes_fields(
    fs: Vec<(String, Json)>,
    p: ReadinessPeriod,
    date_text: String,
)
    requires
        p.summary_date.wf(),
        date_text@ == p.summary_date.text(),
        lookup(fs@, "summary_date"@) == Some(Json::Str(date_text)),
        lookup(fs@, "period_id"@) == Some(Json::Int(p.period_id as i64)),
        lookup(fs@, "score"@) == Some(Json::Int(p.score as i64)),
        lookup(fs@, "score_previous_night"@) == Some(Json::Int(p.score_previous_night as i64)),
        lookup(fs@, "score_sleep_balance"@) == Some(Json::Int(p.score_sleep_balance as i64)),
        lookup(fs@, "score_previous_day"@) == Some(Json::Int(p.score_previous_day as i64)),
        lookup(fs@, "score_activity_balance"@) == Some(Json::Int(p.score_activity_balance as i64)),
        lookup(fs@, "score_resting_hr"@) == Some(Json::Int(p.score_resting_hr as i64)),
        lookup(fs@, "score_hrv_balance"@) == Some(Json::Int(p.score_hrv_balance as i64)),
        lookup(fs@, "score_recovery_index"@) == Some(Json::Int(p.score_recovery_index as i64)),
        lookup(fs@, "score_temperature"@) == Some(Json::Int(p.score_temperature as i64)),
    ensures
        readiness_period_of(Json::Object(fs)) == Some(p),
{
    lemma_text_parses_back(p.summary_date);
}


/// A JSON number as sent: a whole number within `i64`, or the text of any
/// other number.
#[derive(Debug)]
pub enum Real {
    Whole(i64),
    Text(String),
}

pub enum RealView {
    Whole(int),
    Text(Seq<char>),
}

impl View for Real {
    type V = RealView;

    open spec fn view(&self) -> RealView {
        match self {
            Real::Whole(n) => RealView::Whole(*n as int),
            Real::Text(t) => RealView::Text(t@),
        }
    }
}

/// The number that a JSON value is, if it is one.
pub open spec fn real_of(v: Json) -> Option<RealView> {
    match v {
        Json::Int(n) => Some(RealView::Whole(n as int)),
        Json::Number(t) => Some(RealView::Text(t@)),
        _ => None,
    }
}

/// A present number.
pub open spec fn real_field(v: Option<Json>) -> Option<RealView> {
    match v {
        Some(j) => real_of(j),
        None => None,
    }
}

/// A present array of numbers.
pub open spec fn reals_of(v: Option<Json>) -> Option<Seq<RealView>> {
    match v {
        Some(Json::Array(items)) => all_of(items@, |j: Json| real_of(j)),
        _ => None,
    }
}

/// An integer within `lo..=hi` that counts as zero where it is missing.
pub open spec fn int_or_zero_of(v: Option<Json>, lo: int, hi: int) -> Option<int> {
    match v {
        None => Some(0),
        _ => int_of(v, lo, hi),
    }
}

fn decode_real(v: &Json) -> (r: Option<Real>)
    ensures
        r matches Some(x) ==> real_of(*v) == Some(x@),
        r is None ==> real_of(*v) is None,
{
    match v {
        Json::Int(n) => Some(Real::Whole(*n)),
        Json::Number(t) => Some(Real::Text(t.clone())),
        _ => None,
    }
}

/// The number under `key`.
pub fn get_real(fields: &Vec<(String, Json)>, key: &str) -> (r: Option<Real>)
    ensures
        r matches Some(x) ==> real_field(lookup(fields@, key@)) == Some(x@),
        r is None ==> real_field(lookup(fields@, key@)) is None,
{
    match get(fields, key) {
        Some(j) => decode_real(j),
        None => None,
    }
}

/// The integer under `key`, or zero where the key is missing.
pub fn get_int_or_zero(fields: &Vec<(String, Json)>, key: &str, lo: i64, hi: i64) -> (r: Option<
    i64,
>)
    requires
        lo <= 0 <= hi,
    ensures
        r matches Some(n) ==> int_or_zero_of(lookup(fields@, key@), lo as int, hi as int) == Some(
            n as int,
        ),
        r is None ==> int_or_zero_of(lookup(fields@, key@), lo as int, hi as int) is None,
{
    match get(fields, key) {
        None => Some(0),
        Some(Json::Int(n)) => if lo <= *n && *n <= hi {
            Some(*n)
        } else {
            None
        },
        _ => None,
    }
}

/// The array of numbers under `key`.
pub fn get_reals(fields: &Vec<(String, Json)>, key: &str) -> (r: Option<Vec<Real>>)
    ensures
        r matches Some(x) ==> reals_of(lookup(fields@, key@)) == Some(x@.map_values(|y: Real| y@)),
        r is None ==> reals_of(lookup(fields@, key@)) is None,
{
    let ghost f = |j: Json| real_of(j);
    let items = match get(fields, key) {
        Some(Json::Array(items)) => items,
        _ => return None,
    };
    let mut out: Vec<Real> = Vec::new();
    let mut i: usize = 0;
    while i < items.len()
        invariant
            f == (|j: Json| real_of(j)),
            lookup(fields@, key@) == Some(Json::Array(*items)),
            i <= items@.len(),
            all_of(items@.take(i as int), f) == Some(out@.map_values(|y: Real| y@)),
        decreases items@.len() - i,
    {
        assert(items@.take(i + 1).drop_last() =~= items@.take(i as int));
        assert(items@.take(i + 1).last() == items@[i as int]);
        match decode_real(&items[i]) {
            Some(x) => {
                let ghost before = out@;
                out.push(x);
                assert(out@.map_values(|y: Real| y@) =~= before.map_values(|y: Real| y@).push(
                    x@,
                ));
            },
            None => {
                proof {
                    lemma_all_of_fails_on(items@, i + 1, items@.len() as int, f);
                    assert(items@.take(items@.len() as int) =~= items@);
                }
                return None;
            },
        }
        i = i + 1;
    }
    assert(items@.take(items@.len() as int) =~= items@);
    Some(out)
}

/// One day's activity summary.
#[derive(Debug)]
pub struct ActivityPeriod {
    pub summary_date: Date,
    pub day_start: String,
    pub day_end: String,
    pub timezone: i32,
    pub score: u8,
    pub score_stay_active: u8,
    pub score_move_every_hour: u8,
    pub score_meet_daily_targets: u8,
    pub score_training_frequency: u8,
    pub score_training_volume: u8,
    pub score_recovery_time: u8,
    pub daily_movement: u32,
    pub non_wear: u16,
    pub rest: u16,
    pub inactive: u16,
    pub inactivity_alerts: u8,
    pub low: u16,
    pub medium: u16,
    pub high: u16,
    pub steps: u16,
    pub cal_total: u16,
    pub cal_active: u16,
    pub met_min_inactive: u16,
    pub met_min_low: u16,
    /// Zero where the vendor leaves it out, on days without high-intensity
    /// activity.
    pub met_min_medium_plus: u16,
    pub met_min_medium: u16,
    pub met_min_high: u16,
    pub average_met: Real,
    pub class_5min: String,
    pub met_1min: Vec<Real>,
}

pub struct ActivityPeriodView {
    pub summary_date: Date,
    pub day_start: Seq<char>,
    pub day_end: Seq<char>,
    pub timezone: i32,
    pub score: u8,
    pub score_stay_active: u8,
    pub score_move_every_hour: u8,
    pub score_meet_daily_targets: u8,
    pub score_training_frequency: u8,
    pub score_training_volume: u8,
    pub score_recovery_time: u8,
    pub daily_movement: u32,
    pub non_wear: u16,
    pub rest: u16,
    pub inactive: u16,
    pub inactivity_alerts: u8,
    pub low: u16,
    pub medium: u16,
    pub high: u16,
    pub steps: u16,
    pub cal_total: u16,
    pub cal_active: u16,
    pub met_min_inactive: u16,
    pub met_min_low: u16,
    pub met_min_medium_plus: u16,
    pub met_min_medium: u16,
    pub met_min_high: u16,
    pub average_met: RealView,
    pub class_5min: Seq<char>,
    pub met_1min: Seq<RealView>,
}

impl View for ActivityPeriod {
    type V = ActivityPeriodView;

    open spec fn view(&self) -> ActivityPeriodView {
        ActivityPeriodView {
            summary_date: self.summary_date,
            day_start: self.day_start@,
            day_end: self.day_end@,
            timezone: self.timezone,
            score: self.score,
            score_stay_active: self.score_stay_active,
            score_move_every_hour: self.score_move_every_hour,
            score_meet_daily_targets: self.score_meet_daily_targets,
            score_training_frequency: self.score_training_frequency,
            score_training_volume: self.score_training_volume,
            score_recovery_time: self.score_recovery_time,
            daily_movement: self.daily_movement,
            non_wear: self.non_wear,
            rest: self.rest,
            inactive: self.inactive,
            inactivity_alerts: self.inactivity_alerts,
            low: self.low,
            medium: self.medium,
            high: self.high,
            steps: self.steps,
            cal_total: self.cal_total,
            cal_active: self.cal_active,
            met_min_inactive: self.met_min_inactive,
            met_min_low: self.met_min_low,
            met_min_medium_plus: self.met_min_medium_plus,
            met_min_medium: self.met_min_medium,
            met_min_high: self.met_min_high,
            average_met: self.average_met.view(),
            class_5min: self.class_5min@,
            met_1min: self.met_1min@.map_values(|x: Real| x@),
        }
    }
}

/// The activity summary that a JSON object gives.
pub open spec fn activity_period_of(v: Json) -> Option<ActivityPeriodView> {
    match v {
        Json::Object(fs) => {
            let f = fs@;
            if date_of(lookup(f, "summary_date"@)) is Some
                && str_of(lookup(f, "day_start"@)) is Some
                && str_of(lookup(f, "day_end"@)) is Some
                && int_of(lookup(f, "timezone"@), -2147483648, 2147483647) is Some
                && int_of(lookup(f, "score"@), 0, 255) is Some
                && int_of(lookup(f, "score_stay_active"@), 0, 255) is Some
                && int_of(lookup(f, "score_move_every_hour"@), 0, 255) is Some
                && int_of(lookup(f, "score_meet_daily_targets"@), 0, 255) is Some
                && int_of(lookup(f, "score_training_frequency"@), 0, 255) is Some
                && int_of(lookup(f, "score_training_volume"@), 0, 255) is Some
                && int_of(lookup(f, "score_recovery_time"@), 0, 255) is Some
                && int_of(lookup(f, "daily_movement"@), 0, 4294967295) is Some
                && int_of(lookup(f, "non_wear"@), 0, 65535) is Some
                && int_of(lookup(f, "rest"@), 0, 65535) is Some
                && int_of(lookup(f, "inactive"@), 0, 65535) is Some
                && int_of(lookup(f, "inactivity_alerts"@), 0, 255) is Some
                && int_of(lookup(f, "low"@), 0, 65535) is Some
                && int_of(lookup(f, "medium"@), 0, 65535) is Some
                && int_of(lookup(f, "high"@), 0, 65535) is Some
                && int_of(lookup(f, "steps"@), 0, 65535) is Some
                && int_of(lookup(f, "cal_total"@), 0, 65535) is Some
                && int_of(lookup(f, "cal_active"@), 0, 65535) is Some
                && int_of(lookup(f, "met_min_inactive"@), 0, 65535) is Some
                && int_of(lookup(f, "met_min_low"@), 0, 65535) is Some
                && int_or_zero_of(lookup(f, "met_min_medium_plus"@), 0, 65535) is Some
                && int_of(lookup(f, "met_min_medium"@), 0, 65535) is Some
                && int_of(lookup(f, "met_min_high"@), 0, 65535) is Some
                && real_field(lookup(f, "average_met"@)) is Some
                && str_of(lookup(f, "class_5min"@)) is Some
                && reals_of(lookup(f, "met_1min"@)) is Some {
                Some(ActivityPeriodView {
                    summary_date: date_of(lookup(f, "summary_date"@))->0,
                    day_start: str_of(lookup(f, "day_start"@))->0,
                    day_end: str_of(lookup(f, "day_end"@))->0,
                    timezone: int_of(lookup(f, "timezone"@), -2147483648, 2147483647)->0 as i32,
                    score: int_of(lookup(f, "score"@), 0, 255)->0 as u8,
                    score_stay_active: int_of(lookup(f, "score_stay_active"@), 0, 255)->0 as u8,
                    score_move_every_hour: int_of(lookup(f, "score_move_every_hour"@), 0, 255)->0 as u8,
                    score_meet_daily_targets: int_of(lookup(f, "score_meet_daily_targets"@), 0, 255)->0 as u8,
                    score_training_frequency: int_of(lookup(f, "score_training_frequency"@), 0, 255)->0 as u8,
                    score_training_volume: int_of(lookup(f, "score_training_volume"@), 0, 255)->0 as u8,
                    score_recovery_time: int_of(lookup(f, "score_recovery_time"@), 0, 255)->0 as u8,
                    daily_movement: int_of(lookup(f, "daily_movement"@), 0, 4294967295)->0 as u32,
                    non_wear: int_of(lookup(f, "non_wear"@), 0, 65535)->0 as u16,
                    rest: int_of(lookup(f, "rest"@), 0, 65535)->0 as u16,
                    inactive: int_of(lookup(f, "inactive"@), 0, 65535)->0 as u16,
                    inactivity_alerts: int_of(lookup(f, "inactivity_alerts"@), 0, 255)->0 as u8,
                    low: int_of(lookup(f, "low"@), 0, 65535)->0 as u16,
                    medium: int_of(lookup(f, "medium"@), 0, 65535)->0 as u16,
                    high: int_of(lookup(f, "high"@), 0, 65535)->0 as u16,
                    steps: int_of(lookup(f, "steps"@), 0, 65535)->0 as u16,
                    cal_total: int_of(lookup(f, "cal_total"@), 0, 65535)->0 as u16,
                    cal_active: int_of(lookup(f, "cal_active"@), 0, 65535)->0 as u16,
                    met_min_inactive: int_of(lookup(f, "met_min_inactive"@), 0, 65535)->0 as u16,
                    met_min_low: int_of(lookup(f, "met_min_low"@), 0, 65535)->0 as u16,
                    met_min_medium_plus: int_or_zero_of(lookup(f, "met_min_medium_plus"@), 0, 65535)->0 as u16,
                    met_min_medium: int_of(lookup(f, "met_min_medium"@), 0, 65535)->0 as u16,
                    met_min_high: int_of(lookup(f, "met_min_high"@), 0, 65535)->0 as u16,
                    average_met: real_field(lookup(f, "average_met"@))->0,
                    class_5min: str_of(lookup(f, "class_5min"@))->0,
                    met_1min: reals_of(lookup(f, "met_1min"@))->0,
                })
            } else {
                None
            }
        },
        _ => None,
    }
}

/// Reads one activity summary; every field is required but
/// `met_min_medium_plus`, which is zero where it is missing.
pub fn decode_activity_period(v: &Json) -> (r: Option<ActivityPeriod>)
    ensures
        r matches Some(p) ==> activity_period_of(*v) == Some(p@),
        r is None ==> activity_period_of(*v) is None,
{
    match v {
        Json::Object(f) => {
            let summary_date = match get_date(f, "summary_date") {
                Some(x) => x,
                None => return None,
            };
            let day_start = match get_str(f, "day_start") {
                Some(x) => x,
                None => return None,
            };
            let day_end = match get_str(f, "day_end") {
                Some(x) => x,
                None => return None,
            };
            let timezone = match get_int(f, "timezone", i32::MIN as i64, i32::MAX as i64) {
                Some(x) => x as i32,
                None => return None,
            };
            let score = match get_int(f, "score", 0, 255) {
                Some(x) => x as u8,
                None => return None,
            };
            let score_stay_active = match get_int(f, "score_stay_active", 0, 255) {
                Some(x) => x as u8,
                None => return None,
            };
            let score_move_every_hour = match get_int(f, "score_move_every_hour", 0, 255) {
                Some(x) => x as u8,
                None => return None,
            };
            let score_meet_daily_targets = match get_int(f, "score_meet_daily_targets", 0, 255) {
                Some(x) => x as u8,
                None => return None,
            };
            let score_training_frequency = match get_int(f, "score_training_frequency", 0, 255) {
                Some(x) => x as u8,
                None => return None,
            };
            let score_training_volume = match get_int(f, "score_training_volume", 0, 255) {
                Some(x) => x as u8,
                None => return None,
            };
            let score_recovery_time = match get_int(f, "score_recovery_time", 0, 255) {
                Some(x) => x as u8,
                None => return None,
            };
            let daily_movement = match get_int(f, "daily_movement", 0, 4294967295) {
                Some(x) => x as u32,
                None => return None,
            };
            let non_wear = match get_int(f, "non_wear", 0, 65535) {
                Some(x) => x as u16,
                None => return None,
            };
            let rest = match get_int(f, "rest", 0, 65535) {
                Some(x) => x as u16,
                None => return None,
            };
            let inactive = match get_int(f, "inactive", 0, 65535) {
                Some(x) => x as u16,
                None => return None,
            };
            let inactivity_alerts = match get_int(f, "inactivity_alerts", 0, 255) {
                Some(x) => x as u8,
                None => return None,
            };
            let low = match get_int(f, "low", 0, 65535) {
                Some(x) => x as u16,
                None => return None,
            };
            let medium = match get_int(f, "medium", 0, 65535) {
                Some(x) => x as u16,
                None => return None,
            };
            let high = match get_int(f, "high", 0, 65535) {
                Some(x) => x as u16,
                None => return None,
            };
            let steps = match get_int(f, "steps", 0, 65535) {
                Some(x) => x as u16,
                None => return None,
            };
            let cal_total = match get_int(f, "cal_total", 0, 65535) {
                Some(x) => x as u16,
                None => return None,
            };
            let cal_active = match get_int(f, "cal_active", 0, 65535) {
                Some(x) => x as u16,
                None => return None,
            };
            let met_min_inactive = match get_int(f, "met_min_inactive", 0, 65535) {
                Some(x) => x as u16,
                None => return None,
            };
            let met_min_low = match get_int(f, "met_min_low", 0, 65535) {
                Some(x) => x as u16,
                None => return None,
            };
            let met_min_medium_plus = match get_int_or_zero(f, "met_min_medium_plus", 0, 65535) {
                Some(x) => x as u16,
                None => return None,
            };
            let met_min_medium = match get_int(f, "met_min_medium", 0, 65535) {
                Some(x) => x as u16,
                None => return None,
            };
            let met_min_high = match get_int(f, "met_min_high", 0, 65535) {
                Some(x) => x as u16,
                None => return None,
            };
            let average_met = match get_real(f, "average_met") {
                Some(x) => x,
                None => return None,
            };
            let class_5min = match get_str(f, "class_5min") {
                Some(x) => x,
                None => return None,
            };
            let met_1min = match get_reals(f, "met_1min") {
                Some(x) => x,
                None => return None,
            };
            Some(ActivityPeriod { summary_date, day_start, day_end, timezone, score, score_stay_active, score_move_every_hour, score_meet_daily_targets, score_training_frequency, score_training_volume, score_recovery_time, daily_movement, non_wear, rest, inactive, inactivity_alerts, low, medium, high, steps, cal_total, cal_active, met_min_inactive, met_min_low, met_min_medium_plus, met_min_medium, met_min_high, average_met, class_5min, met_1min })
        },
        _ => None,
    }
}


/// A present array of integers within `lo..=hi`.
pub open spec fn ints_of(v: Option<Json>, lo: int, hi: int) -> Option<Seq<int>> {
    match v {
        Some(Json::Array(items)) => all_of(items@, |j: Json| int_of(Some(j), lo, hi)),
        _ => None,
    }
}

/// The array of integers of type `u8` under `key`.
pub fn get_u8s(fields: &Vec<(String, Json)>, key: &str) -> (r: Option<Vec<u8>>)
    ensures
        r matches Some(x) ==> ints_of(lookup(fields@, key@), 0, 255) == Some(
            x@.map_values(|y: u8| y as int),
        ),
        r is None ==> ints_of(lookup(fields@, key@), 0, 255) is None,
{
    let ghost f = |j: Json| int_of(Some(j), 0, 255);
    let items = match get(fields, key) {
        Some(Json::Array(items)) => items,
        _ => return None,
    };
    let mut out: Vec<u8> = Vec::new();
    let mut i: usize = 0;
    while i < items.len()
        invariant
            f == (|j: Json| int_of(Some(j), 0, 255)),
            lookup(fields@, key@) == Some(Json::Array(*items)),
            i <= items@.len(),
            all_of(items@.take(i as int), f) == Some(out@.map_values(|y: u8| y as int)),
        decreases items@.len() - i,
    {
        assert(items@.take(i + 1).drop_last() =~= items@.take(i as int));
        assert(items@.take(i + 1).last() == items@[i as int]);
        match &items[i] {
            Json::Int(n) if 0 <= *n && *n <= 255 => {
                let ghost before = out@;
                out.push(*n as u8);
                assert(out@.map_values(|y: u8| y as int) =~= before.map_values(
                    |y: u8| y as int,
                ).push(*n as int));
            },
            _ => {
                proof {
                    lemma_all_of_fails_on(items@, i + 1, items@.len() as int, f);
                    assert(items@.take(items@.len() as int) =~= items@);
                }
                return None;
            },
        }
        i = i + 1;
    }
    assert(items@.take(items@.len() as int) =~= items@);
    Some(out)
}

/// The array of integers of type `u16` under `key`.
pub fn get_u16s(fields: &Vec<(String, Json)>, key: &str) -> (r: Option<Vec<u16>>)
    ensures
        r matches Some(x) ==> ints_of(lookup(fields@, key@), 0, 65535) == Some(
            x@.map_values(|y: u16| y as int),
        ),
        r is None ==> ints_of(lookup(fields@, key@), 0, 65535) is None,
{
    let ghost f = |j: Json| int_of(Some(j), 0, 65535);
    let items = match get(fields, key) {
        Some(Json::Array(items)) => items,
        _ => return None,
    };
    let mut out: Vec<u16> = Vec::new();
    let mut i: usize = 0;
    while i < items.len()
        invariant
            f == (|j: Json| int_of(Some(j), 0, 65535)),
            lookup(fields@, key@) == Some(Json::Array(*items)),
            i <= items@.len(),
            all_of(items@.take(i as int), f) == Some(out@.map_values(|y: u16| y as int)),
        decreases items@.len() - i,
    {
        assert(items@.take(i + 1).drop_last() =~= items@.take(i as int));
        assert(items@.take(i + 1).last() == items@[i as int]);
        match &items[i] {
            Json::Int(n) if 0 <= *n && *n <= 65535 => {
                let ghost before = out@;
                out.push(*n as u16);
                assert(out@.map_values(|y: u16| y as int) =~= before.map_values(
                    |y: u16| y as int,
                ).push(*n as int));
            },
            _ => {
                proof {
                    lemma_all_of_fails_on(items@, i + 1, items@.len() as int, f);
                    assert(items@.take(items@.len() as int) =~= items@);
                }
                return None;
            },
        }
        i = i + 1;
    }
    assert(items@.take(items@.len() as int) =~= items@);
    Some(out)
}

/// One sleep period: its times, sub-scores, durations, physiology and samples.
#[derive(Debug)]
pub struct SleepPeriod {
    pub summary_date: Date,
    pub period_id: u8,
    pub is_longest: u8,
    pub timezone: i32,
    pub bedtime_start: String,
    pub bedtime_end: String,
    pub score: u8,
    pub score_total: u8,
    pub score_disturbances: u8,
    pub score_efficiency: u8,
    pub score_latency: u8,
    pub score_rem: u8,
    pub score_deep: u8,
    pub score_alignment: u8,
    pub total: u16,
    pub duration: u16,
    pub awake: u16,
    pub light: u16,
    pub rem: u16,
    pub deep: u16,
    pub onset_latency: u16,
    pub restless: u8,
    pub efficiency: u8,
    pub midpoint_time: u16,
    pub hr_lowest: u16,
    pub hr_average: Real,
    pub rmssd: u16,
    pub breath_average: Real,
    pub temperature_delta: Real,
    pub hypnogram_5min: String,
    pub hr_5min: Vec<u8>,
    pub rmssd_5min: Vec<u16>,
}

pub struct SleepPeriodView {
    pub summary_date: Date,
    pub period_id: u8,
    pub is_longest: u8,
    pub timezone: i32,
    pub bedtime_start: Seq<char>,
    pub bedtime_end: Seq<char>,
    pub score: u8,
    pub score_total: u8,
    pub score_disturbances: u8,
    pub score_efficiency: u8,
    pub score_latency: u8,
    pub score_rem: u8,
    pub score_deep: u8,
    pub score_alignment: u8,
    pub total: u16,
    pub duration: u16,
    pub awake: u16,
    pub light: u16,
    pub rem: u16,
    pub deep: u16,
    pub onset_latency: u16,
    pub restless: u8,
    pub efficiency: u8,
    pub midpoint_time: u16,
    pub hr_lowest: u16,
    pub hr_average: RealView,
    pub rmssd: u16,
    pub breath_average: RealView,
    pub temperature_delta: RealView,
    pub hypnogram_5min: Seq<char>,
    pub hr_5min: Seq<u8>,
    pub rmssd_5min: Seq<u16>,
}

impl View for SleepPeriod {
    type V = SleepPeriodView;

    open spec fn view(&self) -> SleepPeriodView {
        SleepPeriodView {
            summary_date: self.summary_date,
            period_id: self.period_id,
            is_longest: self.is_longest,
            timezone: self.timezone,
            bedtime_start: self.bedtime_start@,
            bedtime_end: self.bedtime_end@,
            score: self.score,
            score_total: self.score_total,
            score_disturbances: self.score_disturbances,
            score_efficiency: self.score_efficiency,
            score_latency: self.score_latency,
            score_rem: self.score_rem,
            score_deep: self.score_deep,
            score_alignment: self.score_alignment,
            total: self.total,
            duration: self.duration,
            awake: self.awake,
            light: self.light,
            rem: self.rem,
            deep: self.deep,
            onset_latency: self.onset_latency,
            restless: self.restless,
            efficiency: self.efficiency,
            midpoint_time: self.midpoint_time,
            hr_lowest: self.hr_lowest,
            hr_average: self.hr_average.view(),
            rmssd: self.rmssd,
            breath_average: self.breath_average.view(),
            temperature_delta: self.temperature_delta.view(),
            hypnogram_5min: self.hypnogram_5min@,
            hr_5min: self.hr_5min@,
            rmssd_5min: self.rmssd_5min@,
        }
    }
}

/// The record that a JSON object gives.
pub open spec fn sleep_period_of(v: Json) -> Option<SleepPeriodView> {
    match v {
        Json::Object(fs) => {
            let f = fs@;
            if date_of(lookup(f, "summary_date"@)) is Some
                && int_of(lookup(f, "period_id"@), 0, 255) is Some
                && int_of(lookup(f, "is_longest"@), 0, 255) is Some
                && int_of(lookup(f, "timezone"@), -2147483648, 2147483647) is Some
                && str_of(lookup(f, "bedtime_start"@)) is Some
                && str_of(lookup(f, "bedtime_end"@)) is Some
                && int_of(lookup(f, "score"@), 0, 255) is Some
                && int_of(lookup(f, "score_total"@), 0, 255) is Some
                && int_of(lookup(f, "score_disturbances"@), 0, 255) is Some
                && int_of(lookup(f, "score_efficiency"@), 0, 255) is Some
                && int_of(lookup(f, "score_latency"@), 0, 255) is Some
                && int_of(lookup(f, "score_rem"@), 0, 255) is Some
                && int_of(lookup(f, "score_deep"@), 0, 255) is Some
                && int_of(lookup(f, "score_alignment"@), 0, 255) is Some
                && int_of(lookup(f, "total"@), 0, 65535) is Some
                && int_of(lookup(f, "duration"@), 0, 65535) is Some
                && int_of(lookup(f, "awake"@), 0, 65535) is Some
                && int_of(lookup(f, "light"@), 0, 65535) is Some
                && int_of(lookup(f, "rem"@), 0, 65535) is Some
                && int_of(lookup(f, "deep"@), 0, 65535) is Some
                && int_of(lookup(f, "onset_latency"@), 0, 65535) is Some
                && int_of(lookup(f, "restless"@), 0, 255) is Some
                && int_of(lookup(f, "efficiency"@), 0, 255) is Some
                && int_of(lookup(f, "midpoint_time"@), 0, 65535) is Some
                && int_of(lookup(f, "hr_lowest"@), 0, 65535) is Some
                && real_field(lookup(f, "hr_average"@)) is Some
                && int_of(lookup(f, "rmssd"@), 0, 65535) is Some
                && real_field(lookup(f, "breath_average"@)) is Some
                && real_field(lookup(f, "temperature_delta"@)) is Some
                && str_of(lookup(f, "hypnogram_5min"@)) is Some
                && ints_of(lookup(f, "hr_5min"@), 0, 255) is Some
                && ints_of(lookup(f, "rmssd_5min"@), 0, 65535) is Some {
                Some(SleepPeriodView {
                    summary_date: date_of(lookup(f, "summary_date"@))->0,
                    period_id: int_of(lookup(f, "period_id"@), 0, 255)->0 as u8,
                    is_longest: int_of(lookup(f, "is_longest"@), 0, 255)->0 as u8,
                    timezone: int_of(lookup(f, "timezone"@), -2147483648, 2147483647)->0 as i32,
                    bedtime_start: str_of(lookup(f, "bedtime_start"@))->0,
                    bedtime_end: str_of(lookup(f, "bedtime_end"@))->0,
                    score: int_of(lookup(f, "score"@), 0, 255)->0 as u8,
                    score_total: int_of(lookup(f, "score_total"@), 0, 255)->0 as u8,
                    score_disturbances: int_of(lookup(f, "score_disturbances"@), 0, 255)->0 as u8,
                    score_efficiency: int_of(lookup(f, "score_efficiency"@), 0, 255)->0 as u8,
                    score_latency: int_of(lookup(f, "score_latency"@), 0, 255)->0 as u8,
                    score_rem: int_of(lookup(f, "score_rem"@), 0, 255)->0 as u8,
                    score_deep: int_of(lookup(f, "score_deep"@), 0, 255)->0 as u8,
                    score_alignment: int_of(lookup(f, "score_alignment"@), 0, 255)->0 as u8,
                    total: int_of(lookup(f, "total"@), 0, 65535)->0 as u16,
                    duration: int_of(lookup(f, "duration"@), 0, 65535)->0 as u16,
                    awake: int_of(lookup(f, "awake"@), 0, 65535)->0 as u16,
                    light: int_of(lookup(f, "light"@), 0, 65535)->0 as u16,
                    rem: int_of(lookup(f, "rem"@), 0, 65535)->0 as u16,
                    deep: int_of(lookup(f, "deep"@), 0, 65535)->0 as u16,
                    onset_latency: int_of(lookup(f, "onset_latency"@), 0, 65535)->0 as u16,
                    restless: int_of(lookup(f, "restless"@), 0, 255)->0 as u8,
                    efficiency: int_of(lookup(f, "efficiency"@), 0, 255)->0 as u8,
                    midpoint_time: int_of(lookup(f, "midpoint_time"@), 0, 65535)->0 as u16,
                    hr_lowest: int_of(lookup(f, "hr_lowest"@), 0, 65535)->0 as u16,
                    hr_average: real_field(lookup(f, "hr_average"@))->0,
                    rmssd: int_of(lookup(f, "rmssd"@), 0, 65535)->0 as u16,
                    breath_average: real_field(lookup(f, "breath_average"@))->0,
                    temperature_delta: real_field(lookup(f, "temperature_delta"@))->0,
                    hypnogram_5min: str_of(lookup(f, "hypnogram_5min"@))->0,
                    hr_5min: ints_of(lookup(f, "hr_5min"@), 0, 255)->0.map_values(|x: int| x as u8),
                    rmssd_5min: ints_of(lookup(f, "rmssd_5min"@), 0, 65535)->0.map_values(|x: int| x as u16),
                })
            } else {
                None
            }
        },
        _ => None,
    }
}

/// Reads one sleep period; every field is required.
pub fn decode_sleep_period(v: &Json) -> (r: Option<SleepPeriod>)
    ensures
        r matches Some(p) ==> sleep_period_of(*v) == Some(p@),
        r is None ==> sleep_period_of(*v) is None,
{
    match v {
        Json::Object(f) => {
            let summary_date = match get_date(f, "summary_date") {
                Some(x) => x,
                None => return None,
            };
            let period_id = match get_int(f, "period_id", 0, 255) {
                Some(x) => x as u8,
                None => return None,
            };
            let is_longest = match get_int(f, "is_longest", 0, 255) {
                Some(x) => x as u8,
                None => return None,
            };
            let timezone = match get_int(f, "timezone", i32::MIN as i64, i32::MAX as i64) {
                Some(x) => x as i32,
                None => return None,
            };
            let bedtime_start = match get_str(f, "bedtime_start") {
                Some(x) => x,
                None => return None,
            };
            let bedtime_end = match get_str(f, "bedtime_end") {
                Some(x) => x,
                None => return None,
            };
            let score = match get_int(f, "score", 0, 255) {
                Some(x) => x as u8,
                None => return None,
            };
            let score_total = match get_int(f, "score_total", 0, 255) {
                Some(x) => x as u8,
                None => return None,
            };
            let score_disturbances = match get_int(f, "score_disturbances", 0, 255) {
                Some(x) => x as u8,
                None => return None,
            };
            let score_efficiency = match get_int(f, "score_efficiency", 0, 255) {
                Some(x) => x as u8,
                None => return None,
            };
            let score_latency = match get_int(f, "score_latency", 0, 255) {
                Some(x) => x as u8,
                None => return None,
            };
            let score_rem = match get_int(f, "score_rem", 0, 255) {
                Some(x) => x as u8,
                None => return None,
            };
            let score_deep = match get_int(f, "score_deep", 0, 255) {
                Some(x) => x as u8,
                None => return None,
            };
            let score_alignment = match get_int(f, "score_alignment", 0, 255) {
                Some(x) => x as u8,
                None => return None,
            };
            let total = match get_int(f, "total", 0, 65535) {
                Some(x) => x as u16,
                None => return None,
            };
            let duration = match get_int(f, "duration", 0, 65535) {
                Some(x) => x as u16,
                None => return None,
            };
            let awake = match get_int(f, "awake", 0, 65535) {
                Some(x) => x as u16,
                None => return None,
            };
            let light = match get_int(f, "light", 0, 65535) {
                Some(x) => x as u16,
                None => return None,
            };
            let rem = match get_int(f, "rem", 0, 65535) {
                Some(x) => x as u16,
                None => return None,
            };
            let deep = match get_int(f, "deep", 0, 65535) {
                Some(x) => x as u16,
                None => return None,
            };
            let onset_latency = match get_int(f, "onset_latency", 0, 65535) {
                Some(x) => x as u16,
                None => return None,
            };
            let restless = match get_int(f, "restless", 0, 255) {
                Some(x) => x as u8,
                None => return None,
            };
            let efficiency = match get_int(f, "efficiency", 0, 255) {
                Some(x) => x as u8,
                None => return None,
            };
            let midpoint_time = match get_int(f, "midpoint_time", 0, 65535) {
                Some(x) => x as u16,
                None => return None,
            };
            let hr_lowest = match get_int(f, "hr_lowest", 0, 65535) {
                Some(x) => x as u16,
                None => return None,
            };
            let hr_average = match get_real(f, "hr_average") {
                Some(x) => x,
                None => return None,
            };
            let rmssd = match get_int(f, "rmssd", 0, 65535) {
                Some(x) => x as u16,
                None => return None,
            };
            let breath_average = match get_real(f, "breath_average") {
                Some(x) => x,
                None => return None,
            };
            let temperature_delta = match get_real(f, "temperature_delta") {
                Some(x) => x,
                None => return None,
            };
            let hypnogram_5min = match get_str(f, "hypnogram_5min") {
                Some(x) => x,
                None => return None,
            };
            let hr_5min = match get_u8s(f, "hr_5min") {
                Some(x) => x,
                None => return None,
            };
            assert(hr_5min@ =~= hr_5min@.map_values(|y: u8| y as int).map_values(|x: int| x as u8));
            let rmssd_5min = match get_u16s(f, "rmssd_5min") {
                Some(x) => x,
                None => return None,
            };
            assert(rmssd_5min@ =~= rmssd_5min@.map_values(|y: u16| y as int).map_values(|x: int| x as u16));
            Some(SleepPeriod { summary_date, period_id, is_longest, timezone, bedtime_start, bedtime_end, score, score_total, score_disturbances, score_efficiency, score_latency, score_rem, score_deep, score_alignment, total, duration, awake, light, rem, deep, onset_latency, restless, efficiency, midpoint_time, hr_lowest, hr_average, rmssd, breath_average, temperature_delta, hypnogram_5min, hr_5min, rmssd_5min })
        },
        _ => None,
    }
}

/// The user's profile.
#[derive(Debug)]
pub struct UserInfo {
    pub age: u8,
    pub weight: Real,
    pub height: u16,
    pub gender: String,
    pub email: String,
}

pub struct UserInfoView {
    pub age: u8,
    pub weight: RealView,
    pub height: u16,
    pub gender: Seq<char>,
    pub email: Seq<char>,
}

impl View for UserInfo {
    type V = UserInfoView;

    open spec fn view(&self) -> UserInfoView {
        UserInfoView {
            age: self.age,
            weight: self.weight.view(),
            height: self.height,
            gender: self.gender@,
            email: self.email@,
        }
    }
}

/// The record that a JSON object gives.
pub open spec fn user_info_of(v: Json) -> Option<UserInfoView> {
    match v {
        Json::Object(fs) => {
            let f = fs@;
            if int_of(lookup(f, "age"@), 0, 255) is Some
                && real_field(lookup(f, "weight"@)) is Some
                && int_of(lookup(f, "height"@), 0, 65535) is Some
                && str_of(lookup(f, "gender"@)) is Some
                && str_of(lookup(f, "email"@)) is Some {
                Some(UserInfoView {
                    age: int_of(lookup(f, "age"@), 0, 255)->0 as u8,
                    weight: real_field(lookup(f, "weight"@))->0,
                    height: int_of(lookup(f, "height"@), 0, 65535)->0 as u16,
                    gender: str_of(lookup(f, "gender"@))->0,
                    email: str_of(lookup(f, "email"@))->0,
                })
            } else {
                None
            }
        },
        _ => None,
    }
}

/// Reads the user's profile; every field is required.
pub fn decode_user_info(v: &Json) -> (r: Option<UserInfo>)
    ensures
        r matches Some(p) ==> user_info_of(*v) == Some(p@),
        r is None ==> user_info_of(*v) is None,
{
    match v {
        Json::Object(f) => {
            let age = match get_int(f, "age", 0, 255) {
                Some(x) => x as u8,
                None => return None,
            };
            let weight = match get_real(f, "weight") {
                Some(x) => x,
                None => return None,
            };
            let height = match get_int(f, "height", 0, 65535) {
                Some(x) => x as u16,
                None => return None,
            };
            let gender = match get_str(f, "gender") {
                Some(x) => x,
                None => return None,
            };
            let email = match get_str(f, "email") {
                Some(x) => x,
                None => return None,
            };
            Some(UserInfo { age, weight, height, gender, email })
        },
        _ => None,
    }
}

/// Reads an activity response: the days listed under `activity`.
pub fn decode_activity(v: &Json) -> (r: Option<Vec<ActivityPeriod>>)
    ensures
        r matches Some(x) ==> list_under(*v, "activity"@, |j: Json| activity_period_of(j)) == Some(
            x@.map_values(|b: ActivityPeriod| b@),
        ),
        r is None ==> list_under(*v, "activity"@, |j: Json| activity_period_of(j)) is None,
{
    let ghost f = |j: Json| activity_period_of(j);
    let items = match array_under(v, "activity") {
        Some(items) => items,
        None => return None,
    };
    let mut out: Vec<ActivityPeriod> = Vec::new();
    let mut i: usize = 0;
    while i < items.len()
        invariant
            f == (|j: Json| activity_period_of(j)),
            v matches Json::Object(fs) && lookup(fs@, "activity"@) == Some(Json::Array(*items)),
            i <= items@.len(),
            all_of(items@.take(i as int), f) == Some(out@.map_values(|b: ActivityPeriod| b@)),
        decreases items@.len() - i,
    {
        assert(items@.take(i + 1).drop_last() =~= items@.take(i as int));
        assert(items@.take(i + 1).last() == items@[i as int]);
        match decode_activity_period(&items[i]) {
            Some(p) => {
                let ghost before = out@;
                out.push(p);
                assert(out@.map_values(|b: ActivityPeriod| b@) =~= before.map_values(|b: ActivityPeriod| b@).push(
                    p@,
                ));
            },
            None => {
                proof {
                    lemma_all_of_fails_on(items@, i + 1, items@.len() as int, f);
                    assert(items@.take(items@.len() as int) =~= items@);
                }
                return None;
            },
        }
        i = i + 1;
    }
    assert(items@.take(items@.len() as int) =~= items@);
    Some(out)
}

/// Reads a sleep response: the periods listed under `sleep`.
pub fn decode_sleep(v: &Json) -> (r: Option<Vec<SleepPeriod>>)
    ensures
        r matches Some(x) ==> list_under(*v, "sleep"@, |j: Json| sleep_period_of(j)) == Some(
            x@.map_values(|b: SleepPeriod| b@),
        ),
        r is None ==> list_under(*v, "sleep"@, |j: Json| sleep_period_of(j)) is None,
{
    let ghost f = |j: Json| sleep_period_of(j);
    let items = match array_under(v, "sleep") {
        Some(items) => items,
        None => return None,
    };
    let mut out: Vec<SleepPeriod> = Vec::new();
    let mut i: usize = 0;
    while i < items.len()
        invariant
            f == (|j: Json| sleep_period_of(j)),
            v matches Json::Object(fs) && lookup(fs@, "sleep"@) == Some(Json::Array(*items)),
            i <= items@.len(),
            all_of(items@.take(i as int), f) == Some(out@.map_values(|b: SleepPeriod| b@)),
        decreases items@.len() - i,
    {
        assert(items@.take(i + 1).drop_last() =~= items@.take(i as int));
        assert(items@.take(i + 1).last() == items@[i as int]);
        match decode_sleep_period(&items[i]) {
            Some(p) => {
                let ghost before = out@;
                out.push(p);
                assert(out@.map_values(|b: SleepPeriod| b@) =~= before.map_values(|b: SleepPeriod| b@).push(
                    p@,
                ));
            },
            None => {
                proof {
                    lemma_all_of_fails_on(items@, i + 1, items@.len() as int, f);
                    assert(items@.take(items@.len() as int) =~= items@);
                }
                return None;
            },
        }
        i = i + 1;
    }
    assert(items@.take(items@.len() as int) =~= items@);
    Some(out)
}


/// A profile object that holds every documented field decodes to a record
/// whose fields equal the object's values, whatever other keys it has.
pub proof fn lemma_user_info_decodes_fields(fs: Vec<(String, Json)>, p: UserInfoView)
    requires
        lookup(fs@, "age"@) == Some(Json::Int(p.age as i64)),
        real_field(lookup(fs@, "weight"@)) == Some(p.weight),
        lookup(fs@, "height"@) == Some(Json::Int(p.height as i64)),
        str_of(lookup(fs@, "gender"@)) == Some(p.gender),
        str_of(lookup(fs@, "email"@)) == Some(p.email),
    ensures
        user_info_of(Json::Object(fs)) == Some(p),
{

}

/// A sleep object that holds every documented field decodes to a record
/// whose fields equal the object's values, whatever other keys it has.
pub proof fn lemma_sleep_period_decodes_fields(fs: Vec<(String, Json)>, p: SleepPeriodView)
    requires
        p.summary_date.wf(),
        str_of(lookup(fs@, "summary_date"@)) == Some(p.summary_date.text()),
        lookup(fs@, "period_id"@) == Some(Json::Int(p.period_id as i64)),
        lookup(fs@, "is_longest"@) == Some(Json::Int(p.is_longest as i64)),
        lookup(fs@, "timezone"@) == Some(Json::Int(p.timezone as i64)),
        str_of(lookup(fs@, "bedtime_start"@)) == Some(p.bedtime_start),
        str_of(lookup(fs@, "bedtime_end"@)) == Some(p.bedtime_end),
        lookup(fs@, "score"@) == Some(Json::Int(p.score as i64)),
        lookup(fs@, "score_total"@) == Some(Json::Int(p.score_total as i64)),
        lookup(fs@, "score_disturbances"@) == Some(Json::Int(p.score_disturbances as i64)),
        lookup(fs@, "score_efficiency"@) == Some(Json::Int(p.score_efficiency as i64)),
        lookup(fs@, "score_latency"@) == Some(Json::Int(p.score_latency as i64)),
        lookup(fs@, "score_rem"@) == Some(Json::Int(p.score_rem as i64)),
        lookup(fs@, "score_deep"@) == Some(Json::Int(p.score_deep as i64)),
        lookup(fs@, "score_alignment"@) == Some(Json::Int(p.score_alignment as i64)),
        lookup(fs@, "total"@) == Some(Json::Int(p.total as i64)),
        lookup(fs@, "duration"@) == Some(Json::Int(p.duration as i64)),
        lookup(fs@, "awake"@) == Some(Json::Int(p.awake as i64)),
        lookup(fs@, "light"@) == Some(Json::Int(p.light as i64)),
        lookup(fs@, "rem"@) == Some(Json::Int(p.rem as i64)),
        lookup(fs@, "deep"@) == Some(Json::Int(p.deep as i64)),
        lookup(fs@, "onset_latency"@) == Some(Json::Int(p.onset_latency as i64)),
        lookup(fs@, "restless"@) == Some(Json::Int(p.restless as i64)),
        lookup(fs@, "efficiency"@) == Some(Json::Int(p.efficiency as i64)),
        lookup(fs@, "midpoint_time"@) == Some(Json::Int(p.midpoint_time as i64)),
        lookup(fs@, "hr_lowest"@) == Some(Json::Int(p.hr_lowest as i64)),
        real_field(lookup(fs@, "hr_average"@)) == Some(p.hr_average),
        lookup(fs@, "rmssd"@) == Some(Json::Int(p.rmssd as i64)),
        real_field(lookup(fs@, "breath_average"@)) == Some(p.breath_average),
        real_field(lookup(fs@, "temperature_delta"@)) == Some(p.temperature_delta),
        str_of(lookup(fs@, "hypnogram_5min"@)) == Some(p.hypnogram_5min),
        ints_of(lookup(fs@, "hr_5min"@), 0, 255) == Some(p.hr_5min.map_values(|x: u8| x as int)),
        ints_of(lookup(fs@, "rmssd_5min"@), 0, 65535) == Some(p.rmssd_5min.map_values(|x: u16| x as int)),
    ensures
        sleep_period_of(Json::Object(fs)) == Some(p),
{
    lemma_text_parses_back(p.summary_date);
    assert(p.hr_5min =~= p.hr_5min.map_values(|x: u8| x as int).map_values(|x: int| x as u8));
    assert(p.rmssd_5min =~= p.rmssd_5min.map_values(|x: u16| x as int).map_values(|x: int| x as u16));
}

/// An activity object that holds every documented field decodes to a record
/// whose fields equal the object's values, whatever other keys it has; one
/// without `met_min_medium_plus` decodes alike, with zero there.
pub proof fn lemma_activity_period_decodes_fields(fs: Vec<(String, Json)>, p: ActivityPeriodView)
    requires
        p.summary_date.wf(),
        str_of(lookup(fs@, "summary_date"@)) == Some(p.summary_date.text()),
        str_of(lookup(fs@, "day_start"@)) == Some(p.day_start),
        str_of(lookup(fs@, "day_end"@)) == Some(p.day_end),
        lookup(fs@, "timezone"@) == Some(Json::Int(p.timezone as i64)),
        lookup(fs@, "score"@) == Some(Json::Int(p.score as i64)),
        lookup(fs@, "score_stay_active"@) == Some(Json::Int(p.score_stay_active as i64)),
        lookup(fs@, "score_move_every_hour"@) == Some(Json::Int(p.score_move_every_hour as i64)),
        lookup(fs@, "score_meet_daily_targets"@) == Some(Json::Int(p.score_meet_daily_targets as i64)),
        lookup(fs@, "score_training_frequency"@) == Some(Json::Int(p.score_training_frequency as i64)),
        lookup(fs@, "score_training_volume"@) == Some(Json::Int(p.score_training_volume as i64)),
        lookup(fs@, "score_recovery_time"@) == Some(Json::Int(p.score_recovery_time as i64)),
        lookup(fs@, "daily_movement"@) == Some(Json::Int(p.daily_movement as i64)),
        lookup(fs@, "non_wear"@) == Some(Json::Int(p.non_wear as i64)),
        lookup(fs@, "rest"@) == Some(Json::Int(p.rest as i64)),
        lookup(fs@, "inactive"@) == Some(Json::Int(p.inactive as i64)),
        lookup(fs@, "inactivity_alerts"@) == Some(Json::Int(p.inactivity_alerts as i64)),
        lookup(fs@, "low"@) == Some(Json::Int(p.low as i64)),
        lookup(fs@, "medium"@) == Some(Json::Int(p.medium as i64)),
        lookup(fs@, "high"@) == Some(Json::Int(p.high as i64)),
        lookup(fs@, "steps"@) == Some(Json::Int(p.steps as i64)),
        lookup(fs@, "cal_total"@) == Some(Json::Int(p.cal_total as i64)),
        lookup(fs@, "cal_active"@) == Some(Json::Int(p.cal_active as i64)),
        lookup(fs@, "met_min_inactive"@) == Some(Json::Int(p.met_min_inactive as i64)),
        lookup(fs@, "met_min_low"@) == Some(Json::Int(p.met_min_low as i64)),
        (lookup(fs@, "met_min_medium_plus"@) is None && p.met_min_medium_plus == 0) || lookup(fs@, "met_min_medium_plus"@) == Some(Json::Int(p.met_min_medium_plus as i64)),
        lookup(fs@, "met_min_medium"@) == Some(Json::Int(p.met_min_medium as i64)),
        lookup(fs@, "met_min_high"@) == Some(Json::Int(p.met_min_high as i64)),
        real_field(lookup(fs@, "average_met"@)) == Some(p.average_met),
        str_of(lookup(fs@, "class_5min"@)) == Some(p.class_5min),
        reals_of(lookup(fs@, "met_1min"@)) == Some(p.met_1min),
    ensures
        activity_period_of(Json::Object(fs)) == Some(p),
{
    lemma_text_parses_back(p.summary_date);
}

} // verus!
