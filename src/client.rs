use vstd::prelude::*;
use vstd::string::StringExecFns;
use crate::date::{Date, TimeOpts};
use crate::endpoint::Resource;
use crate::schema::{
    activity_period_of, decode_activity, decode_bedtime, decode_readiness, decode_sleep,
    decode_user_info, ideal_bedtimes_of, list_under, readiness_period_of, sleep_period_of,
    user_info_of, ActivityPeriod, IdealBedtimes, Json, ReadinessPeriod, SleepPeriod, UserInfo,
};

verus! {

/// Why a call did not return a decoded record.
#[derive(Debug)]
pub enum ClientError {
    /// The token or the dates could not be put into the request's address.
    UrlConstruction,
    /// No response came back.
    Network(String),
    /// The server answered with this status outside 200 to 299, and this body.
    HttpStatus(u16, String),
    /// The body did not match the resource's schema.
    Decode(Resource, String),
}

/// What `url::Url::parse_with_params` makes of a base address and query pairs:
/// the serialized address, or none where the base does not parse.
pub uninterp spec fn url_with_params(base: Seq<char>, pairs: Seq<(Seq<char>, Seq<char>)>) -> Option<
    Seq<char>,
>;

pub open spec fn pairs_view(pairs: Seq<(String, String)>) -> Seq<(Seq<char>, Seq<char>)> {
    pairs.map_values(|p: (String, String)| (p.0@, p.1@))
}

/// Relies on url::Url::parse_with_params: it parses `base`, appends each pair
/// form-urlencoded to the query, and fails only where `base` does not parse; the
/// address it gives depends on its arguments alone.
#[verifier::external_body]
fn parse_with_params(base: &str, pairs: &Vec<(String, String)>) -> (r: Option<String>)
    ensures
        r matches Some(u) ==> url_with_params(base@, pairs_view(pairs@)) == Some(u@),
        r is None ==> url_with_params(base@, pairs_view(pairs@)) is None,
{
    url::Url::parse_with_params(base, pairs.iter()).ok().map(String::from)
}

/// The dates of a request are usable: valid where they are used, and a week
/// before the end lies within the calendar where the start is defaulted.
pub open spec fn range_ok(range: Option<TimeOpts>, today: Date) -> bool {
    range matches Some(o) ==> (o.wf() && (o.end is None ==> today.wf()) && (o.start is None
        ==> o.end_date(today).can_go_back(7)))
}

/// The query of a request: the token, then the resolved dates where the
/// resource takes them and the caller gave a range.
pub open spec fn query_pairs(
    token: Seq<char>,
    resource: Resource,
    range: Option<TimeOpts>,
    today: Date,
) -> Seq<(Seq<char>, Seq<char>)> {
    let auth = seq![("access_token"@, token)];
    match range {
        Some(o) if resource.spec_accepts_range() => auth + seq![
            ("start"@, o.start_date(today).text()),
            ("end"@, o.end_date(today).text()),
        ],
        _ => auth,
    }
}

/// The request's address, or the error for one that cannot be built.
pub open spec fn request_url_spec(
    token: Seq<char>,
    resource: Resource,
    range: Option<TimeOpts>,
    today: Date,
) -> Option<Seq<char>> {
    url_with_params(resource.spec_url(), query_pairs(token, resource, range, today))
}

/// A handle on the vendor's API, holding the personal access token.
pub struct Client {
    pub token: String,
}

impl Client {
    /// Keeps the token; nothing is checked and nothing is sent.
    pub fn new(token: String) -> (r: Self)
        ensures
            r.token == token,
    {
        Client { token }
    }

    /// The query pairs of a request for `resource`.
    pub fn query_params(&self, resource: Resource, range: &Option<TimeOpts>, today: Date) -> (r:
        Vec<(String, String)>)
        requires
            range_ok(*range, today),
        ensures
            pairs_view(r@) == query_pairs(self.token@, resource, *range, today),
    {
        let mut r: Vec<(String, String)> = Vec::new();
        proof {
            reveal_strlit("access_token");
            reveal_strlit("start");
            reveal_strlit("end");
        }
        r.push((String::from_str("access_token"), self.token.clone()));
        if resource.endpoint().accepts_range {
            if let Some(o) = range {
                let (start, end) = o.resolve(today);
                r.push((String::from_str("start"), start.format()));
                r.push((String::from_str("end"), end.format()));
            }
        }
        assert(pairs_view(r@) =~= query_pairs(self.token@, resource, *range, today));
        r
    }

    /// The address of a request for `resource`: the table's address with the
    /// token and, where the resource takes dates and a range is given, the
    /// resolved `start` and `end` in the query.
    pub fn request_url(&self, resource: Resource, range: Option<TimeOpts>, today: Date) -> (r:
        Result<String, ClientError>)
        requires
            range_ok(range, today),
        ensures
            r matches Ok(u) ==> request_url_spec(self.token@, resource, range, today) == Some(u@),
            r matches Err(e) ==> e is UrlConstruction && request_url_spec(
                self.token@,
                resource,
                range,
                today,
            ) is None,
    {
        let params = self.query_params(resource, &range, today);
        match parse_with_params(resource.endpoint().url, &params) {
            Some(u) => Ok(u),
            None => Err(ClientError::UrlConstruction),
        }
    }

    /// The address of a request for activity summaries over a date range.
    pub fn activity(&self, opts: TimeOpts, today: Date) -> (r: Result<String, ClientError>)
        requires
            range_ok(Some(opts), today),
        ensures
            r matches Ok(u) ==> request_url_spec(self.token@, Resource::Activity, Some(opts), today)
                == Some(u@),
            r matches Err(e) ==> e is UrlConstruction && request_url_spec(
                self.token@,
                Resource::Activity,
                Some(opts),
                today,
            ) is None,
    {
        self.request_url(Resource::Activity, Some(opts), today)
    }
}

/// The body of a response with a status of 200 to 299, handed on to be decoded;
/// any other status is an error carrying the status and the body.
pub fn check_response(status: u16, body: String) -> (r: Result<String, ClientError>)
    ensures
        200 <= status <= 299 ==> r == Ok::<String, ClientError>(body),
        !(200 <= status <= 299) ==> r == Err::<String, ClientError>(
            ClientError::HttpStatus(status, body),
        ),
{
    if 200 <= status && status <= 299 {
        Ok(body)
    } else {
        Err(ClientError::HttpStatus(status, body))
    }
}


/// A decoded response: the profile, or the records listed in the wrapper.
#[derive(Debug)]
pub enum Record {
    UserInfo(UserInfo),
    Sleep(Vec<SleepPeriod>),
    Readiness(Vec<ReadinessPeriod>),
    Activity(Vec<ActivityPeriod>),
    Bedtime(Vec<IdealBedtimes>),
}

/// `r` is what `v` decodes to as a response of `resource`, or the decode
/// error for it where `v` does not match the resource's schema.
pub open spec fn decoded_as(resource: Resource, v: Json, r: Result<Record, ClientError>) -> bool {
    match resource {
        Resource::UserInfo => match r {
            Ok(Record::UserInfo(u)) => user_info_of(v) == Some(u@),
            Err(ClientError::Decode(res, _)) => res == resource && user_info_of(v) is None,
            _ => false,
        },
        Resource::Sleep => match r {
            Ok(Record::Sleep(x)) => list_under(v, "sleep"@, |j: Json| sleep_period_of(j)) == Some(
                x@.map_values(|b: SleepPeriod| b@),
            ),
            Err(ClientError::Decode(res, _)) => res == resource && list_under(
                v,
                "sleep"@,
                |j: Json| sleep_period_of(j),
            ) is None,
            _ => false,
        },
        Resource::Readiness => match r {
            Ok(Record::Readiness(x)) => list_under(v, "readiness"@, |j: Json| readiness_period_of(j))
                == Some(x@),
            Err(ClientError::Decode(res, _)) => res == resource && list_under(
                v,
                "readiness"@,
                |j: Json| readiness_period_of(j),
            ) is None,
            _ => false,
        },
        Resource::Activity => match r {
            Ok(Record::Activity(x)) => list_under(v, "activity"@, |j: Json| activity_period_of(j))
                == Some(x@.map_values(|b: ActivityPeriod| b@)),
            Err(ClientError::Decode(res, _)) => res == resource && list_under(
                v,
                "activity"@,
                |j: Json| activity_period_of(j),
            ) is None,
            _ => false,
        },
        Resource::Bedtime => match r {
            Ok(Record::Bedtime(x)) => list_under(v, "ideal_bedtimes"@, |j: Json| ideal_bedtimes_of(j))
                == Some(x@.map_values(|b: IdealBedtimes| b@)),
            Err(ClientError::Decode(res, _)) => res == resource && list_under(
                v,
                "ideal_bedtimes"@,
                |j: Json| ideal_bedtimes_of(j),
            ) is None,
            _ => false,
        },
    }
}

fn schema_mismatch(resource: Resource) -> (r: ClientError)
    ensures
        r matches ClientError::Decode(res, _) && res == resource,
{
    ClientError::Decode(resource, String::from_str("the body does not match the schema"))
}

/// Decodes a parsed response body against the schema of `resource`.
pub fn decode_response(resource: Resource, v: &Json) -> (r: Result<Record, ClientError>)
    ensures
        decoded_as(resource, *v, r),
{
    match resource {
        Resource::UserInfo => match decode_user_info(v) {
            Some(u) => Ok(Record::UserInfo(u)),
            None => Err(schema_mismatch(resource)),
        },
        Resource::Sleep => match decode_sleep(v) {
            Some(x) => Ok(Record::Sleep(x)),
            None => Err(schema_mismatch(resource)),
        },
        Resource::Readiness => match decode_readiness(v) {
            Some(x) => Ok(Record::Readiness(x)),
            None => Err(schema_mismatch(resource)),
        },
        Resource::Activity => match decode_activity(v) {
            Some(x) => Ok(Record::Activity(x)),
            None => Err(schema_mismatch(resource)),
        },
        Resource::Bedtime => match decode_bedtime(v) {
            Some(x) => Ok(Record::Bedtime(x)),
            None => Err(schema_mismatch(resource)),
        },
    }
}

} // verus!
