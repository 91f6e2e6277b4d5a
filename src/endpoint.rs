use vstd::prelude::*;

verus! {

/// One data category of the vendor's API.
#[derive(Clone, Copy, Debug, PartialEq, Eq, Structural)]
pub enum Resource {
    UserInfo,
    Sleep,
    Readiness,
    Activity,
    Bedtime,
}

/// Where a resource is fetched from and how its response is shaped.
pub struct Endpoint {
    /// The full address of the resource, without a query.
    pub url: &'static str,
    /// Whether the resource takes `start` and `end` dates.
    pub accepts_range: bool,
    /// The key of the one array in the response, or none for a bare object.
    pub wrapper_key: Option<&'static str>,
}

impl Resource {
    pub open spec fn spec_url(self) -> Seq<char> {
        match self {
            Resource::UserInfo => "https://api.ouraring.com/v1/userinfo"@,
            Resource::Sleep => "https://api.ouraring.com/v1/sleep"@,
            Resource::Readiness => "https://api.ouraring.com/v1/readiness"@,
            Resource::Activity => "https://api.ouraring.com/v1/activity"@,
            Resource::Bedtime => "https://api.ouraring.com/v1/bedtime"@,
        }
    }

    pub open spec fn spec_accepts_range(self) -> bool {
        self is Sleep || self is Readiness || self is Activity
    }

    pub open spec fn spec_wrapper_key(self) -> Option<Seq<char>> {
        match self {
            Resource::UserInfo => None,
            Resource::Sleep => Some("sleep"@),
            Resource::Readiness => Some("readiness"@),
            Resource::Activity => Some("activity"@),
            Resource::Bedtime => Some("ideal_bedtimes"@),
        }
    }

    /// The table entry of this resource.
    pub fn endpoint(&self) -> (r: Endpoint)
        ensures
            r.url@ == self.spec_url(),
            r.accepts_range == self.spec_accepts_range(),
            r.wrapper_key matches Some(k) ==> self.spec_wrapper_key() == Some(k@),
            r.wrapper_key is None <==> self.spec_wrapper_key() is None,
    {
        match self {
            Resource::UserInfo => Endpoint {
                url: "https://api.ouraring.com/v1/userinfo",
                accepts_range: false,
                wrapper_key: None,
            },
            Resource::Sleep => Endpoint {
                url: "https://api.ouraring.com/v1/sleep",
                accepts_range: true,
                wrapper_key: Some("sleep"),
            },
            Resource::Readiness => Endpoint {
                url: "https://api.ouraring.com/v1/readiness",
                accepts_range: true,
                wrapper_key: Some("readiness"),
            },
            Resource::Activity => Endpoint {
                url: "https://api.ouraring.com/v1/activity",
                accepts_range: true,
                wrapper_key: Some("activity"),
            },
            Resource::Bedtime => Endpoint {
                url: "https://api.ouraring.com/v1/bedtime",
                accepts_range: false,
                wrapper_key: Some("ideal_bedtimes"),
            },
        }
    }
}

} // verus!
