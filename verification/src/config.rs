//! Per-batch settings and their resolution into the concrete parameters of
//! one request: timeout and User-Agent defaults applied, cookie and extra
//! headers passed through.

use vstd::prelude::*;

verus! {

/// Per-batch settings, supplied once by the caller; each probe task works
/// from its own copy, so no probe observes another's state.
pub struct Config {
    /// Overrides the default User-Agent when present.
    pub user_agent: Option<String>,
    /// Raw `Cookie` header value, attached to the request when present.
    pub cookie: Option<String>,
    /// Per-request timeout in seconds; the default applies when absent.
    pub timeout: Option<u64>,
    /// Additional request headers, names unique.
    pub headers: Option<Vec<(String, String)>>,
}

/// The per-request timeout, in seconds, when the settings name none.
pub open spec fn default_timeout() -> u64 {
    30
}

/// The User-Agent sent when the settings name none: a fixed desktop-browser
/// string.
pub open spec fn default_user_agent() -> Seq<char> {
    "Mozilla/5.0 (Windows NT 10.0; Win64; x64) AppleWebKit/537.36"@
}

/// Everything one probe task needs to issue its request: the target URL and
/// the fully resolved client settings.
pub struct RequestPlan {
    /// The fully-qualified URL to request.
    pub url: String,
    /// Timeout for the whole request, in seconds.
    pub timeout_seconds: u64,
    /// The User-Agent header value to send.
    pub user_agent: String,
    /// The `Cookie` header value to attach, if any.
    pub cookie: Option<String>,
    /// Extra request headers to attach, in the order given.
    pub headers: Vec<(String, String)>,
}

/// Resolves the settings for one probe of `url`: the configured timeout or
/// the default, the configured User-Agent or the default, the cookie as
/// given, and the extra headers as given (an absent mapping meaning none).
pub fn plan_request(url: String, config: &Config) -> (r: RequestPlan)
    ensures
        r.url == url,
        r.timeout_seconds == match config.timeout {
            Some(t) => t,
            None => default_timeout(),
        },
        r.user_agent@ == match config.user_agent {
            Some(ua) => ua@,
            None => default_user_agent(),
        },
        r.cookie.deep_view() == config.cookie.deep_view(),
        r.headers.deep_view() == match config.headers {
            Some(hs) => hs.deep_view(),
            None => Seq::<(Seq<char>, Seq<char>)>::empty(),
        },
{
    let timeout_seconds = match &config.timeout {
        Some(t) => *t,
        None => 30,
    };
    let user_agent = match &config.user_agent {
        Some(ua) => ua.clone(),
        None => String::from_str("Mozilla/5.0 (Windows NT 10.0; Win64; x64) AppleWebKit/537.36"),
    };
    let cookie = match &config.cookie {
        Some(c) => Some(c.clone()),
        None => None,
    };
    let mut headers: Vec<(String, String)> = Vec::new();
    match &config.headers {
        Some(hs) => {
            let mut i: usize = 0;
            while i < hs.len()
                invariant
                    0 <= i <= hs@.len(),
                    headers@.len() == i,
                    forall|j: int| 0 <= j < i ==> headers@[j].0@ == hs@[j].0@ && headers@[j].1@
                        == hs@[j].1@,
                decreases hs@.len() - i,
            {
                let name = hs[i].0.clone();
                let value = hs[i].1.clone();
                headers.push((name, value));
                i = i + 1;
            }
            proof {
                assert(headers.deep_view() =~= hs.deep_view());
            }
        },
        None => {
            proof {
                assert(headers.deep_view() =~= Seq::<(Seq<char>, Seq<char>)>::empty());
            }
        },
    }
    RequestPlan { url, timeout_seconds, user_agent, cookie, headers }
}

} // verus!
