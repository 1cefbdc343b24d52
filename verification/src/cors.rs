//! The cross-origin policy filter the service composer wraps around every
//! request: a static allow-list of origins, the advertised methods and
//! headers for preflight answers, a preflight cache lifetime, and whether
//! credentialed requests are honored.

use vstd::prelude::*;

verus! {

/// A sequence of strings holds `x` by characters.
pub open spec fn contains_str(s: Seq<String>, x: Seq<char>) -> bool {
    exists|i: int| 0 <= i < s.len() && (#[trigger] s[i])@ == x
}

/// Whether `v` holds a string with the characters of `x`.
pub fn vec_contains(v: &Vec<String>, x: &String) -> (r: bool)
    ensures
        r == contains_str(v@, x@),
{
    let n = v.len();
    let mut i: usize = 0;
    while i < n
        invariant
            0 <= i <= n,
            n == v@.len(),
            forall|k: int| 0 <= k < i ==> (#[trigger] v@[k])@ != x@,
        decreases n - i,
    {
        if v[i].eq(x) {
            return true;
        }
        i = i + 1;
    }
    false
}

/// The static cross-origin policy, fixed for the process lifetime.
pub struct CorsPolicy {
    /// Origins allowed to make cross-origin requests.
    pub allowed_origins: Vec<String>,
    /// Methods advertised to allowed origins.
    pub allowed_methods: Vec<String>,
    /// Headers advertised to allowed origins.
    pub allowed_headers: Vec<String>,
    /// Whether credentialed requests are honored.
    pub allow_credentials: bool,
    /// How long a preflight result may be cached, in seconds.
    pub max_age_secs: u64,
}

/// The policy's verdict on one request.
pub enum CorsDecision {
    /// The origin is not in the allowed set: the request is rejected.
    Rejected,
    /// An ordinary request from an allowed origin passes through;
    /// credentials are honored only as configured.
    Allowed { credentials: bool },
    /// A preflight request from an allowed origin is answered with the
    /// advertised methods and headers and the cache lifetime.
    Preflight { methods: Vec<String>, headers: Vec<String>, max_age_secs: u64, credentials: bool },
}

impl CorsPolicy {
    /// The restricted policy the deployment declares: only GET and POST
    /// from the named origins, with at least the content-type header.
    pub fn restricted(allowed_origins: Vec<String>, max_age_secs: u64, allow_credentials: bool) -> (r: CorsPolicy)
        ensures
            r.allowed_origins == allowed_origins,
            r.allowed_methods@.len() == 2,
            r.allowed_methods@[0]@ == "GET"@,
            r.allowed_methods@[1]@ == "POST"@,
            r.allowed_headers@.len() == 1,
            r.allowed_headers@[0]@ == "content-type"@,
            r.allow_credentials == allow_credentials,
            r.max_age_secs == max_age_secs,
    {
        let mut allowed_methods: Vec<String> = Vec::new();
        allowed_methods.push("GET".to_owned());
        allowed_methods.push("POST".to_owned());
        let mut allowed_headers: Vec<String> = Vec::new();
        allowed_headers.push("content-type".to_owned());
        CorsPolicy { allowed_origins, allowed_methods, allowed_headers, allow_credentials, max_age_secs }
    }

    /// Applies the policy to one request, given its origin and whether it
    /// is a preflight. A request from an origin outside the allowed set is
    /// rejected, always and only then; a preflight from an allowed origin
    /// is answered with exactly the configured methods, headers and cache
    /// lifetime; credentials are honored exactly when configured.
    pub fn evaluate(&self, origin: &String, preflight: bool) -> (r: CorsDecision)
        ensures
            (r is Rejected) <==> !contains_str(self.allowed_origins@, origin@),
            contains_str(self.allowed_origins@, origin@) && !preflight ==> (
            r matches CorsDecision::Allowed { credentials } && credentials
                == self.allow_credentials),
            contains_str(self.allowed_origins@, origin@) && preflight ==> (
            r matches CorsDecision::Preflight { methods, headers, max_age_secs, credentials } && {
                &&& methods@ == self.allowed_methods@
                &&& headers@ == self.allowed_headers@
                &&& max_age_secs == self.max_age_secs
                &&& credentials == self.allow_credentials
            }),
    {
        if !vec_contains(&self.allowed_origins, origin) {
            CorsDecision::Rejected
        } else if preflight {
            let methods = self.allowed_methods.clone();
            let headers = self.allowed_headers.clone();
            proof {
                assert forall|i: int| 0 <= i < self.allowed_methods@.len() implies methods@[i]
                    == self.allowed_methods@[i] by {
                    assert(cloned::<String>(self.allowed_methods@[i], methods@[i]));
                }
                assert(methods@ =~= self.allowed_methods@);
                assert forall|i: int| 0 <= i < self.allowed_headers@.len() implies headers@[i]
                    == self.allowed_headers@[i] by {
                    assert(cloned::<String>(self.allowed_headers@[i], headers@[i]));
                }
                assert(headers@ =~= self.allowed_headers@);
            }
            CorsDecision::Preflight {
                methods,
                headers,
                max_age_secs: self.max_age_secs,
                credentials: self.allow_credentials,
            }
        } else {
            CorsDecision::Allowed { credentials: self.allow_credentials }
        }
    }
}

} // verus!
