//! What the service says of itself, and what it logs per request.
use vstd::prelude::*;
use vstd::string::StringExecFns;

verus! {

/// What the service tells about itself.
#[derive(Clone, Debug)]
pub struct ServiceInfo {
    pub service_name: String,
    pub service_version: String,
    pub service_env: String,
    pub timestamp_utc: i64,
}

/// The line logged when a request comes in.
pub fn log_inbound() -> (r: String)
    ensures
        r@ == "Inbound"@,
{
    String::from_str("Inbound")
}

/// The environment reported when none is configured.
pub open spec fn default_env() -> Seq<char> {
    "development"@
}

impl ServiceInfo {
    /// The service's description at a time given in whole seconds since the
    /// Unix epoch.
    pub fn new(name: &str, version: &str, env: Option<&str>, unix_seconds: u64) -> (r: ServiceInfo)
        ensures
            r.service_name@ == name@,
            r.service_version@ == version@,
            r.service_env@ == (match env {
                Some(e) => e@,
                None => default_env(),
            }),
            r.timestamp_utc == unix_seconds as i64,
    {
        let service_env = match env {
            Some(e) => String::from_str(e),
            None => String::from_str("development"),
        };
        ServiceInfo {
            service_name: String::from_str(name),
            service_version: String::from_str(version),
            service_env,
            timestamp_utc: unix_seconds as i64,
        }
    }
}

} // verus!
