//! Plain configuration values the application is started with.

use vstd::prelude::*;
use vstd::string::StringExecFns;

use crate::naming::spec_decimal;

verus! {

/// Where the application listens.
pub struct AppConfig {
    pub port: u16,
    pub host: String,
}

impl AppConfig {
    /// The listen address, `"<host>:<port>"`.
    pub fn address(&self) -> (r: String)
        ensures
            r@ == self.host@ + ":"@ + spec_decimal(self.port as u32),
    {
        let mut r = self.host.clone();
        r.append(":");
        crate::naming::append_decimal(&mut r, self.port);
        proof {
            assert(r@ =~= self.host@ + ":"@ + spec_decimal(self.port as u32));
        }
        r
    }
}

/// The base URL the application is reached under, kept as plain text.
pub struct ApplicationBaseUrl(pub String);

} // verus!
