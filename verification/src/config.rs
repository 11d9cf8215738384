//! The identity record: server name, location, address and description,
//! together with the signing secret and the token issued over it.

use vstd::prelude::*;

use crate::auth::{claims_view, decoded_claims, encode_claims, fresh_secret, token_of, ClaimsView};

verus! {

/// The expiry instant stamped into every issued claim set: an absolute time
/// far in the future, effectively non-expiring but still enforced.
pub const CLAIM_EXPIRY: u64 = 2000000000;

/// The claim set embedded in a token.
#[derive(Debug, Clone, PartialEq, Eq)]
pub struct Claims {
    pub location: String,
    pub ip_port: String,
    pub description: String,
    pub uuid: String,
    pub exp: u64,
}

impl View for Claims {
    type V = ClaimsView;

    open spec fn view(&self) -> ClaimsView {
        claims_view(self.location@, self.ip_port@, self.description@, self.uuid@, self.exp)
    }
}

/// The durable identity record. Built once per deployment; the secret is
/// generated exactly then, and the token is signed over it at the same time.
#[derive(Debug, Clone, PartialEq, Eq)]
pub struct ServerConfig {
    pub name: String,
    pub location: String,
    pub ip_port: String,
    pub description: String,
    pub password: String,
    pub token: String,
}

impl ServerConfig {
    /// The claim set this record's token is issued over: the identity fields,
    /// the secret echoed as a self-contained identifier, and the fixed expiry.
    pub open spec fn claims(&self) -> ClaimsView {
        claims_view(self.location@, self.ip_port@, self.description@, self.password@, CLAIM_EXPIRY)
    }

    /// Well-formedness: the stored token verifies under the stored secret and
    /// carries exactly this record's claim set.
    pub open spec fn wf(&self) -> bool {
        decoded_claims(self.token@, self.password@) == Some(self.claims())
    }

    /// Provision a fresh identity record: draw a new random secret, build the
    /// claim set with the far-future expiry, and sign it into a token. The
    /// signing scheme never refuses the claim object this builds, so the
    /// record returned is always fully populated.
    pub fn new(name: String, location: String, ip_port: String, description: String) -> (cfg:
        ServerConfig)
        ensures
            cfg.name@ == name@,
            cfg.location@ == location@,
            cfg.ip_port@ == ip_port@,
            cfg.description@ == description@,
            cfg.password@.len() == 36,
            cfg.token@ == token_of(cfg.claims(), cfg.password@),
            cfg.wf(),
    {
        let password = fresh_secret();
        let token = encode_claims(
            location.as_str(),
            ip_port.as_str(),
            description.as_str(),
            password.as_str(),
            CLAIM_EXPIRY,
            password.as_str(),
        ).unwrap();
        ServerConfig { name, location, ip_port, description, password, token }
    }
}

impl Default for ServerConfig {
    /// The empty record: every field blank, no secret and no token.
    fn default() -> (r: ServerConfig)
        ensures
            r.name@.len() == 0,
            r.location@.len() == 0,
            r.ip_port@.len() == 0,
            r.description@.len() == 0,
            r.password@.len() == 0,
            r.token@.len() == 0,
    {
        ServerConfig {
            name: String::new(),
            location: String::new(),
            ip_port: String::new(),
            description: String::new(),
            password: String::new(),
            token: String::new(),
        }
    }
}

} // verus!
