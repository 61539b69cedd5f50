use vstd::prelude::*;

use crate::Timestamp;
use crate::text::generate_id;
use crate::text::id_text;

verus! {

/// How long an issued credential stays valid.
pub const CREDENTIAL_VALIDITY_NANOS: u64 = 365 * 24 * 60 * 60 * 1_000_000_000;

/// A signed identity alias presented by the wallet.
#[derive(Clone, Debug)]
pub struct SignedIdAlias {
    pub credential_jws: String,
}

/// The opaque context a prepared credential carries between the two issuance
/// steps.
#[derive(Clone, Debug)]
pub struct PreparedCredentialData {
    pub prepared_context: Vec<u8>,
}

/// The signed credential handed back to the wallet.
#[derive(Clone, Debug)]
pub struct IssuedCredentialData {
    pub vc_jws: String,
}

/// One credential the university issued, with its lifetime and revocation
/// state.
#[derive(Debug)]
pub struct CredentialIssuanceRecord {
    pub id: String,
    pub student_id: String,
    pub credential_type: String,
    pub issued_at: Timestamp,
    pub expires_at: Option<Timestamp>,
    pub revoked: bool,
    pub revoked_at: Option<Timestamp>,
}

impl CredentialIssuanceRecord {
    /// A fresh record issued at `now`, valid for one year.
    pub fn new(student_id: String, credential_type: String, now: Timestamp) -> (r:
        CredentialIssuanceRecord)
        requires
            now + CREDENTIAL_VALIDITY_NANOS <= u64::MAX,
        ensures
            r.id@ == id_text("CRED"@, 1),
            r.student_id@ == student_id@,
            r.credential_type@ == credential_type@,
            r.issued_at == now,
            r.expires_at == Some((now + CREDENTIAL_VALIDITY_NANOS) as u64),
            !r.revoked,
            r.revoked_at is None,
    {
        CredentialIssuanceRecord {
            id: generate_id("CRED", 1),
            student_id,
            credential_type,
            issued_at: now,
            expires_at: Some(now + CREDENTIAL_VALIDITY_NANOS),
            revoked: false,
            revoked_at: None,
        }
    }

    /// True when the credential's lifetime has run out at `now`; one without
    /// an expiry never expires.
    pub fn is_expired(&self, now: Timestamp) -> (r: bool)
        ensures
            r == (self.expires_at matches Some(e) && now > e),
    {
        match self.expires_at {
            Some(expires_at) => now > expires_at,
            None => false,
        }
    }

    /// Revoke the credential at `now`.
    pub fn revoke(&mut self, now: Timestamp)
        ensures
            *final(self) == (CredentialIssuanceRecord {
                revoked: true,
                revoked_at: Some(now),
                ..*old(self)
            }),
    {
        self.revoked = true;
        self.revoked_at = Some(now);
    }

    /// A valid credential: not revoked and not expired at `now`.
    pub fn is_valid(&self, now: Timestamp) -> (r: bool)
        ensures
            r == (!self.revoked && !(self.expires_at matches Some(e) && now > e)),
    {
        !self.revoked && !self.is_expired(now)
    }
}

} // verus!
