use vstd::prelude::*;

use crate::errors::StudiFiError;
use crate::errors::StudiFiResult;
use crate::text::contains_char;
use crate::text::validate_email;
use crate::text::white_space;

verus! {

/// Year-of-study limits for student verification.
pub const MIN_YEAR_OF_STUDY: u32 = 1;

pub const MAX_YEAR_OF_STUDY: u32 = 8;

/// Where a know-your-customer check stands.
#[derive(Clone, Copy, Debug, PartialEq, Eq, Structural)]
pub enum KycStatus {
    Pending,
    InProgress,
    Verified,
    Rejected,
    Expired,
}

impl Default for KycStatus {
    /// A fresh check starts pending.
    fn default() -> (r: KycStatus)
        ensures
            r is Pending,
    {
        KycStatus::Pending
    }
}

/// How urgently a verification should be handled.
#[derive(Clone, Copy, Debug, PartialEq, Eq, Structural)]
pub enum VerificationPriority {
    Low,
    Normal,
    High,
    Urgent,
}

impl Default for VerificationPriority {
    /// Requests are handled at normal priority unless asked otherwise.
    fn default() -> (r: VerificationPriority)
        ensures
            r is Normal,
    {
        VerificationPriority::Normal
    }
}

/// A student's request to have their enrollment verified.
#[derive(Clone, Debug)]
pub struct VerificationRequest {
    pub student_id: String,
    pub university: String,
    pub email: String,
    pub full_name: String,
    pub program: String,
    pub year_of_study: u32,
    pub expected_graduation: String,
    pub additional_documents: Vec<String>,
}

/// A batch of verification requests handled together.
#[derive(Clone, Debug)]
pub struct BulkVerificationRequest {
    pub requests: Vec<VerificationRequest>,
    pub batch_id: String,
    pub priority: VerificationPriority,
}

/// How one university's verification endpoint is reached.
#[derive(Clone, Debug)]
pub struct UniversityApiConfig {
    pub university_name: String,
    pub api_endpoint: String,
    pub api_key_hash: String,
    pub supported_verification_types: Vec<String>,
    pub rate_limit_per_hour: u32,
    pub is_active: bool,
}

/// Kinds of documents accepted as verification evidence.
#[derive(Clone, Debug, PartialEq, Eq)]
pub enum DocumentType {
    StudentId,
    Transcript,
    EnrollmentVerification,
    GraduationCertificate,
    Other(String),
}

/// Where a verifiable-credential check stands.
#[derive(Clone, Copy, Debug, PartialEq, Eq, Structural)]
pub enum VcVerificationStatus {
    Pending,
    InProgress,
    Completed,
    Failed,
    Expired,
}

/// `s` has at least one character that is not whitespace.
pub open spec fn has_visible_text(s: Seq<char>) -> bool {
    exists|i: int| 0 <= i < s.len() && !white_space(#[trigger] s[i])
}

/// True when the text holds any character beyond whitespace.
fn has_visible_char(s: &str) -> (r: bool)
    ensures
        r == has_visible_text(s@),
{
    let n = s.unicode_len();
    let mut i: usize = 0;
    while i < n
        invariant
            i <= n == s@.len(),
            forall|j: int| 0 <= j < i ==> white_space(#[trigger] s@[j]),
        decreases n - i,
    {
        if !crate::text::is_whitespace_char(s.get_char(i)) {
            return true;
        }
        i += 1;
    }
    false
}

/// A verification request is acceptable when its email is well formed, its
/// text fields hold visible characters, and the year of study is in range.
pub open spec fn verification_request_ok(r: VerificationRequest) -> bool {
    &&& r.email@.contains('@') && r.email@.contains('.') && r.email@.len() > 5
    &&& has_visible_text(r.full_name@)
    &&& has_visible_text(r.university@)
    &&& has_visible_text(r.student_id@)
    &&& has_visible_text(r.program@)
    &&& MIN_YEAR_OF_STUDY <= r.year_of_study <= MAX_YEAR_OF_STUDY
}

impl crate::common::Validate for VerificationRequest {
    /// Accept the request exactly when every field passes its check.
    fn validate(&self) -> (r: StudiFiResult<()>)
        ensures
            r is Ok <==> verification_request_ok(*self),
            r matches Err(e) ==> e is InvalidInput,
    {
        match validate_email(self.email.as_str()) {
            Ok(()) => {},
            Err(e) => {
                return Err(e);
            },
        }
        if !has_visible_char(self.full_name.as_str()) {
            return Err(StudiFiError::InvalidInput("Full name cannot be empty".to_owned()));
        }
        if !has_visible_char(self.university.as_str()) {
            return Err(StudiFiError::InvalidInput("University cannot be empty".to_owned()));
        }
        if !has_visible_char(self.student_id.as_str()) {
            return Err(StudiFiError::InvalidInput("Student ID cannot be empty".to_owned()));
        }
        if !has_visible_char(self.program.as_str()) {
            return Err(StudiFiError::InvalidInput("Program cannot be empty".to_owned()));
        }
        if self.year_of_study < MIN_YEAR_OF_STUDY || self.year_of_study > MAX_YEAR_OF_STUDY {
            return Err(
                StudiFiError::InvalidInput("Year of study must be between 1 and 8".to_owned()),
            );
        }
        Ok(())
    }
}

/// Checks over verifiable credentials presented by users.
pub struct VerifiableCredentialService;

impl VerifiableCredentialService {
    /// Shallow check of a verifiable presentation: the token must be
    /// non-empty and carry at least two dot-separated parts.
    pub fn verify_presentation(jwt: &str) -> (r: StudiFiResult<bool>)
        ensures
            r is Ok <==> (jwt@.len() > 0 && jwt@.contains('.')),
            r matches Ok(v) ==> v,
            r matches Err(e) ==> e is InvalidInput,
    {
        if jwt.unicode_len() == 0 || !contains_char(jwt, '.') {
            return Err(StudiFiError::InvalidInput("Invalid JWT format".to_owned()));
        }
        Ok(true)
    }
}

} // verus!
