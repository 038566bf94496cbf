//! The classified failures of key-set loading and token verification.
use vstd::prelude::*;
use vstd::string::StringExecFns;

verus! {

/// A verified claim that contradicts what the operator expects.
#[derive(Debug, Clone, Copy, PartialEq, Eq, Structural)]
pub enum PolicyError {
    /// The owner of the issuing repository is not the expected organization.
    OrganizationMismatch,
    /// The issuing repository is not the expected repository.
    RepositoryMismatch,
}

/// Why a key set could not be obtained or a token was rejected.
#[derive(Debug, Clone, Copy, PartialEq, Eq, Structural)]
pub enum VerificationError {
    /// The key set could not be fetched from the issuer.
    Fetch,
    /// The key-set document or the token is not structurally valid.
    Format,
    /// The token names a key that the key set does not hold.
    KeyNotFound,
    /// The token names no key at all.
    MissingKeyId,
    /// The signature does not verify, or the token is outside its validity period.
    Signature,
    /// The token is not addressed to the expected audience.
    Audience,
    /// The verified claims contradict the operator's constraints.
    Policy(PolicyError),
}

impl VerificationError {
    /// The text of `message`, as a sequence of characters.
    pub open spec fn spec_message(self) -> Seq<char> {
        match self {
            VerificationError::Fetch => "Failed to fetch JWKS"@,
            VerificationError::Format => "Invalid token format. Expected a JWT."@,
            VerificationError::KeyNotFound => "Matching key not found in JWKS"@,
            VerificationError::MissingKeyId => "Token does not name a signing key"@,
            VerificationError::Signature => "Failed to decode token"@,
            VerificationError::Audience => "Token is not for the expected audience"@,
            VerificationError::Policy(PolicyError::OrganizationMismatch) =>
                "Token is not from the expected organization"@,
            VerificationError::Policy(PolicyError::RepositoryMismatch) =>
                "Token is not from the expected repository"@,
        }
    }

    /// A description that is safe to show to a client: it names the kind of
    /// failure and nothing of the keys or of the token.
    pub fn message(&self) -> (text: String)
        ensures
            text@ == self.spec_message(),
    {
        match self {
            VerificationError::Fetch => String::from_str("Failed to fetch JWKS"),
            VerificationError::Format => String::from_str("Invalid token format. Expected a JWT."),
            VerificationError::KeyNotFound => String::from_str("Matching key not found in JWKS"),
            VerificationError::MissingKeyId => String::from_str("Token does not name a signing key"),
            VerificationError::Signature => String::from_str("Failed to decode token"),
            VerificationError::Audience => String::from_str("Token is not for the expected audience"),
            VerificationError::Policy(PolicyError::OrganizationMismatch) => String::from_str(
                "Token is not from the expected organization",
            ),
            VerificationError::Policy(PolicyError::RepositoryMismatch) => String::from_str(
                "Token is not from the expected repository",
            ),
        }
    }

    /// What a client is told of a rejected token: `Invalid token: ` and the
    /// message.
    pub fn rejection(&self) -> (text: String)
        ensures
            text@ == "Invalid token: "@ + self.spec_message(),
    {
        let message = self.message();
        String::from_str("Invalid token: ").concat(message.as_str())
    }
}

} // verus!
