//! The verification pipeline: format, key selection, algorithm, signature,
//! validity period, audience, policy.
use crate::bindings::{decode_signed, decoded_header, signed_payload, tree_to_json};
use crate::claims::{
    addressed_to, check_audience, check_policy, check_validity, claims_of, policy_breach,
    read_claims, within_validity, ClaimsValue, ConstraintsValue, PolicyConstraints,
    VerifiedClaims,
};
use crate::error::VerificationError;
use crate::json::{Json, JsonValue};
use crate::keys::{selected_key, KeySet, SigningKeyValue};
use crate::token::{compact_shape, inspect, TokenHeader};
use vstd::prelude::*;
use vstd::string::StringExecFns;

verus! {

/// The one signature algorithm that is accepted, whatever a token claims.
pub const PINNED_ALGORITHM: &'static str = "RS256";

/// The name of the pinned algorithm, as a sequence of characters.
pub open spec fn pinned_algorithm() -> Seq<char> {
    PINNED_ALGORITHM@
}

/// How tokens are verified.
#[derive(Debug)]
pub struct TokenVerifier {
    /// The audience that a token must be addressed to; `None` leaves the
    /// audience unchecked.
    pub audience: Option<String>,
    /// The seconds by which the clocks of issuer and verifier may differ: a
    /// token is still accepted that many seconds after it has expired, and
    /// that many seconds before it becomes valid. 0 unless set on purpose.
    pub leeway: u64,
    /// Leaves the validity period unchecked. For tests only: a verifier with
    /// this flag accepts expired tokens.
    pub insecure_skip_validity: bool,
}

/// The mathematical value of a `TokenVerifier`.
pub ghost struct VerifierValue {
    pub audience: Option<Seq<char>>,
    pub leeway: u64,
    pub insecure_skip_validity: bool,
}

impl View for TokenVerifier {
    type V = VerifierValue;

    open spec fn view(&self) -> VerifierValue {
        VerifierValue {
            audience: match self.audience {
                Some(s) => Some(s@),
                None => None,
            },
            leeway: self.leeway,
            insecure_skip_validity: self.insecure_skip_validity,
        }
    }
}

/// The value of what a verification returns.
pub open spec fn outcome_value(outcome: Result<VerifiedClaims, VerificationError>) -> Result<
    ClaimsValue,
    VerificationError,
> {
    match outcome {
        Ok(claims) => Ok(claims@),
        Err(e) => Err(e),
    }
}

/// What the payload of a token whose signature has been verified leads to.
///
/// The checks run in this order and the first that fails decides: the claims
/// must be complete (`Format`), the token within its validity period
/// (`Signature`), addressed to the expected audience (`Audience`), from the
/// expected organization and then from the expected repository (`Policy`).
pub open spec fn assessment(
    payload: JsonValue,
    constraints: ConstraintsValue,
    verifier: VerifierValue,
    now: u64,
) -> Result<ClaimsValue, VerificationError> {
    match claims_of(payload) {
        None => Err(VerificationError::Format),
        Some(claims) => if !verifier.insecure_skip_validity && !within_validity(
            payload,
            now,
            verifier.leeway,
        ) {
            Err(VerificationError::Signature)
        } else if verifier.audience is Some && !addressed_to(payload, verifier.audience->Some_0) {
            Err(VerificationError::Audience)
        } else {
            match policy_breach(claims, constraints) {
                Some(breach) => Err(VerificationError::Policy(breach)),
                None => Ok(claims),
            }
        },
    }
}

/// What the verification of `token` against `keys` at the time `now` leads
/// to.
///
/// The token must be three base64url segments with a readable header
/// (`Format`). The header must name a key (`MissingKeyId`) that the key set
/// holds (`KeyNotFound`), and claim the pinned algorithm; the signature must
/// verify under that key and that algorithm (`Signature`). The payload is
/// then assessed.
pub open spec fn verdict(
    token: Seq<char>,
    keys: Seq<SigningKeyValue>,
    constraints: ConstraintsValue,
    verifier: VerifierValue,
    now: u64,
) -> Result<ClaimsValue, VerificationError> {
    if !compact_shape(token) {
        Err(VerificationError::Format)
    } else {
        match decoded_header(token) {
            None => Err(VerificationError::Format),
            Some(header) => match selected_key(keys, header) {
                Err(e) => Err(e),
                Ok(key) => if header.alg != pinned_algorithm() {
                    Err(VerificationError::Signature)
                } else {
                    match signed_payload(token, pinned_algorithm(), key.modulus, key.exponent) {
                        None => Err(VerificationError::Signature),
                        Some(payload) => assessment(payload, constraints, verifier, now),
                    }
                },
            },
        }
    }
}

/// Whether the header claims the pinned algorithm.
pub fn claims_pinned_algorithm(header: &TokenHeader) -> (pinned: bool)
    ensures
        pinned == (header@.alg == pinned_algorithm()),
{
    header.alg == String::from_str(PINNED_ALGORITHM)
}

impl TokenVerifier {
    /// A verifier that checks the validity period to the second, without
    /// leeway, and the audience where one is given.
    pub fn new(audience: Option<String>) -> (verifier: TokenVerifier)
        ensures
            verifier.audience == audience,
            verifier.leeway == 0,
            !verifier.insecure_skip_validity,
    {
        TokenVerifier { audience, leeway: 0, insecure_skip_validity: false }
    }

    /// Decides on the payload of a token whose signature has been verified.
    pub fn assess(&self, payload: &Json, constraints: &PolicyConstraints, now: u64) -> (outcome:
        Result<VerifiedClaims, VerificationError>)
        ensures
            outcome_value(outcome) == assessment(payload@, constraints@, self@, now),
    {
        let claims = match read_claims(payload) {
            Some(claims) => claims,
            None => {
                return Err(VerificationError::Format);
            },
        };
        if !self.insecure_skip_validity && !check_validity(payload, now, self.leeway) {
            return Err(VerificationError::Signature);
        }
        match &self.audience {
            Some(audience) => {
                if !check_audience(payload, audience) {
                    return Err(VerificationError::Audience);
                }
            },
            None => {},
        }
        match check_policy(&claims, constraints) {
            Some(breach) => Err(VerificationError::Policy(breach)),
            None => Ok(claims),
        }
    }

    /// Verifies `token` against `keys` as of the time `now`, in seconds since
    /// the Unix epoch. The caller reads the clock: the outcome depends on the
    /// arguments alone.
    pub fn verify_at(
        &self,
        token: &str,
        keys: &KeySet,
        constraints: &PolicyConstraints,
        now: u64,
    ) -> (outcome: Result<VerifiedClaims, VerificationError>)
        ensures
            outcome_value(outcome) == verdict(token@, keys@, constraints@, self@, now),
    {
        let header = match inspect(token) {
            Ok(header) => header,
            Err(e) => {
                return Err(e);
            },
        };
        let key = match keys.select(&header) {
            Ok(key) => key,
            Err(e) => {
                return Err(e);
            },
        };
        if !claims_pinned_algorithm(&header) {
            return Err(VerificationError::Signature);
        }
        match decode_signed(
            token,
            PINNED_ALGORITHM,
            key.modulus.as_str(),
            key.exponent.as_str(),
        ) {
            Ok(tree) => {
                let payload = tree_to_json(&tree);
                self.assess(&payload, constraints, now)
            },
            Err(_) => Err(VerificationError::Signature),
        }
    }
}

} // verus!
