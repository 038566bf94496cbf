//! What the verification pipeline guarantees, whatever `jsonwebtoken` makes
//! of a token.
use crate::bindings::{decoded_header, signed_payload};
use crate::claims::{
    addressed_to, claims_of, policy_breach, within_validity, ClaimsValue, ConstraintsValue,
    VerifiedClaims,
};
use crate::error::{PolicyError, VerificationError};
use crate::json::JsonValue;
use crate::keys::{find_key, lemma_find_from, selected_key, SigningKeyValue};
use crate::token::compact_shape;
use crate::verify::{outcome_value, pinned_algorithm, verdict, VerifierValue};
use vstd::prelude::*;

verus! {

/// `token` is a compact token that names a key of `keys` and claims the
/// pinned algorithm, and its signature verifies under that key and that
/// algorithm, with `payload` as what was signed.
pub open spec fn signed_by(token: Seq<char>, keys: Seq<SigningKeyValue>, payload: JsonValue) -> bool {
    &&& compact_shape(token)
    &&& decoded_header(token) matches Some(header)
    &&& header.alg == pinned_algorithm()
    &&& header.kid matches Some(kid)
    &&& find_key(keys, kid) matches Some(key)
    &&& signed_payload(token, pinned_algorithm(), key.modulus, key.exponent) == Some(payload)
}

/// The payload passes every check that precedes the policy: its claims are
/// complete, it is within its validity period (unless the verifier skips
/// that check) and addressed to the expected audience (where one is set).
pub open spec fn admissible(payload: JsonValue, verifier: VerifierValue, now: u64) -> bool {
    &&& claims_of(payload) is Some
    &&& verifier.insecure_skip_validity || within_validity(payload, now, verifier.leeway)
    &&& verifier.audience matches Some(audience) ==> addressed_to(payload, audience)
}

/// A token that a key of the set signed with the pinned algorithm, that is
/// within its validity period, addressed to the expected audience and within
/// the operator's constraints, is accepted, and the claims returned are those
/// of its payload.
pub proof fn lemma_genuine_token_accepted(
    token: Seq<char>,
    keys: Seq<SigningKeyValue>,
    constraints: ConstraintsValue,
    verifier: VerifierValue,
    now: u64,
    payload: JsonValue,
)
    requires
        signed_by(token, keys, payload),
        admissible(payload, verifier, now),
        policy_breach(claims_of(payload)->Some_0, constraints).is_none(),
    ensures
        verdict(token, keys, constraints, verifier, now) == Ok::<ClaimsValue, VerificationError>(
            claims_of(payload)->Some_0,
        ),
{
}

/// A token whose signature no key of the set verifies is never accepted.
/// Where such a token is well formed and names a key, it is rejected with
/// `Signature` or with `KeyNotFound`.
pub proof fn lemma_forged_token_rejected(
    token: Seq<char>,
    keys: Seq<SigningKeyValue>,
    constraints: ConstraintsValue,
    verifier: VerifierValue,
    now: u64,
)
    requires
        forall|i: int|
            0 <= i < keys.len() ==> (#[trigger] signed_payload(
                token,
                pinned_algorithm(),
                keys[i].modulus,
                keys[i].exponent,
            )).is_none(),
    ensures
        verdict(token, keys, constraints, verifier, now) is Err,
        compact_shape(token) && decoded_header(token) is Some && decoded_header(
            token,
        )->Some_0.kid is Some ==> verdict(token, keys, constraints, verifier, now) == Err::<
            ClaimsValue,
            VerificationError,
        >(VerificationError::Signature) || verdict(token, keys, constraints, verifier, now)
            == Err::<ClaimsValue, VerificationError>(VerificationError::KeyNotFound),
{
    match decoded_header(token) {
        Some(header) => match header.kid {
            Some(kid) => {
                lemma_find_from(keys, kid, 0);
            },
            None => {},
        },
        None => {},
    }
}

/// A token whose header does not claim the pinned algorithm is rejected,
/// whatever its signature and whatever the key set holds.
pub proof fn lemma_algorithm_is_pinned(
    token: Seq<char>,
    keys: Seq<SigningKeyValue>,
    constraints: ConstraintsValue,
    verifier: VerifierValue,
    now: u64,
)
    requires
        decoded_header(token) matches Some(header) ==> header.alg != pinned_algorithm(),
    ensures
        verdict(token, keys, constraints, verifier, now) is Err,
{
}

/// Only a genuine token is accepted: where verification returns claims, a
/// key of the set that the token names has signed the payload they were read
/// from, the payload has passed every check, and the claims break no
/// constraint.
pub proof fn lemma_accepted_token_is_genuine(
    token: Seq<char>,
    keys: Seq<SigningKeyValue>,
    constraints: ConstraintsValue,
    verifier: VerifierValue,
    now: u64,
)
    requires
        verdict(token, keys, constraints, verifier, now) is Ok,
    ensures
        exists|payload: JsonValue|
            {
                &&& #[trigger] signed_by(token, keys, payload)
                &&& admissible(payload, verifier, now)
                &&& claims_of(payload) == Some(
                    verdict(token, keys, constraints, verifier, now)->Ok_0,
                )
                &&& policy_breach(claims_of(payload)->Some_0, constraints).is_none()
            },
{
    let header = decoded_header(token)->Some_0;
    let key = selected_key(keys, header)->Ok_0;
    let payload = signed_payload(token, pinned_algorithm(), key.modulus, key.exponent)->Some_0;
    assert(signed_by(token, keys, payload));
}

/// Verification keeps no state: two verifications of the same token against
/// the same keys, constraints and settings at the same time return the same.
pub proof fn lemma_verification_repeatable(
    first: Result<VerifiedClaims, VerificationError>,
    second: Result<VerifiedClaims, VerificationError>,
    token: Seq<char>,
    keys: Seq<SigningKeyValue>,
    constraints: ConstraintsValue,
    verifier: VerifierValue,
    now: u64,
)
    requires
        outcome_value(first) == verdict(token, keys, constraints, verifier, now),
        outcome_value(second) == verdict(token, keys, constraints, verifier, now),
    ensures
        outcome_value(first) == outcome_value(second),
        first is Ok <==> second is Ok,
{
}

/// A genuine, admissible token from another organization than the expected
/// one is rejected with `OrganizationMismatch`, whether or not the repository
/// matches.
pub proof fn lemma_organization_mismatch(
    token: Seq<char>,
    keys: Seq<SigningKeyValue>,
    constraints: ConstraintsValue,
    verifier: VerifierValue,
    now: u64,
    payload: JsonValue,
)
    requires
        signed_by(token, keys, payload),
        admissible(payload, verifier, now),
        constraints.organization matches Some(organization) && organization != claims_of(
            payload,
        )->Some_0.repository_owner,
    ensures
        verdict(token, keys, constraints, verifier, now) == Err::<ClaimsValue, VerificationError>(
            VerificationError::Policy(PolicyError::OrganizationMismatch),
        ),
{
}

/// A genuine, admissible token from another repository than the expected one
/// is rejected with `RepositoryMismatch`, provided that it does not also
/// break the organization constraint, which is compared first.
pub proof fn lemma_repository_mismatch(
    token: Seq<char>,
    keys: Seq<SigningKeyValue>,
    constraints: ConstraintsValue,
    verifier: VerifierValue,
    now: u64,
    payload: JsonValue,
)
    requires
        signed_by(token, keys, payload),
        admissible(payload, verifier, now),
        constraints.organization matches Some(organization) ==> organization == claims_of(
            payload,
        )->Some_0.repository_owner,
        constraints.repository matches Some(repository) && repository != claims_of(
            payload,
        )->Some_0.repository,
    ensures
        verdict(token, keys, constraints, verifier, now) == Err::<ClaimsValue, VerificationError>(
            VerificationError::Policy(PolicyError::RepositoryMismatch),
        ),
{
}

/// A genuine token that has expired is rejected with `Signature`, unless the
/// verifier runs in its insecure mode: a token with complete claims that
/// carries no expiry time, or one that at `now` lies more than the leeway
/// back. Without leeway that is every expiry time before `now`.
pub proof fn lemma_expired_token_rejected(
    token: Seq<char>,
    keys: Seq<SigningKeyValue>,
    constraints: ConstraintsValue,
    verifier: VerifierValue,
    now: u64,
    payload: JsonValue,
)
    requires
        signed_by(token, keys, payload),
        claims_of(payload) is Some,
        !verifier.insecure_skip_validity,
        payload.number_member("exp"@) matches Some(exp) ==> exp + verifier.leeway < now,
    ensures
        verdict(token, keys, constraints, verifier, now) == Err::<ClaimsValue, VerificationError>(
            VerificationError::Signature,
        ),
{
}

/// A genuine token that is not yet valid is rejected with `Signature`, unless
/// the verifier runs in its insecure mode: a token with complete claims whose
/// not-before time at `now` lies more than the leeway ahead, or is no time at
/// all.
pub proof fn lemma_premature_token_rejected(
    token: Seq<char>,
    keys: Seq<SigningKeyValue>,
    constraints: ConstraintsValue,
    verifier: VerifierValue,
    now: u64,
    payload: JsonValue,
)
    requires
        signed_by(token, keys, payload),
        claims_of(payload) is Some,
        !verifier.insecure_skip_validity,
        payload.member("nbf"@) matches Some(value) && (value.number() matches Some(nbf) ==> nbf
            > now + verifier.leeway),
    ensures
        verdict(token, keys, constraints, verifier, now) == Err::<ClaimsValue, VerificationError>(
            VerificationError::Signature,
        ),
{
}

/// In its insecure mode a verifier does not look at the time: the outcome is
/// the same at every `now`. In particular an expired token that is otherwise
/// in order is accepted.
pub proof fn lemma_insecure_mode_ignores_time(
    token: Seq<char>,
    keys: Seq<SigningKeyValue>,
    constraints: ConstraintsValue,
    verifier: VerifierValue,
    now: u64,
    later: u64,
)
    requires
        verifier.insecure_skip_validity,
    ensures
        verdict(token, keys, constraints, verifier, now) == verdict(
            token,
            keys,
            constraints,
            verifier,
            later,
        ),
{
}

/// A well-formed token whose header names no key is rejected with
/// `MissingKeyId`, whatever the key set holds: there is no key to fall back
/// on.
pub proof fn lemma_unnamed_key_rejected(
    token: Seq<char>,
    keys: Seq<SigningKeyValue>,
    constraints: ConstraintsValue,
    verifier: VerifierValue,
    now: u64,
)
    requires
        compact_shape(token),
        decoded_header(token) matches Some(header) && header.kid is None,
    ensures
        verdict(token, keys, constraints, verifier, now) == Err::<ClaimsValue, VerificationError>(
            VerificationError::MissingKeyId,
        ),
{
}

/// A well-formed token whose header names a key that the key set does not
/// hold is rejected with `KeyNotFound`, whatever it claims and however it is
/// signed.
pub proof fn lemma_unknown_key_rejected(
    token: Seq<char>,
    keys: Seq<SigningKeyValue>,
    constraints: ConstraintsValue,
    verifier: VerifierValue,
    now: u64,
)
    requires
        compact_shape(token),
        decoded_header(token) matches Some(header) && header.kid matches Some(kid) && forall|
            i: int,
        | 0 <= i < keys.len() ==> (#[trigger] keys[i]).kid != kid,
    ensures
        verdict(token, keys, constraints, verifier, now) == Err::<ClaimsValue, VerificationError>(
            VerificationError::KeyNotFound,
        ),
{
    lemma_find_from(keys, decoded_header(token)->Some_0.kid->Some_0, 0);
}

/// A genuine token within its validity period that is not addressed to the
/// expected audience is rejected with `Audience`, whatever the constraints.
pub proof fn lemma_wrong_audience_rejected(
    token: Seq<char>,
    keys: Seq<SigningKeyValue>,
    constraints: ConstraintsValue,
    verifier: VerifierValue,
    now: u64,
    payload: JsonValue,
)
    requires
        signed_by(token, keys, payload),
        claims_of(payload) is Some,
        verifier.insecure_skip_validity || within_validity(payload, now, verifier.leeway),
        verifier.audience matches Some(audience) && !addressed_to(payload, audience),
    ensures
        verdict(token, keys, constraints, verifier, now) == Err::<ClaimsValue, VerificationError>(
            VerificationError::Audience,
        ),
{
}

/// A genuine token whose payload lacks one of the claims is rejected with
/// `Format`, before its validity period, audience or origin are looked at.
pub proof fn lemma_incomplete_claims_rejected(
    token: Seq<char>,
    keys: Seq<SigningKeyValue>,
    constraints: ConstraintsValue,
    verifier: VerifierValue,
    now: u64,
    payload: JsonValue,
)
    requires
        signed_by(token, keys, payload),
        claims_of(payload) is None,
    ensures
        verdict(token, keys, constraints, verifier, now) == Err::<ClaimsValue, VerificationError>(
            VerificationError::Format,
        ),
{
}

/// A token that is not three base64url segments is rejected with `Format`,
/// whatever the key set holds.
pub proof fn lemma_malformed_token_rejected(
    token: Seq<char>,
    keys: Seq<SigningKeyValue>,
    constraints: ConstraintsValue,
    verifier: VerifierValue,
    now: u64,
)
    requires
        !compact_shape(token),
    ensures
        verdict(token, keys, constraints, verifier, now) == Err::<ClaimsValue, VerificationError>(
            VerificationError::Format,
        ),
{
}

} // verus!
