//! The claims of a token and the checks made on them once the signature has
//! been verified.
use crate::error::PolicyError;
use crate::json::{lemma_values_of, Json, JsonValue};
use vstd::prelude::*;

verus! {

/// The claims of a verified token.
#[derive(Debug)]
pub struct VerifiedClaims {
    /// The subject of the token.
    pub sub: String,
    /// The repository whose workflow the token was issued to.
    pub repository: String,
    /// The owner of that repository.
    pub repository_owner: String,
    /// The workflow that asked for the token.
    pub job_workflow_ref: String,
    /// When the token was issued, in seconds since the Unix epoch.
    pub iat: u64,
}

/// The mathematical value of a `VerifiedClaims`.
pub ghost struct ClaimsValue {
    pub sub: Seq<char>,
    pub repository: Seq<char>,
    pub repository_owner: Seq<char>,
    pub job_workflow_ref: Seq<char>,
    pub iat: u64,
}

impl View for VerifiedClaims {
    type V = ClaimsValue;

    open spec fn view(&self) -> ClaimsValue {
        ClaimsValue {
            sub: self.sub@,
            repository: self.repository@,
            repository_owner: self.repository_owner@,
            job_workflow_ref: self.job_workflow_ref@,
            iat: self.iat,
        }
    }
}

/// What the operator expects of a token's origin. An absent constraint is
/// not checked.
#[derive(Debug)]
pub struct PolicyConstraints {
    /// The expected owner of the issuing repository.
    pub organization: Option<String>,
    /// The expected issuing repository.
    pub repository: Option<String>,
}

/// The mathematical value of a `PolicyConstraints`.
pub ghost struct ConstraintsValue {
    pub organization: Option<Seq<char>>,
    pub repository: Option<Seq<char>>,
}

impl View for PolicyConstraints {
    type V = ConstraintsValue;

    open spec fn view(&self) -> ConstraintsValue {
        ConstraintsValue {
            organization: match self.organization {
                Some(s) => Some(s@),
                None => None,
            },
            repository: match self.repository {
                Some(s) => Some(s@),
                None => None,
            },
        }
    }
}

/// The claims that a payload carries: the strings `sub`, `repository`,
/// `repository_owner` and `job_workflow_ref` and the number `iat`, or `None`
/// where one of them is missing or of another type.
pub open spec fn claims_of(payload: JsonValue) -> Option<ClaimsValue> {
    match (
        payload.text_member("sub"@),
        payload.text_member("repository"@),
        payload.text_member("repository_owner"@),
        payload.text_member("job_workflow_ref"@),
        payload.number_member("iat"@),
    ) {
        (Some(sub), Some(repository), Some(repository_owner), Some(job_workflow_ref), Some(iat)) => {
            Some(ClaimsValue { sub, repository, repository_owner, job_workflow_ref, iat })
        },
        _ => None,
    }
}

/// The payload carries an expiry time `exp`, and at `now` that time lies no
/// more than `leeway` seconds back.
pub open spec fn not_expired(payload: JsonValue, now: u64, leeway: u64) -> bool {
    match payload.number_member("exp"@) {
        Some(exp) => exp + leeway >= now,
        None => false,
    }
}

/// The payload carries no not-before time `nbf`, or one that at `now` lies no
/// more than `leeway` seconds ahead.
pub open spec fn already_valid(payload: JsonValue, now: u64, leeway: u64) -> bool {
    match payload.member("nbf"@) {
        Some(value) => match value.number() {
            Some(nbf) => nbf <= now + leeway,
            None => false,
        },
        None => true,
    }
}

/// At `now` the token is within its validity period.
pub open spec fn within_validity(payload: JsonValue, now: u64, leeway: u64) -> bool {
    not_expired(payload, now, leeway) && already_valid(payload, now, leeway)
}

/// The payload's claim `aud` is `audience`, or an array that holds it.
pub open spec fn addressed_to(payload: JsonValue, audience: Seq<char>) -> bool {
    match payload.member("aud"@) {
        Some(JsonValue::Text(single)) => single == audience,
        Some(JsonValue::Array(several)) => exists|i: int|
            0 <= i < several.len() && #[trigger] several[i] == JsonValue::Text(audience),
        _ => false,
    }
}

/// The first constraint that the claims break: the organization is compared
/// before the repository.
pub open spec fn policy_breach(claims: ClaimsValue, constraints: ConstraintsValue) -> Option<
    PolicyError,
> {
    if constraints.organization is Some && constraints.organization->Some_0
        != claims.repository_owner {
        Some(PolicyError::OrganizationMismatch)
    } else if constraints.repository is Some && constraints.repository->Some_0
        != claims.repository {
        Some(PolicyError::RepositoryMismatch)
    } else {
        None
    }
}

/// Reads the claims of a payload.
pub fn read_claims(payload: &Json) -> (claims: Option<VerifiedClaims>)
    ensures
        match claims {
            Some(c) => claims_of(payload@) == Some(c@),
            None => claims_of(payload@).is_none(),
        },
{
    let sub = match payload.text_member("sub") {
        Some(s) => s.clone(),
        None => {
            return None;
        },
    };
    let repository = match payload.text_member("repository") {
        Some(s) => s.clone(),
        None => {
            return None;
        },
    };
    let repository_owner = match payload.text_member("repository_owner") {
        Some(s) => s.clone(),
        None => {
            return None;
        },
    };
    let job_workflow_ref = match payload.text_member("job_workflow_ref") {
        Some(s) => s.clone(),
        None => {
            return None;
        },
    };
    let iat = match payload.number_member("iat") {
        Some(n) => n,
        None => {
            return None;
        },
    };
    Some(VerifiedClaims { sub, repository, repository_owner, job_workflow_ref, iat })
}

/// Whether at `now` the token is within its validity period.
pub fn check_validity(payload: &Json, now: u64, leeway: u64) -> (valid: bool)
    ensures
        valid == within_validity(payload@, now, leeway),
{
    let fresh = match payload.number_member("exp") {
        Some(exp) => match exp.checked_add(leeway) {
            Some(limit) => limit >= now,
            None => true,
        },
        None => false,
    };
    let mature = match payload.member("nbf") {
        Some(value) => match value.as_number() {
            Some(nbf) => match now.checked_add(leeway) {
                Some(limit) => nbf <= limit,
                None => true,
            },
            None => false,
        },
        None => true,
    };
    fresh && mature
}

/// Whether the token is addressed to `audience`.
pub fn check_audience(payload: &Json, audience: &String) -> (addressed: bool)
    ensures
        addressed == addressed_to(payload@, audience@),
{
    match payload.member("aud") {
        Some(Json::Text(single)) => *single == *audience,
        Some(Json::Array(several)) => {
            let ghost values = payload@.member("aud"@)->Some_0->Array_0;
            proof {
                lemma_values_of(several, several.len() as nat);
            }
            let mut i: usize = 0;
            while i < several.len()
                invariant
                    i <= several.len(),
                    payload@.member("aud"@) == Some(JsonValue::Array(values)),
                    values.len() == several.len(),
                    forall|k: int| 0 <= k < several.len() ==> values[k] == #[trigger] several[k]@,
                    forall|k: int| 0 <= k < i ==> values[k] != JsonValue::Text(audience@),
                decreases several.len() - i,
            {
                match &several[i] {
                    Json::Text(one) => {
                        if *one == *audience {
                            assert(several[i as int]@ == JsonValue::Text(one@));
                            assert(values[i as int] == JsonValue::Text(audience@));
                            return true;
                        }
                    },
                    _ => {},
                }
                i += 1;
            }
            false
        },
        _ => false,
    }
}

/// Compares the claims with the operator's constraints, the organization
/// first.
pub fn check_policy(claims: &VerifiedClaims, constraints: &PolicyConstraints) -> (breach: Option<
    PolicyError,
>)
    ensures
        breach == policy_breach(claims@, constraints@),
{
    match &constraints.organization {
        Some(organization) => {
            if claims.repository_owner != *organization {
                return Some(PolicyError::OrganizationMismatch);
            }
        },
        None => {},
    }
    match &constraints.repository {
        Some(repository) => {
            if claims.repository != *repository {
                return Some(PolicyError::RepositoryMismatch);
            }
        },
        None => {},
    }
    None
}

} // verus!
