//! The compact token format: three base64url segments separated by dots.
use crate::bindings::{decoded_header, read_header};
use crate::error::VerificationError;
use vstd::prelude::*;

verus! {

/// What the first segment of a token says of its signature.
#[derive(Debug)]
pub struct TokenHeader {
    /// The registered name of the signing algorithm that the token claims.
    pub alg: String,
    /// The identifier of the key that signed the token, where it names one.
    pub kid: Option<String>,
}

/// The mathematical value of a `TokenHeader`.
pub ghost struct HeaderValue {
    pub alg: Seq<char>,
    pub kid: Option<Seq<char>>,
}

impl View for TokenHeader {
    type V = HeaderValue;

    open spec fn view(&self) -> HeaderValue {
        HeaderValue {
            alg: self.alg@,
            kid: match self.kid {
                Some(kid) => Some(kid@),
                None => None,
            },
        }
    }
}

/// The characters of the URL-safe base64 alphabet, without padding.
pub open spec fn is_base64url(c: char) -> bool {
    ('A' <= c <= 'Z') || ('a' <= c <= 'z') || ('0' <= c <= '9') || c == '-' || c == '_'
}

/// `token` has dots at `first` and `second` and base64url characters
/// everywhere else.
pub open spec fn segments_at(token: Seq<char>, first: int, second: int) -> bool {
    &&& 0 <= first < second < token.len()
    &&& token[first] == '.'
    &&& token[second] == '.'
    &&& forall|k: int|
        0 <= k < token.len() && k != first && k != second ==> is_base64url(#[trigger] token[k])
}

/// `token` is three base64url segments separated by two dots.
pub open spec fn compact_shape(token: Seq<char>) -> bool {
    exists|first: int, second: int| segments_at(token, first, second)
}

/// The positions of the two dots of a compact token, or `None` where `token`
/// is not three base64url segments.
pub fn segment_bounds(token: &str) -> (bounds: Option<(usize, usize)>)
    ensures
        match bounds {
            Some((first, second)) => segments_at(token@, first as int, second as int),
            None => !compact_shape(token@),
        },
{
    if !token.is_ascii() {
        return None;
    }
    proof {
        vstd::string::is_ascii_spec_bytes(token);
    }
    let bytes = token.as_bytes();
    let mut dots: usize = 0;
    let mut first: usize = 0;
    let mut second: usize = 0;
    let mut i: usize = 0;
    while i < bytes.len()
        invariant
            i <= bytes.len(),
            bytes@.len() == token@.len(),
            forall|k: int| 0 <= k < token@.len() ==> '\0' <= #[trigger] token@[k] <= '\u{7f}',
            forall|k: int| 0 <= k < token@.len() ==> bytes@[k] == #[trigger] token@[k] as u8,
            dots <= 2,
            forall|k: int| 0 <= k < i ==> #[trigger] token@[k] == '.' || is_base64url(token@[k]),
            dots == 0 ==> forall|k: int| 0 <= k < i ==> #[trigger] token@[k] != '.',
            dots >= 1 ==> first < i && token@[first as int] == '.',
            dots == 1 ==> forall|k: int| 0 <= k < i && k != first ==> #[trigger] token@[k] != '.',
            dots == 2 ==> first < second < i && token@[second as int] == '.',
            dots == 2 ==> forall|k: int|
                0 <= k < i && k != first && k != second ==> #[trigger] token@[k] != '.',
        decreases bytes.len() - i,
    {
        let b = bytes[i];
        if b == 46 {
            if dots == 0 {
                first = i;
            } else if dots == 1 {
                second = i;
            } else {
                assert forall|x: int, y: int| !segments_at(token@, x, y) by {
                    if segments_at(token@, x, y) {
                        if first != x && first != y {
                            assert(is_base64url(token@[first as int]));
                        } else if second != x && second != y {
                            assert(is_base64url(token@[second as int]));
                        } else {
                            assert(is_base64url(token@[i as int]));
                        }
                    }
                }
                return None;
            }
            dots += 1;
        } else if !((65 <= b && b <= 90) || (97 <= b && b <= 122) || (48 <= b && b <= 57) || b == 45
            || b == 95) {
            assert forall|x: int, y: int| !segments_at(token@, x, y) by {
                if segments_at(token@, x, y) {
                    if i != x && i != y {
                        assert(is_base64url(token@[i as int]));
                    }
                }
            }
            return None;
        }
        i += 1;
    }
    if dots == 2 {
        Some((first, second))
    } else {
        assert forall|x: int, y: int| !segments_at(token@, x, y) by {
            if segments_at(token@, x, y) {
                assert(token@[x] == '.');
                assert(token@[y] == '.');
            }
        }
        None
    }
}

/// Reads the header of a compact token, without checking its signature.
///
/// Fails with `Format` where `token` is not three base64url segments, or
/// where its first segment does not decode to a JSON header that names a
/// known signature algorithm.
pub fn inspect(token: &str) -> (outcome: Result<TokenHeader, VerificationError>)
    ensures
        match outcome {
            Ok(header) => compact_shape(token@) && decoded_header(token@) == Some(header@),
            Err(e) => e == VerificationError::Format && (!compact_shape(token@) || decoded_header(
                token@,
            ).is_none()),
        },
{
    if segment_bounds(token).is_none() {
        return Err(VerificationError::Format);
    }
    match read_header(token) {
        Ok(header) => Ok(header),
        Err(_) => Err(VerificationError::Format),
    }
}

} // verus!
