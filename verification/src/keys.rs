//! The issuer's published signing keys.
use crate::bindings::{parse_tree, parsed_document, tree_to_json};
use crate::error::VerificationError;
use crate::json::{Json, JsonValue};
use crate::token::{HeaderValue, TokenHeader};
use vstd::prelude::*;
use vstd::string::StringExecFns;

verus! {

/// One RSA public key of the issuer.
#[derive(Debug)]
pub struct SigningKey {
    /// The identifier by which a token names this key.
    pub kid: String,
    /// The key type, where the key set gives one.
    pub kty: Option<String>,
    /// The modulus, base64url-encoded.
    pub modulus: String,
    /// The public exponent, base64url-encoded.
    pub exponent: String,
}

/// The mathematical value of a `SigningKey`.
pub ghost struct SigningKeyValue {
    pub kid: Seq<char>,
    pub kty: Option<Seq<char>>,
    pub modulus: Seq<char>,
    pub exponent: Seq<char>,
}

impl View for SigningKey {
    type V = SigningKeyValue;

    open spec fn view(&self) -> SigningKeyValue {
        SigningKeyValue {
            kid: self.kid@,
            kty: match self.kty {
                Some(kty) => Some(kty@),
                None => None,
            },
            modulus: self.modulus@,
            exponent: self.exponent@,
        }
    }
}

/// The first key at or after position `from` whose identifier is `kid`.
pub open spec fn find_from(keys: Seq<SigningKeyValue>, kid: Seq<char>, from: int) -> Option<
    SigningKeyValue,
>
    decreases keys.len() - from,
{
    if from < 0 || from >= keys.len() {
        None
    } else if keys[from].kid == kid {
        Some(keys[from])
    } else {
        find_from(keys, kid, from + 1)
    }
}

/// The first key whose identifier is `kid`.
pub open spec fn find_key(keys: Seq<SigningKeyValue>, kid: Seq<char>) -> Option<SigningKeyValue> {
    find_from(keys, kid, 0)
}

/// The key that a token with this header is to be verified with: the key
/// that the header names. A header that names no key selects none
/// (`MissingKeyId`), and so does one that names a key that is not among
/// `keys` (`KeyNotFound`).
pub open spec fn selected_key(keys: Seq<SigningKeyValue>, header: HeaderValue) -> Result<
    SigningKeyValue,
    VerificationError,
> {
    match header.kid {
        None => Err(VerificationError::MissingKeyId),
        Some(kid) => match find_key(keys, kid) {
            None => Err(VerificationError::KeyNotFound),
            Some(key) => Ok(key),
        },
    }
}

/// No two keys share an identifier.
pub open spec fn distinct_kids(keys: Seq<SigningKeyValue>) -> bool {
    forall|i: int, j: int| 0 <= i < j < keys.len() ==> keys[i].kid != keys[j].kid
}

/// The key that one entry of a key-set document describes: an object with
/// the strings `kid`, `n` and `e`, and perhaps the string `kty`.
pub open spec fn entry_key(entry: JsonValue) -> Option<SigningKeyValue> {
    match (entry.text_member("kid"@), entry.text_member("n"@), entry.text_member("e"@)) {
        (Some(kid), Some(modulus), Some(exponent)) => Some(
            SigningKeyValue { kid, kty: entry.text_member("kty"@), modulus, exponent },
        ),
        _ => None,
    }
}

/// The keys that the first `count` entries describe, in their order; of
/// several entries with one identifier the first counts.
pub open spec fn collect_keys(entries: Seq<JsonValue>, count: int) -> Seq<SigningKeyValue>
    decreases count,
{
    if count <= 0 || count > entries.len() {
        Seq::empty()
    } else {
        let before = collect_keys(entries, count - 1);
        match entry_key(entries[count - 1]) {
            Some(key) => if find_key(before, key.kid).is_none() {
                before.push(key)
            } else {
                before
            },
            None => before,
        }
    }
}

/// The key set that a key-set document describes: the keys of the entries of
/// its array `keys`, or `None` where it has no such array.
pub open spec fn key_set_of(document: JsonValue) -> Option<Seq<SigningKeyValue>> {
    match document.member("keys"@) {
        Some(JsonValue::Array(entries)) => Some(collect_keys(entries, entries.len() as int)),
        _ => None,
    }
}

/// What `find_from` finds carries the identifier asked for and is one of the
/// keys; where it finds nothing, no key from `from` on carries it.
pub proof fn lemma_find_from(keys: Seq<SigningKeyValue>, kid: Seq<char>, from: int)
    requires
        0 <= from,
    ensures
        match find_from(keys, kid, from) {
            Some(key) => key.kid == kid && exists|i: int|
                from <= i < keys.len() && keys[i] == key,
            None => forall|i: int| from <= i < keys.len() ==> keys[i].kid != kid,
        },
    decreases keys.len() - from,
{
    if from < keys.len() && keys[from].kid != kid {
        lemma_find_from(keys, kid, from + 1);
    }
}

/// Among keys with distinct identifiers, an identifier selects exactly the
/// key that carries it.
pub proof fn lemma_find_key_unique(keys: Seq<SigningKeyValue>, position: int)
    requires
        distinct_kids(keys),
        0 <= position < keys.len(),
    ensures
        find_key(keys, keys[position].kid) == Some(keys[position]),
{
    lemma_find_from(keys, keys[position].kid, 0);
}

/// The keys of a key-set document never share an identifier.
pub proof fn lemma_collect_keys_distinct(entries: Seq<JsonValue>, count: int)
    ensures
        distinct_kids(collect_keys(entries, count)),
    decreases count,
{
    if 0 < count <= entries.len() {
        lemma_collect_keys_distinct(entries, count - 1);
        let before = collect_keys(entries, count - 1);
        match entry_key(entries[count - 1]) {
            Some(key) => {
                lemma_find_from(before, key.kid, 0);
            },
            None => {},
        }
    }
}

/// Reads one entry of a key-set document.
pub fn read_entry(entry: &Json) -> (key: Option<SigningKey>)
    ensures
        match key {
            Some(k) => entry_key(entry@) == Some(k@),
            None => entry_key(entry@).is_none(),
        },
{
    let kid = match entry.text_member("kid") {
        Some(s) => s.clone(),
        None => {
            return None;
        },
    };
    let modulus = match entry.text_member("n") {
        Some(s) => s.clone(),
        None => {
            return None;
        },
    };
    let exponent = match entry.text_member("e") {
        Some(s) => s.clone(),
        None => {
            return None;
        },
    };
    let kty = match entry.text_member("kty") {
        Some(s) => Some(s.clone()),
        None => None,
    };
    Some(SigningKey { kid, kty, modulus, exponent })
}

/// The issuer's signing keys, in the order of the key-set document. No two
/// of them share an identifier.
#[derive(Debug)]
pub struct KeySet {
    keys: Vec<SigningKey>,
}

/// The values of `keys`, in their order.
pub open spec fn key_values(keys: Seq<SigningKey>) -> Seq<SigningKeyValue> {
    Seq::new(keys.len(), |i: int| keys[i]@)
}

impl View for KeySet {
    type V = Seq<SigningKeyValue>;

    closed spec fn view(&self) -> Seq<SigningKeyValue> {
        key_values(self.keys@)
    }
}

impl KeySet {
    #[verifier::type_invariant]
    closed spec fn well_formed(&self) -> bool {
        distinct_kids(self@)
    }

    /// The set without keys.
    pub fn new() -> (set: KeySet)
        ensures
            set@ == Seq::<SigningKeyValue>::empty(),
    {
        let set = KeySet { keys: Vec::new() };
        assert(set@ =~= Seq::<SigningKeyValue>::empty());
        set
    }

    /// The number of keys.
    pub fn len(&self) -> (count: usize)
        ensures
            count == self@.len(),
    {
        self.keys.len()
    }

    /// The key at `position`, counted from 0.
    pub fn get(&self, position: usize) -> (key: Option<&SigningKey>)
        ensures
            distinct_kids(self@),
            match key {
                Some(k) => position < self@.len() && self@[position as int] == k@,
                None => position >= self@.len(),
            },
    {
        proof {
            use_type_invariant(self);
        }
        if position < self.keys.len() {
            Some(&self.keys[position])
        } else {
            None
        }
    }

    /// The key that a token names by `kid`.
    pub fn find(&self, kid: &str) -> (key: Option<&SigningKey>)
        ensures
            distinct_kids(self@),
            match key {
                Some(k) => find_key(self@, kid@) == Some(k@),
                None => find_key(self@, kid@).is_none(),
            },
    {
        proof {
            use_type_invariant(self);
        }
        let wanted = String::from_str(kid);
        let mut i: usize = 0;
        while i < self.keys.len()
            invariant
                i <= self.keys.len(),
                wanted@ == kid@,
                distinct_kids(self@),
                find_key(self@, kid@) == find_from(self@, kid@, i as int),
            decreases self.keys.len() - i,
        {
            if self.keys[i].kid == wanted {
                return Some(&self.keys[i]);
            }
            i += 1;
        }
        None
    }

    /// The key that a token with this header is to be verified with.
    pub fn select(&self, header: &TokenHeader) -> (outcome: Result<&SigningKey, VerificationError>)
        ensures
            match outcome {
                Ok(key) => selected_key(self@, header@) == Ok::<
                    SigningKeyValue,
                    VerificationError,
                >(key@),
                Err(e) => selected_key(self@, header@) == Err::<
                    SigningKeyValue,
                    VerificationError,
                >(e),
            },
    {
        match &header.kid {
            None => Err(VerificationError::MissingKeyId),
            Some(kid) => match self.find(kid.as_str()) {
                None => Err(VerificationError::KeyNotFound),
                Some(key) => Ok(key),
            },
        }
    }

    /// The set with `key` added at the end; where the set already holds a
    /// key with the same identifier, the set as it was.
    pub fn with_key(self, key: SigningKey) -> (set: KeySet)
        ensures
            distinct_kids(set@),
            set@ == if find_key(self@, key.kid@).is_none() {
                self@.push(key@)
            } else {
                self@
            },
    {
        proof {
            use_type_invariant(&self);
            lemma_find_from(self@, key.kid@, 0);
        }
        if self.find(key.kid.as_str()).is_some() {
            return self;
        }
        let ghost before = self@;
        let mut keys = self.keys;
        keys.push(key);
        assert(key_values(keys@) =~= before.push(key@));
        KeySet { keys }
    }

    /// The key set that a key-set document describes.
    ///
    /// The document must be an object whose member `keys` is an array. Each
    /// entry of the array that gives `kid`, `n` and `e` as strings becomes a
    /// key; any other entry names no usable key and is passed over, as is an
    /// entry whose `kid` an earlier entry already carries.
    pub fn from_json(document: &Json) -> (outcome: Result<KeySet, VerificationError>)
        ensures
            match outcome {
                Ok(set) => key_set_of(document@) == Some(set@) && distinct_kids(set@),
                Err(e) => e == VerificationError::Format && key_set_of(document@).is_none(),
            },
    {
        let entries = match document.member("keys") {
            Some(listed) => match listed.as_array() {
                Some(entries) => entries,
                None => {
                    return Err(VerificationError::Format);
                },
            },
            None => {
                return Err(VerificationError::Format);
            },
        };
        let ghost values = document@.member("keys"@)->Some_0->Array_0;
        let mut set = KeySet::new();
        let mut i: usize = 0;
        while i < entries.len()
            invariant
                i <= entries.len(),
                values.len() == entries.len(),
                forall|k: int| 0 <= k < entries.len() ==> values[k] == #[trigger] entries[k]@,
                set@ == collect_keys(values, i as int),
            decreases entries.len() - i,
        {
            match read_entry(&entries[i]) {
                Some(key) => {
                    set = set.with_key(key);
                },
                None => {},
            }
            i += 1;
        }
        proof {
            lemma_collect_keys_distinct(values, values.len() as int);
        }
        Ok(set)
    }

    /// The key set that the text of a key-set document describes.
    ///
    /// Fails with `Format` where `body` is not JSON or has no array `keys`.
    pub fn parse(body: &str) -> (outcome: Result<KeySet, VerificationError>)
        ensures
            match outcome {
                Ok(set) => parsed_document(body@) matches Some(document) && key_set_of(document)
                    == Some(set@) && distinct_kids(set@),
                Err(e) => e == VerificationError::Format && match parsed_document(body@) {
                    Some(document) => key_set_of(document).is_none(),
                    None => true,
                },
            },
    {
        match parse_tree(body) {
            Ok(tree) => {
                let document = tree_to_json(&tree);
                KeySet::from_json(&document)
            },
            Err(_) => Err(VerificationError::Format),
        }
    }
}

/// Holds the issuer's key set for the lifetime of the process: filled once,
/// then only read.
#[derive(Debug)]
pub struct KeySetStore {
    keys: KeySet,
}

impl View for KeySetStore {
    type V = Seq<SigningKeyValue>;

    closed spec fn view(&self) -> Seq<SigningKeyValue> {
        self.keys@
    }
}

impl KeySetStore {
    /// A store that holds `keys`.
    pub fn new(keys: KeySet) -> (store: KeySetStore)
        ensures
            store@ == keys@,
            distinct_kids(store@),
    {
        proof {
            use_type_invariant(&keys);
        }
        KeySetStore { keys }
    }

    /// A store that holds the keys of the key-set document `body`, as
    /// `KeySet::parse` reads them.
    pub fn load(body: &str) -> (outcome: Result<KeySetStore, VerificationError>)
        ensures
            match outcome {
                Ok(store) => parsed_document(body@) matches Some(document) && key_set_of(document)
                    == Some(store@) && distinct_kids(store@),
                Err(e) => e == VerificationError::Format && match parsed_document(body@) {
                    Some(document) => key_set_of(document).is_none(),
                    None => true,
                },
            },
    {
        match KeySet::parse(body) {
            Ok(keys) => Ok(KeySetStore { keys }),
            Err(e) => Err(e),
        }
    }

    /// The keys held.
    pub fn snapshot(&self) -> (keys: &KeySet)
        ensures
            keys@ == self@,
            distinct_kids(keys@),
    {
        proof {
            use_type_invariant(&self.keys);
        }
        &self.keys
    }
}

/// The address of an issuer's key-set document.
pub fn jwks_url(issuer: &str) -> (url: String)
    ensures
        url@ == issuer@ + "/.well-known/jwks"@,
{
    String::from_str(issuer).concat("/.well-known/jwks")
}

} // verus!
