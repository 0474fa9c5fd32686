//! Typed configuration: TSIG keys and per-record update tasks.
//!
//! The on-disk document is decoded outside the library; here live the typed
//! records, the rule that a key names exactly one secret source, and the
//! decoding of secret material that is already in memory.

use vstd::prelude::*;

verus! {

/// A TSIG key entry: the server it signs for, the key name, the algorithm
/// name, and exactly one of four ways to give the secret.
#[derive(Debug, Clone)]
pub struct TsigKey {
    pub server: String,
    pub name: String,
    pub alg: String,
    pub secret: Option<String>,
    pub secret_base64: Option<String>,
    pub secret_file: Option<String>,
    pub secret_file_base64: Option<String>,
}

/// The one secret source a well-formed key names: the secret itself, its
/// base64 form, or a path to a file holding either.
#[derive(Debug, Clone)]
pub enum SecretSource {
    Inline(String),
    InlineBase64(String),
    File(String),
    FileBase64(String),
}

#[derive(Debug, Clone, PartialEq, Eq, Structural)]
pub enum ConfigError {
    /// No secret parameter is configured for a key.
    NoSecret,
    /// More than one secret parameter is configured for a key.
    MultipleSecrets,
    /// Secret material that should be base64 is not.
    BadBase64,
    /// A task names a key id that the key table does not hold.
    UnknownKey,
    /// A task's scope string is not a valid CIDR.
    BadScope,
    /// A v4 task brings a non-empty neighbor map.
    NeighborsOnV4,
    /// A task's scope belongs to the other address family.
    ScopeFamily,
}

impl TsigKey {
    /// How many of the four secret parameters are set.
    pub open spec fn secret_count(&self) -> int {
        (if self.secret is Some { 1int } else { 0int })
            + (if self.secret_base64 is Some { 1int } else { 0int })
            + (if self.secret_file is Some { 1int } else { 0int })
            + (if self.secret_file_base64 is Some { 1int } else { 0int })
    }

    /// The secret source of this key. Succeeds exactly when one and only
    /// one of the four secret parameters is configured; otherwise names
    /// whether none or several were given.
    pub fn secret_source(&self) -> (r: Result<SecretSource, ConfigError>)
        ensures
            r is Ok <==> self.secret_count() == 1,
            r matches Err(e) ==> (e == ConfigError::NoSecret <==> self.secret_count() == 0)
                && (e == ConfigError::MultipleSecrets <==> self.secret_count() > 1),
            r matches Ok(s) ==> match s {
                SecretSource::Inline(v) => self.secret == Some(v),
                SecretSource::InlineBase64(v) => self.secret_base64 == Some(v),
                SecretSource::File(v) => self.secret_file == Some(v),
                SecretSource::FileBase64(v) => self.secret_file_base64 == Some(v),
            },
    {
        match (&self.secret, &self.secret_base64, &self.secret_file, &self.secret_file_base64) {
            (Some(s), None, None, None) => Ok(SecretSource::Inline(s.clone())),
            (None, Some(s), None, None) => Ok(SecretSource::InlineBase64(s.clone())),
            (None, None, Some(s), None) => Ok(SecretSource::File(s.clone())),
            (None, None, None, Some(s)) => Ok(SecretSource::FileBase64(s.clone())),
            (None, None, None, None) => Err(ConfigError::NoSecret),
            _ => Err(ConfigError::MultipleSecrets),
        }
    }
}

/// What base64's standard-alphabet `decode` turns a byte string into:
/// `None` where the input is not valid base64.
pub uninterp spec fn base64_decoded(s: Seq<u8>) -> Option<Seq<u8>>;

/// Relies on base64's `Engine::decode` with the standard engine: the result
/// depends on the input alone.
#[verifier::external_body]
fn base64_decode(data: &Vec<u8>) -> (r: Option<Vec<u8>>)
    ensures
        r matches Some(v) ==> base64_decoded(data@) == Some(v@),
        r is None ==> base64_decoded(data@) is None,
{
    base64::Engine::decode(&base64::engine::general_purpose::STANDARD, data.as_slice()).ok()
}

/// Turn secret material that is already in memory into key bytes: raw bytes
/// are the secret as they stand; base64 material is decoded, and rejected
/// where it is not valid base64.
pub fn decode_secret_material(data: Vec<u8>, encoded: bool) -> (r: Result<Vec<u8>, ConfigError>)
    ensures
        !encoded ==> (r matches Ok(v) && v@ == data@),
        encoded ==> match base64_decoded(data@) {
            Some(d) => (r matches Ok(v) && v@ == d),
            None => r == Err::<Vec<u8>, ConfigError>(ConfigError::BadBase64),
        },
{
    if !encoded {
        Ok(data)
    } else {
        match base64_decode(&data) {
            Some(v) => Ok(v),
            None => Err(ConfigError::BadBase64),
        }
    }
}

/// One update task: which key signs, the record name (absent for a task
/// that only updates neighbors), the watched interface, and the optional
/// scope, zone, time-to-live and neighbor map.
#[derive(Debug, Clone)]
pub struct Interface {
    pub key: String,
    pub name: Option<String>,
    pub interface: String,
    pub scope: Option<String>,
    pub zone: Option<String>,
    pub ttl: Option<u32>,
    pub neighbors: Option<Vec<(String, u128)>>,
}

/// The whole configuration: a keyed table of TSIG keys and the two task
/// lists, one per record family.
#[derive(Debug, Clone)]
pub struct Config {
    pub keys: Vec<(String, TsigKey)>,
    pub a: Option<Vec<Interface>>,
    pub aaaa: Option<Vec<Interface>>,
}

/// Whether the key table holds an entry named `id`.
pub open spec fn has_key(keys: Seq<(String, TsigKey)>, id: Seq<char>) -> bool {
    exists|i: int| 0 <= i < keys.len() && keys[i].0@ == id
}

/// Whether every task of `ts` names a key that `keys` holds.
pub open spec fn all_tasks_keyed(keys: Seq<(String, TsigKey)>, ts: Seq<Interface>) -> bool {
    forall|i: int| 0 <= i < ts.len() ==> has_key(keys, ts[i].key@)
}

impl Config {
    /// Look a key up by its id.
    pub fn find_key(&self, id: &String) -> (r: Option<&TsigKey>)
        ensures
            r is Some <==> has_key(self.keys@, id@),
            r matches Some(k) ==> exists|i: int|
                0 <= i < self.keys@.len() && self.keys@[i].0@ == id@ && *k == self.keys@[i].1,
    {
        let mut i: usize = 0;
        while i < self.keys.len()
            invariant
                i <= self.keys@.len(),
                forall|j: int| 0 <= j < i ==> self.keys@[j].0@ != id@,
            decreases self.keys@.len() - i,
        {
            if self.keys[i].0.eq(id) {
                return Some(&self.keys[i].1);
            }
            i += 1;
        }
        None
    }

    /// Every task names a key that the key table holds.
    pub open spec fn tasks_keyed(&self) -> bool {
        &&& (self.a matches Some(ts) ==> all_tasks_keyed(self.keys@, ts@))
        &&& (self.aaaa matches Some(ts) ==> all_tasks_keyed(self.keys@, ts@))
    }

    /// Check that no task names an unknown key id.
    pub fn validate_keys(&self) -> (r: Result<(), ConfigError>)
        ensures
            r is Ok <==> self.tasks_keyed(),
            r matches Err(e) ==> e == ConfigError::UnknownKey,
    {
        if let Some(ts) = &self.a {
            let mut i: usize = 0;
            while i < ts.len()
                invariant
                    self.a == Some(*ts),
                    i <= ts@.len(),
                    forall|j: int| 0 <= j < i ==> has_key(self.keys@, ts@[j].key@),
                decreases ts@.len() - i,
            {
                if self.find_key(&ts[i].key).is_none() {
                    assert(!has_key(self.keys@, ts@[i as int].key@));
                    assert(!all_tasks_keyed(self.keys@, ts@));
                    return Err(ConfigError::UnknownKey);
                }
                i += 1;
            }
        }
        if let Some(ts) = &self.aaaa {
            let mut i: usize = 0;
            while i < ts.len()
                invariant
                    self.aaaa == Some(*ts),
                    i <= ts@.len(),
                    forall|j: int| 0 <= j < i ==> has_key(self.keys@, ts@[j].key@),
                decreases ts@.len() - i,
            {
                if self.find_key(&ts[i].key).is_none() {
                    assert(!has_key(self.keys@, ts@[i as int].key@));
                    assert(!all_tasks_keyed(self.keys@, ts@));
                    return Err(ConfigError::UnknownKey);
                }
                i += 1;
            }
        }
        Ok(())
    }
}

} // verus!
