//! Secrets: a keyed XOR cipher, an in-memory store that keeps values enciphered, and
//! memory wiping.
use vstd::prelude::*;
use vstd::slice::SliceAdditionalExecFns;
use crate::security::{SecurityError, SecurityResult};
use crate::strmap::StrMap;
use crate::text::{owned, push_str};

verus! {

/// The cipher key (31 bytes).
pub const ENCRYPTION_KEY: [u8; 31] = [
    114, 117, 115, 116, 98, 111, 111, 116, 95, 115, 101, 99, 114, 101, 116, 95, 107, 101, 121,
    95, 51, 50, 95, 98, 121, 116, 101, 115, 95, 49, 50,
];

/// Each byte of `s` combined by XOR with the key byte at its position (the key repeats).
pub open spec fn xor_key(s: Seq<u8>) -> Seq<u8> {
    Seq::new(s.len(), |i: int| s[i] ^ ENCRYPTION_KEY@[i % 31])
}

fn apply_key(data: &[u8]) -> (r: Vec<u8>)
    ensures
        r@ == xor_key(data@),
{
    let mut r: Vec<u8> = Vec::new();
    let mut i: usize = 0;
    while i < data.len()
        invariant
            i <= data@.len(),
            r@ == xor_key(data@).take(i as int),
        decreases data@.len() - i,
    {
        let k = ENCRYPTION_KEY[i % 31];
        r.push(data[i] ^ k);
        assert(r@ =~= xor_key(data@).take(i + 1));
        i = i + 1;
    }
    assert(xor_key(data@).take(i as int) =~= xor_key(data@));
    r
}

/// Enciphers `secret`; empty data is an error.
pub fn encrypt_secret(secret: &[u8]) -> (r: SecurityResult<Vec<u8>>)
    ensures
        secret@.len() == 0 ==> (r matches Err(SecurityError::EncryptionError(m)) && m@
            == "Cannot encrypt empty data"@),
        secret@.len() > 0 ==> (r matches Ok(c) && c@ == xor_key(secret@)),
{
    if secret.len() == 0 {
        return Err(SecurityError::EncryptionError(owned("Cannot encrypt empty data")));
    }
    Ok(apply_key(secret))
}

/// Deciphers `encrypted`; empty data is an error.
pub fn decrypt_secret(encrypted: &[u8]) -> (r: SecurityResult<Vec<u8>>)
    ensures
        encrypted@.len() == 0 ==> (r matches Err(SecurityError::EncryptionError(m)) && m@
            == "Cannot decrypt empty data"@),
        encrypted@.len() > 0 ==> (r matches Ok(c) && c@ == xor_key(encrypted@)),
{
    if encrypted.len() == 0 {
        return Err(SecurityError::EncryptionError(owned("Cannot decrypt empty data")));
    }
    Ok(apply_key(encrypted))
}

/// Deciphering what was enciphered gives the data back: applying the key twice is the
/// identity, and keeps the length.
pub proof fn cipher_roundtrip(s: Seq<u8>)
    ensures
        xor_key(xor_key(s)) == s,
        xor_key(s).len() == s.len(),
{
    assert forall|i: int| 0 <= i < s.len() implies #[trigger] xor_key(xor_key(s))[i] == s[i] by {
        let a = s[i];
        let k = ENCRYPTION_KEY@[i % 31];
        assert((a ^ k) ^ k == a) by (bit_vector);
    }
    assert(xor_key(xor_key(s)) =~= s);
}

/// Overwrites every byte of `data` with zero.
pub fn zero_memory(data: &mut [u8])
    ensures
        final(data)@.len() == old(data)@.len(),
        forall|i: int| 0 <= i < final(data)@.len() ==> final(data)@[i] == 0,
{
    let mut i: usize = 0;
    while i < data.len()
        invariant
            i <= data@.len(),
            data@.len() == old(data)@.len(),
            forall|j: int| 0 <= j < i ==> data@[j] == 0,
        decreases data@.len() - i,
    {
        data.set(i, 0);
        i = i + 1;
    }
}

/// An in-memory secret store; values are kept enciphered.
pub struct SecretStore {
    secrets: StrMap<Vec<u8>>,
}

fn not_found(key: &str) -> (e: SecurityError)
    ensures
        e matches SecurityError::SecretNotFound(m) && m@ == "Secret '"@ + key@ + "' not found"@,
{
    let mut m = owned("Secret '");
    push_str(&mut m, key);
    push_str(&mut m, "' not found");
    SecurityError::SecretNotFound(m)
}

impl SecretStore {
    /// Every stored value is non-empty.
    #[verifier::type_invariant]
    spec fn stored_nonempty(self) -> bool {
        forall|k: Seq<char>| #[trigger] self.secrets@.dom().contains(k) ==> self.secrets@[k]@.len()
            > 0
    }

    /// The secrets, deciphered, by key.
    pub closed spec fn view(self) -> Map<Seq<char>, Seq<u8>> {
        self.secrets@.map_values(|v: Vec<u8>| xor_key(v@))
    }

    /// Creates an empty store.
    pub fn new() -> (s: Self)
        ensures
            s@ == Map::<Seq<char>, Seq<u8>>::empty(),
    {
        let s = SecretStore { secrets: StrMap::new() };
        assert(s@ =~= Map::<Seq<char>, Seq<u8>>::empty());
        s
    }

    /// Stores `value` under `key`, enciphered. An empty value is refused and leaves the
    /// store unchanged.
    pub fn store(&mut self, key: &str, value: Vec<u8>) -> (r: SecurityResult<()>)
        ensures
            value@.len() == 0 ==> (r matches Err(SecurityError::EncryptionError(m)) && m@
                == "Cannot encrypt empty data"@) && final(self)@ == old(self)@,
            value@.len() > 0 ==> r is Ok && final(self)@ == old(self)@.insert(key@, value@),
    {
        proof {
            use_type_invariant(&*self);
        }
        let encrypted = match encrypt_secret(value.as_slice()) {
            Ok(e) => e,
            Err(e) => return Err(e),
        };
        let ghost c = encrypted@;
        proof {
            cipher_roundtrip(value@);
        }
        let mut secrets = StrMap::new();
        std::mem::swap(&mut secrets, &mut self.secrets);
        secrets.insert(owned(key), encrypted);
        self.secrets = secrets;
        assert(self@ =~= old(self)@.insert(key@, value@));
        Ok(())
    }

    /// The deciphered secret stored under `key`.
    pub fn retrieve(&self, key: &str) -> (r: SecurityResult<Vec<u8>>)
        ensures
            self@.dom().contains(key@) ==> (r matches Ok(v) && v@ == self@[key@]),
            !self@.dom().contains(key@) ==> (r matches Err(SecurityError::SecretNotFound(m)) && m@
                == "Secret '"@ + key@ + "' not found"@),
    {
        proof {
            use_type_invariant(self);
        }
        match self.secrets.get(key) {
            Some(enc) => decrypt_secret(enc.as_slice()),
            None => Err(not_found(key)),
        }
    }

    /// Deletes the secret stored under `key`.
    pub fn delete(&mut self, key: &str) -> (r: SecurityResult<()>)
        ensures
            old(self)@.dom().contains(key@) ==> r is Ok && final(self)@ == old(self)@.remove(key@),
            !old(self)@.dom().contains(key@) ==> (r matches Err(SecurityError::SecretNotFound(m))
                && m@ == "Secret '"@ + key@ + "' not found"@) && final(self)@ == old(self)@,
    {
        proof {
            use_type_invariant(&*self);
        }
        let mut secrets = StrMap::new();
        std::mem::swap(&mut secrets, &mut self.secrets);
        let removed = secrets.remove(key);
        self.secrets = secrets;
        match removed {
            Some(_) => {
                assert(self@ =~= old(self)@.remove(key@));
                Ok(())
            },
            None => {
                assert(self@ =~= old(self)@);
                Err(not_found(key))
            },
        }
    }

    /// Whether a secret is stored under `key`.
    pub fn secret_exists(&self, key: &str) -> (b: bool)
        ensures
            b == self@.dom().contains(key@),
    {
        self.secrets.contains_key(key)
    }

    /// The keys of all stored secrets, each once.
    pub fn list_keys(&self) -> (r: Vec<String>)
        ensures
            r@.map_values(|s: String| s@).no_duplicates(),
            r@.map_values(|s: String| s@).to_set() == self@.dom(),
    {
        let r = self.secrets.keys();
        assert(self@.dom() =~= self.secrets@.dom());
        r
    }
}

impl Default for SecretStore {
    fn default() -> (s: Self)
        ensures
            s@ == Map::<Seq<char>, Seq<u8>>::empty(),
    {
        SecretStore::new()
    }
}

/// Storing a non-empty secret and retrieving it gives it back, and other keys keep their
/// secrets; deleting it afterwards removes it. `stored` is the store after `store` on
/// `before`, `deleted` the one after `delete` on `stored`, as their contracts state.
pub proof fn store_then_retrieve(
    before: SecretStore,
    stored: SecretStore,
    deleted: SecretStore,
    key: Seq<char>,
    value: Seq<u8>,
    other: Seq<char>,
)
    requires
        value.len() > 0,
        stored@ == before@.insert(key, value),
        deleted@ == stored@.remove(key),
        other != key,
    ensures
        stored@.dom().contains(key),
        stored@[key] == value,
        stored@.dom().contains(other) == before@.dom().contains(other),
        before@.dom().contains(other) ==> stored@[other] == before@[other],
        !deleted@.dom().contains(key),
        deleted@.dom().contains(other) == before@.dom().contains(other),
{
}


/// One change to a secret store, as its view sees it.
pub enum SecretOperation {
    /// `store(key, value)`.
    Store(Seq<char>, Seq<u8>),
    /// `delete(key)`.
    Delete(Seq<char>),
}

/// What an operation does to the secrets, as the contracts of `store` and `delete` state
/// it (a refused call changes nothing).
pub open spec fn secret_step(
    before: Map<Seq<char>, Seq<u8>>,
    op: SecretOperation,
    after: Map<Seq<char>, Seq<u8>>,
) -> bool {
    match op {
        SecretOperation::Store(k, v) => after == if v.len() > 0 {
            before.insert(k, v)
        } else {
            before
        },
        SecretOperation::Delete(k) => after == if before.dom().contains(k) {
            before.remove(k)
        } else {
            before
        },
    }
}

/// The secret that the latest successful `store` or `delete` of `key` among `ops` left:
/// the value stored, or none when the key was deleted since or never stored.
pub open spec fn latest_secret(ops: Seq<SecretOperation>, key: Seq<char>) -> Option<Seq<u8>>
    decreases ops.len(),
{
    if ops.len() == 0 {
        None
    } else {
        match ops.last() {
            SecretOperation::Store(k, v) if k == key && v.len() > 0 => Some(v),
            SecretOperation::Delete(k) if k == key => None,
            _ => latest_secret(ops.drop_last(), key),
        }
    }
}

/// A store answers with its latest write: for a run of operations from a new store
/// (`views[i + 1]` is the view after `ops[i]` on `views[i]`), a key holds a secret at the
/// end exactly when its latest successful `store` or `delete` was a `store`, and it holds
/// the value stored then; so `retrieve` gives that value and `secret_exists` is `true`,
/// and otherwise `retrieve` reports the secret not found and `secret_exists` is `false`.
pub proof fn secrets_follow_latest_write(
    views: Seq<Map<Seq<char>, Seq<u8>>>,
    ops: Seq<SecretOperation>,
    key: Seq<char>,
)
    requires
        views.len() == ops.len() + 1,
        views[0] == Map::<Seq<char>, Seq<u8>>::empty(),
        forall|i: int| 0 <= i < ops.len() ==> #[trigger] secret_step(views[i], ops[i], views[i + 1]),
    ensures
        views.last().dom().contains(key) <==> latest_secret(ops, key) is Some,
        latest_secret(ops, key) matches Some(v) ==> views.last()[key] == v,
    decreases ops.len(),
{
    let n = ops.len() as int;
    if n > 0 {
        let vs = views.drop_last();
        let os = ops.drop_last();
        assert forall|i: int| 0 <= i < os.len() implies #[trigger] secret_step(
            vs[i],
            os[i],
            vs[i + 1],
        ) by {
            assert(secret_step(views[i], ops[i], views[i + 1]));
        }
        secrets_follow_latest_write(vs, os, key);
        assert(secret_step(views[n - 1], ops[n - 1], views[n]));
        assert(vs.last() == views[n - 1]);
    }
}

} // verus!
