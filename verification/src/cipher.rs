//! Authenticated envelope encryption over the rotating key set. Sealing uses
//! the active key and a fresh random 96-bit nonce stored beside the
//! ciphertext; opening tries the active key first and then falls back through
//! the retained history, so rotation never orphans data that is still within
//! the retention bound. The first key whose authentication tag verifies wins;
//! when none does, the blob is unrecoverable.

use vstd::prelude::*;
use crate::errors::{DecryptionError, EncryptionError, KeyGenerationError};
use crate::keys::{key_wf, KeyManager};
use crate::rng::random_bytes;

verus! {

/// Nonce length in bytes (96 bits).
pub const NONCE_LEN: usize = 12;

/// Authentication-tag length in bytes appended to every ciphertext.
pub const TAG_LEN: usize = 16;

/// Longest plaintext a single blob may carry; the AEAD refuses longer input.
pub const MAX_PLAINTEXT_LEN: usize = 0xFFFF_FFFF;

/// What the AEAD seal returns for a key, nonce and plaintext: the ciphertext
/// with its authentication tag appended. A pure function of its arguments.
pub uninterp spec fn seal_of(key: Seq<u8>, nonce: Seq<u8>, plaintext: Seq<u8>) -> Seq<u8>;

/// What the AEAD open returns for a key, nonce and ciphertext-with-tag: the
/// plaintext when the tag authenticates under that key, `None` otherwise. A
/// pure function of its arguments.
pub uninterp spec fn open_of(key: Seq<u8>, nonce: Seq<u8>, ciphertext: Seq<u8>) -> Option<Seq<u8>>;

/// Relies on `ring::aead`: `UnboundKey::new` with `CHACHA20_POLY1305`,
/// `Nonce::try_assume_unique_for_key`, and
/// `LessSafeKey::seal_in_place_append_tag` with empty associated data. The
/// seal is deterministic in key, nonce and plaintext, appends the 16-byte
/// tag, and fails only for input beyond the AEAD's length bound, which the
/// precondition rules out; opening the result under the same key and nonce
/// returns the plaintext.
#[verifier::external_body]
fn aead_seal(key: &[u8], nonce: &[u8], plaintext: &[u8]) -> (r: Vec<u8>)
    requires
        key@.len() == 32,
        nonce@.len() == NONCE_LEN,
        plaintext@.len() <= MAX_PLAINTEXT_LEN,
    ensures
        r@ == seal_of(key@, nonce@, plaintext@),
        r@.len() == plaintext@.len() + TAG_LEN,
        open_of(key@, nonce@, r@) == Some(plaintext@),
{
    let unbound = ring::aead::UnboundKey::new(&ring::aead::CHACHA20_POLY1305, key).unwrap();
    let n = ring::aead::Nonce::try_assume_unique_for_key(nonce).unwrap();
    let sealing = ring::aead::LessSafeKey::new(unbound);
    let mut buf = plaintext.to_vec();
    sealing.seal_in_place_append_tag(n, ring::aead::Aad::empty(), &mut buf).unwrap();
    buf
}

/// Relies on `ring::aead`: `UnboundKey::new` with `CHACHA20_POLY1305`,
/// `Nonce::try_assume_unique_for_key`, and `LessSafeKey::open_in_place` with
/// empty associated data. Opening is deterministic in key, nonce and input;
/// it returns the plaintext without the 16-byte tag exactly when the tag
/// authenticates, and `None` otherwise.
#[verifier::external_body]
fn aead_open(key: &[u8], nonce: &[u8], data: &[u8]) -> (r: Option<Vec<u8>>)
    requires
        key@.len() == 32,
        nonce@.len() == NONCE_LEN,
    ensures
        r matches Some(p) ==> open_of(key@, nonce@, data@) == Some(p@),
        r is None ==> open_of(key@, nonce@, data@) is None,
{
    let unbound = ring::aead::UnboundKey::new(&ring::aead::CHACHA20_POLY1305, key).ok()?;
    let n = ring::aead::Nonce::try_assume_unique_for_key(nonce).ok()?;
    let opening = ring::aead::LessSafeKey::new(unbound);
    let mut buf = data.to_vec();
    let plain_len = opening.open_in_place(n, ring::aead::Aad::empty(), &mut buf).ok()?.len();
    buf.truncate(plain_len);
    Some(buf)
}

/// A ciphertext at rest: the nonce it was sealed with and the ciphertext with
/// its authentication tag. Carries no key identifier; the key is found by
/// trial in recency order.
pub struct EncryptedBlob {
    /// The 96-bit nonce drawn fresh for this encryption.
    pub nonce: Vec<u8>,
    /// The ciphertext with the 16-byte authentication tag appended.
    pub ciphertext_with_tag: Vec<u8>,
}

impl EncryptedBlob {
    /// Structural well-formedness: the nonce has its fixed length and the
    /// ciphertext is long enough to hold a tag.
    pub open spec fn wf(&self) -> bool {
        self.nonce@.len() == NONCE_LEN && self.ciphertext_with_tag@.len() >= TAG_LEN
    }

    /// The persisted layout: the 12 nonce bytes followed by the ciphertext
    /// and tag, with no cleartext key identifier.
    pub fn to_bytes(&self) -> (r: Vec<u8>)
        ensures
            r@ == self.nonce@ + self.ciphertext_with_tag@,
    {
        let mut out: Vec<u8> = Vec::new();
        out.extend_from_slice(self.nonce.as_slice());
        out.extend_from_slice(self.ciphertext_with_tag.as_slice());
        proof {
            assert(out@ =~= self.nonce@ + self.ciphertext_with_tag@);
        }
        out
    }

    /// Reads a blob back from its persisted layout. Accepts exactly the byte
    /// strings long enough for a nonce and a tag; the split is unambiguous
    /// because the nonce length is fixed.
    pub fn from_bytes(data: &[u8]) -> (r: Option<EncryptedBlob>)
        ensures
            data@.len() >= NONCE_LEN + TAG_LEN ==> (r matches Some(b) && b.wf() && b.nonce@
                == data@.take(NONCE_LEN as int) && b.ciphertext_with_tag@ == data@.skip(
                NONCE_LEN as int,
            )),
            data@.len() < NONCE_LEN + TAG_LEN ==> r is None,
    {
        if data.len() < NONCE_LEN + TAG_LEN {
            return None;
        }
        let mut nonce: Vec<u8> = Vec::new();
        let mut ct: Vec<u8> = Vec::new();
        let mut i: usize = 0;
        while i < NONCE_LEN
            invariant
                0 <= i <= NONCE_LEN,
                data@.len() >= NONCE_LEN + TAG_LEN,
                nonce@ == data@.take(i as int),
            decreases NONCE_LEN - i,
        {
            nonce.push(data[i]);
            proof {
                assert(nonce@ =~= data@.take(i + 1 as int));
            }
            i = i + 1;
        }
        let mut j: usize = NONCE_LEN;
        while j < data.len()
            invariant
                NONCE_LEN <= j <= data@.len(),
                data@.len() >= NONCE_LEN + TAG_LEN,
                ct@ == data@.subrange(NONCE_LEN as int, j as int),
            decreases data@.len() - j,
        {
            ct.push(data[j]);
            proof {
                assert(ct@ =~= data@.subrange(NONCE_LEN as int, j + 1 as int));
            }
            j = j + 1;
        }
        proof {
            assert(nonce@ =~= data@.take(NONCE_LEN as int));
            assert(ct@ =~= data@.skip(NONCE_LEN as int));
        }
        Some(EncryptedBlob { nonce, ciphertext_with_tag: ct })
    }
}

/// What decryption-by-trial returns over an ordered candidate key list: the
/// plaintext from the first key whose tag authenticates, or `None` when every
/// candidate fails.
pub open spec fn decrypt_candidates(keys: Seq<Seq<u8>>, nonce: Seq<u8>, ct: Seq<u8>) -> Option<
    Seq<u8>,
>
    decreases keys.len(),
{
    if keys.len() == 0 {
        None
    } else if open_of(keys[0], nonce, ct) is Some {
        open_of(keys[0], nonce, ct)
    } else {
        decrypt_candidates(keys.drop_first(), nonce, ct)
    }
}

/// Round trip: a blob whose ciphertext the first candidate key opens to `p`
/// decrypts to exactly `p`. Together with the seal contract this gives
/// `decrypt(encrypt(p)) == p` while the encrypting key is still active.
pub proof fn lemma_decrypt_first(keys: Seq<Seq<u8>>, nonce: Seq<u8>, ct: Seq<u8>, p: Seq<u8>)
    requires
        keys.len() > 0,
        open_of(keys[0], nonce, ct) == Some(p),
    ensures
        decrypt_candidates(keys, nonce, ct) == Some(p),
{
}

/// Rotation survivability: a blob that some retained candidate key opens to
/// `p` still decrypts to exactly `p`, provided no more recent key's tag check
/// accepts the blob — which authenticated encryption makes the only expected
/// outcome for keys the blob was not sealed under.
pub proof fn lemma_decrypt_retained(
    keys: Seq<Seq<u8>>,
    nonce: Seq<u8>,
    ct: Seq<u8>,
    i: int,
    p: Seq<u8>,
)
    requires
        0 <= i < keys.len(),
        open_of(keys[i], nonce, ct) == Some(p),
        forall|j: int| 0 <= j < i ==> open_of(#[trigger] keys[j], nonce, ct) is None,
    ensures
        decrypt_candidates(keys, nonce, ct) == Some(p),
    decreases i,
{
    if i > 0 {
        lemma_decrypt_retained(keys.drop_first(), nonce, ct, i - 1, p);
    }
}

/// Decryption by trial succeeds exactly when some candidate key's tag check
/// accepts the blob; in particular it fails once the sealing key has aged out
/// of the history and no retained key authenticates the blob.
pub proof fn lemma_decrypt_some_iff(keys: Seq<Seq<u8>>, nonce: Seq<u8>, ct: Seq<u8>)
    ensures
        decrypt_candidates(keys, nonce, ct) is Some <==> exists|i: int|
            0 <= i < keys.len() && open_of(#[trigger] keys[i], nonce, ct) is Some,
    decreases keys.len(),
{
    if keys.len() > 0 {
        lemma_decrypt_some_iff(keys.drop_first(), nonce, ct);
        if open_of(keys[0], nonce, ct) is Some {
        } else {
            assert forall|i: int|
                0 <= i < keys.len() && open_of(#[trigger] keys[i], nonce, ct)
                    is Some implies decrypt_candidates(keys, nonce, ct) is Some by {
                assert(keys.drop_first()[i - 1] == keys[i]);
            }
            assert forall|i: int|
                0 <= i < keys.drop_first().len() && open_of(
                    #[trigger] keys.drop_first()[i],
                    nonce,
                    ct,
                ) is Some implies exists|j: int|
                0 <= j < keys.len() && open_of(#[trigger] keys[j], nonce, ct) is Some by {
                assert(keys[i + 1] == keys.drop_first()[i]);
            }
        }
    }
}

/// Skipping candidates whose tag check rejects the blob does not change what
/// decryption by trial returns.
proof fn lemma_decrypt_skip_failures(keys: Seq<Seq<u8>>, nonce: Seq<u8>, ct: Seq<u8>, m: int)
    requires
        0 <= m <= keys.len(),
        forall|j: int| 0 <= j < m ==> open_of(#[trigger] keys[j], nonce, ct) is None,
    ensures
        decrypt_candidates(keys, nonce, ct) == decrypt_candidates(keys.skip(m), nonce, ct),
    decreases m,
{
    if m > 0 {
        lemma_decrypt_skip_failures(keys.drop_first(), nonce, ct, m - 1);
        assert(keys.drop_first().skip(m - 1) =~= keys.skip(m));
    } else {
        assert(keys.skip(0) =~= keys);
    }
}

/// Authenticated encryption and decryption over the rotating key set.
pub struct EnvelopeCipher {
    /// The key manager the cipher draws its key material from.
    pub keys: KeyManager,
}

impl EnvelopeCipher {
    /// Well-formedness of the underlying key store.
    pub open spec fn wf(&self) -> bool {
        self.keys.wf()
    }

    /// The active key's bytes, or `None` while no rotation has happened yet.
    pub open spec fn active_view(&self) -> Option<Seq<u8>> {
        self.keys.active_view()
    }

    /// The decryption candidates, in trial order.
    pub open spec fn candidates(&self) -> Seq<Seq<u8>> {
        self.keys.candidates()
    }

    /// A cipher over the given key manager.
    pub fn new(keys: KeyManager) -> (r: Self)
        ensures
            r.keys == keys,
    {
        EnvelopeCipher { keys }
    }

    /// Delegated rotation, so an owner of the cipher can run the periodic
    /// rotation task through it.
    pub fn rotate(&mut self) -> (r: Result<(), KeyGenerationError>)
        requires
            old(self).wf(),
        ensures
            final(self).wf(),
            final(self).keys.retention() == old(self).keys.retention(),
            r is Ok ==> final(self).active_view() is Some,
            r is Ok ==> final(self).keys.history_view() == crate::keys::rotated_history(
                old(self).keys.active_view(),
                old(self).keys.history_view(),
                old(self).keys.retention(),
            ),
            r is Err ==> *final(self) == *old(self),
    {
        self.keys.rotate()
    }

    /// Seals `plaintext` under the active key with a fresh random nonce and
    /// empty associated data. Fails with `NoActiveKey` exactly while no
    /// rotation has run, and with `KeyGeneration` only when the random source
    /// fails; on success the blob's ciphertext opens back to `plaintext`
    /// under the sealing key and nonce.
    pub fn encrypt(&self, plaintext: &[u8]) -> (r: Result<EncryptedBlob, EncryptionError>)
        requires
            self.wf(),
            plaintext@.len() <= MAX_PLAINTEXT_LEN,
        ensures
            r == Err::<EncryptedBlob, EncryptionError>(EncryptionError::NoActiveKey) <==> self
                .active_view() is None,
            r matches Err(e) ==> (e == EncryptionError::NoActiveKey || e
                == EncryptionError::KeyGeneration(KeyGenerationError)),
            r matches Ok(b) ==> (self.active_view() matches Some(k) && b.wf() && b
                .ciphertext_with_tag@ == seal_of(k, b.nonce@, plaintext@) && open_of(
                k,
                b.nonce@,
                b.ciphertext_with_tag@,
            ) == Some(plaintext@) && b.ciphertext_with_tag@.len() == plaintext@.len() + TAG_LEN),
    {
        if !self.keys.has_active() {
            return Err(EncryptionError::NoActiveKey);
        }
        let nonce = match random_bytes(NONCE_LEN) {
            Ok(v) => v,
            Err(e) => {
                return Err(EncryptionError::KeyGeneration(e));
            },
        };
        let (active, _previous) = self.keys.current_keys();
        let ct = aead_seal(active.as_slice(), nonce.as_slice(), plaintext);
        Ok(EncryptedBlob { nonce, ciphertext_with_tag: ct })
    }

    /// Opens a blob by trying each candidate key in recency order; the first
    /// key whose authentication tag verifies wins. Returns exactly what
    /// decryption by trial over the current candidates gives, and fails when
    /// every candidate's tag check rejects the blob — corrupt, forged, or
    /// sealed under a key that aged out of the history.
    pub fn decrypt(&self, blob: &EncryptedBlob) -> (r: Result<Vec<u8>, DecryptionError>)
        requires
            self.wf(),
            blob.nonce@.len() == NONCE_LEN,
        ensures
            r matches Ok(p) ==> decrypt_candidates(
                self.candidates(),
                blob.nonce@,
                blob.ciphertext_with_tag@,
            ) == Some(p@),
            r is Err ==> decrypt_candidates(
                self.candidates(),
                blob.nonce@,
                blob.ciphertext_with_tag@,
            ) is None,
    {
        let ghost cands = self.candidates();
        let ghost nonce_v = blob.nonce@;
        let ghost ct_v = blob.ciphertext_with_tag@;
        let (active, previous) = self.keys.current_keys();
        if active.len() == 0 {
            proof {
                assert(cands =~= Seq::<Seq<u8>>::empty());
            }
            return Err(DecryptionError);
        }
        proof {
            assert(cands[0] == active@);
            assert(key_wf(active@));
        }
        match aead_open(active.as_slice(), blob.nonce.as_slice(), blob.ciphertext_with_tag.as_slice()) {
            Some(p) => {
                return Ok(p);
            },
            None => {},
        }
        let n = previous.len();
        proof {
            assert forall|j: int| 0 <= j < n implies cands[j + 1] == previous@[j]@ && key_wf(
                #[trigger] previous@[j]@,
            ) by {
                assert(previous@.map(|i: int, k: Vec<u8>| k@)[j] == previous@[j]@);
                assert(self.keys.history_view()[j] == previous@[j]@);
            }
        }
        let mut i: usize = 0;
        while i < n
            invariant
                self.wf(),
                n == previous@.len(),
                0 <= i <= n,
                cands == self.candidates(),
                nonce_v == blob.nonce@,
                ct_v == blob.ciphertext_with_tag@,
                nonce_v.len() == NONCE_LEN,
                cands.len() == n + 1,
                forall|j: int| 0 <= j < n ==> cands[j + 1] == previous@[j]@,
                forall|j: int| 0 <= j < n ==> key_wf(#[trigger] previous@[j]@),
                forall|j: int| 0 <= j <= i ==> open_of(#[trigger] cands[j], nonce_v, ct_v) is None,
            decreases n - i,
        {
            let key = &previous[i];
            match aead_open(key.as_slice(), blob.nonce.as_slice(), blob.ciphertext_with_tag.as_slice()) {
                Some(p) => {
                    proof {
                        lemma_decrypt_retained(cands, nonce_v, ct_v, i + 1, p@);
                    }
                    return Ok(p);
                },
                None => {},
            }
            i = i + 1;
        }
        proof {
            lemma_decrypt_skip_failures(cands, nonce_v, ct_v, cands.len() as int);
            assert(cands.skip(cands.len() as int) =~= Seq::<Seq<u8>>::empty());
        }
        Err(DecryptionError)
    }
}

} // verus!
