//! Named secret storage layered on the envelope cipher. Every value passes
//! the token rules before any cryptographic work; accepted values are sealed
//! under the active key and kept by name, one blob per name, overwritten on
//! re-store and removed on delete. Retrieval decrypts by trial over the
//! retained keys; a blob no retained key authenticates is unrecoverable.

use vstd::prelude::*;
use vstd::string::{StringSliceAdditionalSpecFns, StrSliceExecFns};
use vstd::utf8::{decode_utf8, encode_utf8, valid_utf8, is_ascii_chars};
use crate::cipher::{decrypt_candidates, open_of, EncryptedBlob, EnvelopeCipher, NONCE_LEN};
use crate::errors::{DecryptionError, EncryptionError, KeyGenerationError, StoreError};
use crate::keys::{KeyManager, DEFAULT_RETENTION};
use crate::text::{bytes_to_string, str_eq};
use crate::validate::{spec_validate_token, InputValidator};

verus! {

/// The named credential set: an owned envelope cipher and one encrypted blob
/// per name. The only component that touches persistence; the persisted
/// layout of each blob is `EncryptedBlob::to_bytes`.
pub struct CredentialStore {
    cipher: EnvelopeCipher,
    entries: Vec<(String, EncryptedBlob)>,
    validator: InputValidator,
    namespace: String,
}

impl CredentialStore {
    /// The stored pairs, in insertion order.
    pub closed spec fn pairs(&self) -> Seq<(String, EncryptedBlob)> {
        self.entries@
    }

    /// The namespace the store was created under.
    pub closed spec fn namespace_view(&self) -> Seq<char> {
        self.namespace@
    }

    /// The decryption candidates of the owned cipher, in trial order.
    pub closed spec fn candidates(&self) -> Seq<Seq<u8>> {
        self.cipher.candidates()
    }

    /// The active key of the owned cipher.
    pub closed spec fn active_view(&self) -> Option<Seq<u8>> {
        self.cipher.active_view()
    }

    /// The retired keys of the owned cipher, most recent first.
    pub closed spec fn history_view(&self) -> Seq<Seq<u8>> {
        self.cipher.keys.history_view()
    }

    /// The retention bound of the owned cipher.
    pub closed spec fn retention(&self) -> int {
        self.cipher.keys.retention()
    }

    /// Whether a credential of this name is stored.
    pub closed spec fn contains_name(&self, name: Seq<char>) -> bool {
        exists|i: int| 0 <= i < self.pairs().len() && self.pairs()[i].0@ == name
    }

    /// The nonce and ciphertext stored under this name.
    pub closed spec fn blob_at(&self, name: Seq<char>) -> (Seq<u8>, Seq<u8>) {
        let i = choose|i: int| 0 <= i < self.pairs().len() && self.pairs()[i].0@ == name;
        (self.pairs()[i].1.nonce@, self.pairs()[i].1.ciphertext_with_tag@)
    }

    /// Well-formedness: the cipher's key store is well formed and populated,
    /// names are unique, and every stored blob carries a full-length nonce.
    pub closed spec fn wf(&self) -> bool {
        &&& self.cipher.wf()
        &&& self.cipher.active_view() is Some
        &&& (forall|i: int, j: int|
            0 <= i < j < self.pairs().len() ==> (#[trigger] self.pairs()[i].0@) != (
            #[trigger] self.pairs()[j].0@))
        &&& (forall|i: int|
            0 <= i < self.pairs().len() ==> (#[trigger] self.pairs()[i].1.nonce@).len()
                == NONCE_LEN)
    }

    /// What retrieval returns for a name, decided by the stored blob, the
    /// current candidate keys, and UTF-8 decoding of the recovered bytes.
    pub open spec fn spec_get(&self, name: Seq<char>) -> Result<Seq<char>, StoreError> {
        if !self.contains_name(name) {
            Err(StoreError::NotFound)
        } else {
            let (nonce, ct) = self.blob_at(name);
            match decrypt_candidates(self.candidates(), nonce, ct) {
                None => Err(StoreError::Decryption(DecryptionError)),
                Some(p) => if valid_utf8(p) {
                    Ok(decode_utf8(p))
                } else {
                    Err(StoreError::Decryption(DecryptionError))
                },
            }
        }
    }

    /// Ties a stored pair's index to `blob_at`: with unique names, the blob
    /// looked up by name is the one at that index.
    proof fn lemma_blob_at_index(&self, i: int)
        requires
            self.wf(),
            0 <= i < self.pairs().len(),
        ensures
            self.contains_name(self.pairs()[i].0@),
            self.blob_at(self.pairs()[i].0@) == (
                self.pairs()[i].1.nonce@,
                self.pairs()[i].1.ciphertext_with_tag@,
            ),
    {
        let name = self.pairs()[i].0@;
        assert(self.contains_name(name));
        let j = choose|j: int| 0 <= j < self.pairs().len() && self.pairs()[j].0@ == name;
        if i < j {
            assert(self.pairs()[i].0@ != self.pairs()[j].0@);
        } else if j < i {
            assert(self.pairs()[j].0@ != self.pairs()[i].0@);
        }
    }

    /// A fresh store under the given namespace, with the default retention
    /// bound and a first rotation already run, so an active key is in place.
    /// Fails only when the random source fails.
    pub fn new(namespace: &str) -> (r: Result<CredentialStore, KeyGenerationError>)
        ensures
            r matches Ok(st) ==> st.wf() && st.namespace_view() == namespace@ && (forall|
                n: Seq<char>,
            | !st.contains_name(n)) && st.retention() == DEFAULT_RETENTION
                && st.history_view().len() == 0,
    {
        let mut keys = KeyManager::new(DEFAULT_RETENTION);
        match keys.rotate() {
            Ok(()) => {},
            Err(e) => {
                return Err(e);
            },
        }
        let st = CredentialStore {
            cipher: EnvelopeCipher::new(keys),
            entries: Vec::new(),
            validator: InputValidator::new(),
            namespace: namespace.to_owned(),
        };
        Ok(st)
    }

    /// The namespace the store was created under.
    pub fn namespace(&self) -> (r: &String)
        ensures
            r@ == self.namespace_view(),
    {
        &self.namespace
    }

    /// How many credentials are stored.
    pub fn len(&self) -> (n: usize)
        ensures
            n == self.pairs().len(),
    {
        self.entries.len()
    }

    /// Delegated rotation for the periodic rotation task: a fresh key becomes
    /// active, the retiring key moves to the front of the history, and the
    /// history is trimmed to the retention bound. The stored blobs and names
    /// do not change; only the candidate key set does. On a random-source
    /// failure nothing changes.
    pub fn rotate(&mut self) -> (r: Result<(), KeyGenerationError>)
        requires
            old(self).wf(),
        ensures
            final(self).wf(),
            final(self).pairs() == old(self).pairs(),
            final(self).namespace_view() == old(self).namespace_view(),
            final(self).retention() == old(self).retention(),
            r is Ok ==> final(self).history_view() == crate::keys::rotated_history(
                old(self).active_view(),
                old(self).history_view(),
                old(self).retention(),
            ),
            r is Err ==> *final(self) == *old(self),
    {
        let r = self.cipher.rotate();
        proof {
            assert(self.pairs() == old(self).pairs());
            assert(self.entries@ == old(self).entries@);
        }
        r
    }

    /// Finds the index holding `name`, if any.
    fn find_index(&self, name: &str) -> (r: Option<usize>)
        requires
            self.wf(),
        ensures
            r matches Some(i) ==> i < self.pairs().len() && self.pairs()[i as int].0@ == name@,
            r is None ==> !self.contains_name(name@),
    {
        let n = self.entries.len();
        let mut i: usize = 0;
        while i < n
            invariant
                self.wf(),
                n == self.pairs().len(),
                0 <= i <= n,
                forall|j: int| 0 <= j < i ==> (#[trigger] self.pairs()[j].0@) != name@,
            decreases n - i,
        {
            if str_eq(self.entries[i].0.as_str(), name) {
                return Some(i);
            }
            i = i + 1;
        }
        None
    }

    /// Validates `value` against the token rules, then seals it under the
    /// active key with a fresh nonce and writes or overwrites the named
    /// entry. A value that fails validation is rejected before any
    /// cryptographic work and nothing changes; after a successful store the
    /// new blob's ciphertext opens to exactly the value's bytes under the
    /// active key, and every other entry is untouched.
    #[verifier::rlimit(60)]
    pub fn store(&mut self, name: &str, value: &str) -> (r: Result<(), StoreError>)
        requires
            old(self).wf(),
        ensures
            final(self).wf(),
            final(self).namespace_view() == old(self).namespace_view(),
            final(self).candidates() == old(self).candidates(),
            final(self).active_view() == old(self).active_view(),
            final(self).history_view() == old(self).history_view(),
            final(self).retention() == old(self).retention(),
            spec_validate_token(value@) matches Err(e) ==> r == Err::<(), StoreError>(
                StoreError::Validation(e),
            ) && *final(self) == *old(self),
            spec_validate_token(value@) is Ok ==> (r is Ok || r == Err::<(), StoreError>(
                StoreError::KeyGeneration(KeyGenerationError),
            )),
            r is Err ==> *final(self) == *old(self),
            r is Ok ==> ({
                &&& final(self).contains_name(name@)
                &&& (old(self).active_view() matches Some(k) && open_of(
                    k,
                    final(self).blob_at(name@).0,
                    final(self).blob_at(name@).1,
                ) == Some(encode_utf8(value@)))
                &&& (forall|n: Seq<char>|
                    n != name@ ==> old(self).contains_name(n) == final(self).contains_name(n))
                &&& (forall|n: Seq<char>|
                    n != name@ && old(self).contains_name(n) ==> old(self).blob_at(n)
                        == final(self).blob_at(n))
            }),
    {
        match self.validator.validate_token(value) {
            Ok(()) => {},
            Err(e) => {
                return Err(StoreError::Validation(e));
            },
        }
        proof {
            assert(is_ascii_chars(value@)) by {
                assert forall|i: int| 0 <= i < value@.len() implies '\0' <= #[trigger] value@[i]
                    <= '\u{7f}' by {
                    assert(crate::validate::token_char_ok(value@[i]));
                }
            }
            vstd::utf8::is_ascii_chars_encode_utf8(value@);
            assert(value.spec_bytes().len() == value@.len());
        }
        let blob = match self.cipher.encrypt(value.as_bytes()) {
            Ok(b) => b,
            Err(EncryptionError::NoActiveKey) => {
                proof {
                    assert(false);
                }
                return Err(StoreError::KeyGeneration(KeyGenerationError));
            },
            Err(EncryptionError::KeyGeneration(e)) => {
                return Err(StoreError::KeyGeneration(e));
            },
        };
        self.take_out(name);
        self.push_new(name, blob);
        Ok(())
    }

    /// Fetches and decrypts the named credential. `NotFound` exactly when no
    /// entry of this name exists; otherwise the result is what decryption by
    /// trial over the current candidate keys gives — a blob no retained key
    /// authenticates, or whose recovered bytes are not valid UTF-8, is
    /// reported unrecoverable.
    pub fn get(&self, name: &str) -> (r: Result<String, StoreError>)
        requires
            self.wf(),
        ensures
            r matches Ok(s) ==> self.spec_get(name@) == Ok::<Seq<char>, StoreError>(s@),
            r matches Err(e) ==> self.spec_get(name@) == Err::<Seq<char>, StoreError>(e),
    {
        let i = match self.find_index(name) {
            Some(i) => i,
            None => {
                return Err(StoreError::NotFound);
            },
        };
        proof {
            self.lemma_blob_at_index(i as int);
        }
        let plain = match self.cipher.decrypt(&self.entries[i].1) {
            Ok(p) => p,
            Err(DecryptionError) => {
                return Err(StoreError::Decryption(DecryptionError));
            },
        };
        match bytes_to_string(plain) {
            Some(s) => Ok(s),
            None => Err(StoreError::Decryption(DecryptionError)),
        }
    }

    /// Removes the named credential. Idempotent: deleting an absent name is
    /// not an error, and afterwards the name is absent either way while every
    /// other entry is untouched.
    pub fn delete(&mut self, name: &str) -> (r: Result<(), StoreError>)
        requires
            old(self).wf(),
        ensures
            final(self).wf(),
            r is Ok,
            final(self).namespace_view() == old(self).namespace_view(),
            final(self).candidates() == old(self).candidates(),
            final(self).active_view() == old(self).active_view(),
            !final(self).contains_name(name@),
            forall|n: Seq<char>|
                n != name@ ==> old(self).contains_name(n) == final(self).contains_name(n) && (old(
                    self,
                ).contains_name(n) ==> old(self).blob_at(n) == final(self).blob_at(n)),
    {
        self.take_out(name);
        Ok(())
    }

    /// Removes any entry of this name, leaving every other entry, the key
    /// set and the namespace untouched.
    fn take_out(&mut self, name: &str)
        requires
            old(self).wf(),
        ensures
            final(self).wf(),
            final(self).namespace_view() == old(self).namespace_view(),
            final(self).candidates() == old(self).candidates(),
            final(self).active_view() == old(self).active_view(),
            final(self).history_view() == old(self).history_view(),
            final(self).retention() == old(self).retention(),
            !final(self).contains_name(name@),
            forall|n: Seq<char>|
                n != name@ ==> old(self).contains_name(n) == final(self).contains_name(n) && (old(
                    self,
                ).contains_name(n) ==> old(self).blob_at(n) == final(self).blob_at(n)),
    {
        let ghost pre = self.entries@;
        match self.find_index(name) {
            Some(i) => {
                self.entries.remove(i);
                proof {
                    let post = self.entries@;
                    assert forall|a: int, b: int|
                        0 <= a < b < post.len() implies (#[trigger] post[a].0@) != (
                    #[trigger] post[b].0@) by {
                        if b < i {
                            assert(post[a] == pre[a] && post[b] == pre[b]);
                        } else if a < i {
                            assert(post[a] == pre[a] && post[b] == pre[b + 1]);
                        } else {
                            assert(post[a] == pre[a + 1] && post[b] == pre[b + 1]);
                        }
                    }
                    assert forall|j: int| 0 <= j < post.len() implies (#[trigger] post[j].0@)
                        != name@ by {
                        if j < i {
                            assert(post[j] == pre[j]);
                            assert(pre[j].0@ != pre[i as int].0@);
                        } else {
                            assert(post[j] == pre[j + 1]);
                            assert(pre[i as int].0@ != pre[j + 1].0@);
                        }
                    }
                    assert forall|k2: int|
                        0 <= k2 < post.len() implies (#[trigger] post[k2].1.nonce@).len()
                        == NONCE_LEN by {
                        if k2 < i {
                            assert(post[k2] == pre[k2]);
                        } else {
                            assert(post[k2] == pre[k2 + 1]);
                        }
                    }
                    assert forall|n: Seq<char>|
                        n != name@ implies old(self).contains_name(n) == self.contains_name(n) && (
                    old(self).contains_name(n) ==> old(self).blob_at(n) == self.blob_at(n)) by {
                        if old(self).contains_name(n) {
                            let w = choose|w: int| 0 <= w < pre.len() && pre[w].0@ == n;
                            old(self).lemma_blob_at_index(w);
                            assert(exists|j: int| 0 <= j < post.len() && post[j] == pre[w]) by {
                                if w < i {
                                    assert(post[w] == pre[w]);
                                } else {
                                    assert(post[w - 1] == pre[w]);
                                }
                            }
                            let j = choose|j: int| 0 <= j < post.len() && post[j] == pre[w];
                            self.lemma_blob_at_index(j);
                        }
                        if self.contains_name(n) {
                            let j = choose|j: int| 0 <= j < post.len() && post[j].0@ == n;
                            if j < i {
                                assert(post[j] == pre[j]);
                            } else {
                                assert(post[j] == pre[j + 1]);
                            }
                            assert(old(self).contains_name(n));
                        }
                    }
                }
            },
            None => {},
        }
    }

    /// Adds an entry under a name that is not yet present, leaving every
    /// other entry, the key set and the namespace untouched.
    fn push_new(&mut self, name: &str, blob: EncryptedBlob)
        requires
            old(self).wf(),
            !old(self).contains_name(name@),
            blob.nonce@.len() == NONCE_LEN,
        ensures
            final(self).wf(),
            final(self).namespace_view() == old(self).namespace_view(),
            final(self).candidates() == old(self).candidates(),
            final(self).active_view() == old(self).active_view(),
            final(self).history_view() == old(self).history_view(),
            final(self).retention() == old(self).retention(),
            final(self).contains_name(name@),
            final(self).blob_at(name@) == (blob.nonce@, blob.ciphertext_with_tag@),
            forall|n: Seq<char>|
                n != name@ ==> old(self).contains_name(n) == final(self).contains_name(n) && (old(
                    self,
                ).contains_name(n) ==> old(self).blob_at(n) == final(self).blob_at(n)),
    {
        let ghost pre = self.entries@;
        let ghost b = blob;
        self.entries.push((name.to_owned(), blob));
        proof {
            let post = self.entries@;
            let last = post.len() - 1;
            assert(pre == old(self).pairs());
            assert(post == self.pairs());
            assert(post == pre.push((post[last].0, post[last].1)));
            assert(post[last].0@ == name@);
            assert(post[last].1 == b);
            assert forall|a: int, b2: int|
                0 <= a < b2 < post.len() implies (#[trigger] post[a].0@) != (
            #[trigger] post[b2].0@) by {
                if b2 < last {
                    assert(post[a] == pre[a] && post[b2] == pre[b2]);
                } else {
                    assert(post[a] == pre[a]);
                    assert(old(self).pairs() == pre);
                    assert(old(self).pairs()[a].0@ != name@);
                }
            }
            assert forall|k2: int|
                0 <= k2 < post.len() implies (#[trigger] post[k2].1.nonce@).len() == NONCE_LEN by {
                if k2 < last {
                    assert(post[k2] == pre[k2]);
                }
            }
            assert(self.contains_name(name@));
            self.lemma_blob_at_index(last);
            assert forall|n: Seq<char>|
                n != name@ implies old(self).contains_name(n) == self.contains_name(n) && (old(
                self,
            ).contains_name(n) ==> old(self).blob_at(n) == self.blob_at(n)) by {
                if old(self).contains_name(n) {
                    let w = choose|w: int| 0 <= w < pre.len() && pre[w].0@ == n;
                    old(self).lemma_blob_at_index(w);
                    assert(post[w] == pre[w]);
                    self.lemma_blob_at_index(w);
                }
                if self.contains_name(n) {
                    let j = choose|j: int| 0 <= j < post.len() && post[j].0@ == n;
                    assert(j != last);
                    assert(post[j] == pre[j]);
                    assert(old(self).contains_name(n));
                }
            }
        }
    }
}


/// Round trip through the store: a blob sealed under the current active key
/// and stored under a name is returned verbatim by retrieval — the candidate
/// list starts with the active key, whose tag check accepts its own seal, and
/// UTF-8 decoding inverts the encoding of the stored characters.
pub proof fn lemma_store_get_round_trip(st: &CredentialStore, name: Seq<char>, value: Seq<char>)
    requires
        st.wf(),
        st.contains_name(name),
        st.active_view() matches Some(k) && open_of(k, st.blob_at(name).0, st.blob_at(name).1)
            == Some(encode_utf8(value)),
    ensures
        st.spec_get(name) == Ok::<Seq<char>, StoreError>(value),
{
    let k = st.active_view().unwrap();
    let (nonce, ct) = st.blob_at(name);
    assert(st.candidates()[0] == k);
    crate::cipher::lemma_decrypt_first(st.candidates(), nonce, ct, encode_utf8(value));
    vstd::utf8::encode_utf8_valid_utf8(value);
    vstd::utf8::encode_utf8_decode_utf8(value);
}

} // verus!
