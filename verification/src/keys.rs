//! Key generation and rotation. A `KeyStore` holds one active symmetric key
//! and a bounded, most-recent-first history of retired keys; `KeyManager`
//! owns the store and performs rotation. Rotation never invalidates data
//! encrypted under a key that is still within the retention bound.

use vstd::prelude::*;
use crate::errors::KeyGenerationError;
use crate::rng::random_bytes;

verus! {

/// Length of the symmetric key material, in bytes (256 bits).
pub const KEY_LEN: usize = 32;

/// Default number of retired keys kept after rotation.
pub const DEFAULT_RETENTION: usize = 2;

/// A well-formed key is exactly `KEY_LEN` bytes.
pub open spec fn key_wf(k: Seq<u8>) -> bool {
    k.len() == KEY_LEN
}

/// The history after one rotation: the retiring active key (when present)
/// moves to the front, and the list is trimmed to the retention bound,
/// discarding the oldest entries.
pub open spec fn rotated_history(
    active: Option<Seq<u8>>,
    history: Seq<Seq<u8>>,
    retention: int,
) -> Seq<Seq<u8>> {
    match active {
        None => history,
        Some(k) => {
            let pushed = seq![k] + history;
            if pushed.len() <= retention {
                pushed
            } else {
                pushed.take(retention)
            }
        },
    }
}

/// The key-store state after a whole sequence of rotations, the freshly drawn
/// keys given oldest first.
pub open spec fn rotate_many(
    active: Option<Seq<u8>>,
    history: Seq<Seq<u8>>,
    retention: int,
    new_keys: Seq<Seq<u8>>,
) -> (Option<Seq<u8>>, Seq<Seq<u8>>)
    decreases new_keys.len(),
{
    if new_keys.len() == 0 {
        (active, history)
    } else {
        rotate_many(
            Some(new_keys[0]),
            rotated_history(active, history, retention),
            retention,
            new_keys.drop_first(),
        )
    }
}

/// The active key and the bounded list of retired keys, most recent first.
/// Created with no active key; the first rotation populates it.
pub struct KeyStore {
    active_key: Vec<u8>,
    previous_keys: Vec<Vec<u8>>,
    retention_count: usize,
}

impl KeyStore {
    /// The active key's bytes, or `None` while no rotation has happened yet.
    pub closed spec fn active_view(&self) -> Option<Seq<u8>> {
        if self.active_key@.len() == 0 {
            None
        } else {
            Some(self.active_key@)
        }
    }

    /// The retired keys, most recent first.
    pub closed spec fn history_view(&self) -> Seq<Seq<u8>> {
        self.previous_keys@.map(|i: int, k: Vec<u8>| k@)
    }

    /// The retention bound the store was created with.
    pub closed spec fn retention(&self) -> int {
        self.retention_count as int
    }

    /// Well-formedness: the bound is at least one, the history never exceeds
    /// it, every key has the right length, and no key can retire before a
    /// first active key exists.
    pub open spec fn wf(&self) -> bool {
        &&& self.retention() >= 1
        &&& self.history_view().len() <= self.retention()
        &&& (self.active_view() matches Some(k) ==> key_wf(k))
        &&& (forall|i: int|
            0 <= i < self.history_view().len() ==> key_wf(#[trigger] self.history_view()[i]))
        &&& (self.active_view() is None ==> self.history_view().len() == 0)
    }

    /// The decryption candidates, in trial order: active key first, then the
    /// retired keys, most recent first.
    pub open spec fn candidates(&self) -> Seq<Seq<u8>> {
        match self.active_view() {
            Some(k) => seq![k] + self.history_view(),
            None => Seq::<Seq<u8>>::empty(),
        }
    }
}

/// Owns the `KeyStore` and performs rotation; the cipher reads the current
/// key set through it. The caller serializes access: rotation needs `&mut`,
/// encryption and decryption only `&`.
pub struct KeyManager {
    /// The owned store; its own fields stay private, so the key material is
    /// reachable only through the methods below.
    pub store: KeyStore,
}

impl KeyManager {
    /// The active key's bytes, or `None` while no rotation has happened yet.
    pub open spec fn active_view(&self) -> Option<Seq<u8>> {
        self.store.active_view()
    }

    /// The retired keys, most recent first.
    pub open spec fn history_view(&self) -> Seq<Seq<u8>> {
        self.store.history_view()
    }

    /// The retention bound.
    pub open spec fn retention(&self) -> int {
        self.store.retention()
    }

    /// Well-formedness of the owned store.
    pub open spec fn wf(&self) -> bool {
        self.store.wf()
    }

    /// The decryption candidates, in trial order.
    pub open spec fn candidates(&self) -> Seq<Seq<u8>> {
        self.store.candidates()
    }

    /// A manager over an empty store. The bound must be at least one so that
    /// data encrypted just before a rotation stays decryptable after it.
    pub fn new(retention_count: usize) -> (r: Self)
        requires
            retention_count >= 1,
        ensures
            r.wf(),
            r.active_view() is None,
            r.history_view() == Seq::<Seq<u8>>::empty(),
            r.retention() == retention_count,
    {
        let r = KeyManager {
            store: KeyStore {
                active_key: Vec::new(),
                previous_keys: Vec::new(),
                retention_count,
            },
        };
        proof {
            assert(r.history_view() =~= Seq::<Seq<u8>>::empty());
        }
        r
    }

    /// Whether a first rotation has installed an active key.
    pub fn has_active(&self) -> (b: bool)
        ensures
            b == (self.active_view() is Some),
    {
        self.store.active_key.len() > 0
    }

    /// How many retired keys are currently held.
    pub fn history_len(&self) -> (n: usize)
        ensures
            n == self.history_view().len(),
    {
        self.store.previous_keys.len()
    }

    /// The retention bound the store was created with.
    pub fn retention_count(&self) -> (n: usize)
        ensures
            n == self.retention(),
    {
        self.store.retention_count
    }

    /// Read-only access to the current key set: the active key (empty while
    /// none exists) and the retired keys, most recent first. Callers must not
    /// retain the references past their borrow; key bytes are copied if
    /// needed beyond it.
    pub fn current_keys(&self) -> (r: (&Vec<u8>, &Vec<Vec<u8>>))
        ensures
            self.active_view() matches Some(k) ==> r.0@ == k,
            self.active_view() is None ==> r.0@.len() == 0,
            r.1@.map(|i: int, k: Vec<u8>| k@) == self.history_view(),
    {
        (&self.store.active_key, &self.store.previous_keys)
    }

    /// Draws a fresh random key and installs it as active; the retiring key
    /// moves to the front of the history, which is trimmed to the retention
    /// bound. Fails only when the random source fails, leaving the store
    /// unchanged; the caller retries.
    pub fn rotate(&mut self) -> (r: Result<(), KeyGenerationError>)
        requires
            old(self).wf(),
        ensures
            final(self).wf(),
            final(self).retention() == old(self).retention(),
            r is Ok ==> (final(self).active_view() matches Some(k) && key_wf(k)),
            r is Ok ==> final(self).history_view() == rotated_history(
                old(self).active_view(),
                old(self).history_view(),
                old(self).retention(),
            ),
            r is Err ==> *final(self) == *old(self),
    {
        let mut new_key = match random_bytes(KEY_LEN) {
            Ok(v) => v,
            Err(e) => {
                return Err(e);
            },
        };
        core::mem::swap(&mut self.store.active_key, &mut new_key);
        // `new_key` now holds the retiring key (empty when none existed).
        let ghost pre_history = self.store.history_view();
        if new_key.len() > 0 {
            self.store.previous_keys.insert(0, new_key);
            if self.store.previous_keys.len() > self.store.retention_count {
                self.store.previous_keys.truncate(self.store.retention_count);
            }
        }
        proof {
            let old_active = old(self).active_view();
            let old_hist = old(self).history_view();
            let r = old(self).retention();
            assert(self.store.history_view() =~= rotated_history(old_active, old_hist, r));
        }
        Ok(())
    }
}

/// How long the history is after a whole sequence of rotations, and that an
/// active key exists as soon as one rotation has run.
proof fn lemma_rotate_many_shape(
    active: Option<Seq<u8>>,
    history: Seq<Seq<u8>>,
    retention: int,
    new_keys: Seq<Seq<u8>>,
)
    requires
        retention >= 1,
        history.len() <= retention,
        active is None ==> history.len() == 0,
    ensures
        ({
            let post = rotate_many(active, history, retention, new_keys);
            let grown: int = if active is Some {
                history.len() + new_keys.len() as int
            } else if new_keys.len() > 0 {
                new_keys.len() - 1
            } else {
                history.len() as int
            };
            &&& post.1.len() == (if grown <= retention {
                grown
            } else {
                retention
            })
            &&& (post.0 is Some <==> (active is Some || new_keys.len() > 0))
        }),
    decreases new_keys.len(),
{
    if new_keys.len() > 0 {
        lemma_rotate_many_shape(
            Some(new_keys[0]),
            rotated_history(active, history, retention),
            retention,
            new_keys.drop_first(),
        );
    }
}

/// Bounded history: any sequence of more rotations than the retention bound
/// leaves the history at exactly the bound, never beyond it.
pub proof fn lemma_bounded_history(
    active: Option<Seq<u8>>,
    history: Seq<Seq<u8>>,
    retention: int,
    new_keys: Seq<Seq<u8>>,
)
    requires
        retention >= 1,
        history.len() <= retention,
        active is None ==> history.len() == 0,
        new_keys.len() > retention,
    ensures
        rotate_many(active, history, retention, new_keys).1.len() == retention,
{
    lemma_rotate_many_shape(active, history, retention, new_keys);
}

/// Where every key stands after a sequence of rotations on a populated
/// store: the freshest drawn key is active, the next-freshest fill the
/// history, and only then come the keys that were there before.
proof fn lemma_rotate_many_exact(
    active: Option<Seq<u8>>,
    history: Seq<Seq<u8>>,
    retention: int,
    new_keys: Seq<Seq<u8>>,
)
    requires
        retention >= 1,
        history.len() <= retention,
        active is Some,
        new_keys.len() >= 1,
    ensures
        ({
            let post = rotate_many(active, history, retention, new_keys);
            let n = new_keys.len() as int;
            let grown = history.len() + n;
            &&& post.0 == Some(new_keys[n - 1])
            &&& post.1.len() == (if grown <= retention {
                grown
            } else {
                retention
            })
            &&& (forall|i: int|
                0 <= i < post.1.len() ==> post.1[i] == (if i < n - 1 {
                    new_keys[n - 2 - i]
                } else if i == n - 1 {
                    active.unwrap()
                } else {
                    history[i - n]
                }))
        }),
    decreases new_keys.len(),
{
    let n = new_keys.len() as int;
    let stepped = rotated_history(active, history, retention);
    lemma_rotated_history_shift(active.unwrap(), history, retention);
    if n > 1 {
        lemma_rotate_many_exact(Some(new_keys[0]), stepped, retention, new_keys.drop_first());
        let post = rotate_many(active, history, retention, new_keys);
        assert forall|i: int| 0 <= i < post.1.len() implies post.1[i] == (if i < n - 1 {
            new_keys[n - 2 - i]
        } else if i == n - 1 {
            active.unwrap()
        } else {
            history[i - n]
        }) by {
            if i < n - 2 {
                assert(post.1[i] == new_keys.drop_first()[n - 3 - i]);
                assert(new_keys.drop_first()[n - 3 - i] == new_keys[n - 2 - i]);
            } else if i == n - 2 {
            } else {
                assert(post.1[i] == stepped[i - (n - 1)]);
            }
        }
    }
}

/// Aging out: after more rotations than the retention bound, the candidate
/// keys — the active key and the whole history — are exactly the freshest
/// `retention + 1` drawn keys, newest first. A key rotated out that long ago
/// is no longer among them, so a blob only it authenticates has become
/// unrecoverable.
pub proof fn lemma_candidate_window(
    active: Option<Seq<u8>>,
    history: Seq<Seq<u8>>,
    retention: int,
    new_keys: Seq<Seq<u8>>,
)
    requires
        retention >= 1,
        history.len() <= retention,
        active is Some,
        new_keys.len() > retention,
    ensures
        ({
            let post = rotate_many(active, history, retention, new_keys);
            let n = new_keys.len() as int;
            &&& post.0 == Some(new_keys[n - 1])
            &&& post.1.len() == retention
            &&& (forall|i: int| 0 <= i < retention ==> post.1[i] == new_keys[n - 2 - i])
        }),
{
    lemma_rotate_many_exact(active, history, retention, new_keys);
}

/// One rotation in detail: the retiring key stands at the front of the new
/// history and every retained key shifts back one place.
pub proof fn lemma_rotated_history_shift(a: Seq<u8>, history: Seq<Seq<u8>>, retention: int)
    requires
        retention >= 1,
        history.len() <= retention,
    ensures
        ({
            let post = rotated_history(Some(a), history, retention);
            &&& post.len() == (if history.len() + 1 <= retention {
                history.len() + 1 as int
            } else {
                retention
            })
            &&& post[0] == a
            &&& (forall|i: int| 0 <= i < post.len() - 1 ==> post[i + 1] == history[i])
        }),
{
}

} // verus!
