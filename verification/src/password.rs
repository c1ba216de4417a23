//! Password hashing and verification, independent of the key store. A hash
//! is a fresh random 128-bit salt and a slow 512-bit derivation, serialized
//! as two lowercase hex segments joined by `$`. Verification re-derives with
//! the stored salt and compares in constant time, never by direct equality.

use vstd::prelude::*;
use vstd::string::{StringSliceAdditionalSpecFns, StrSliceExecFns, StringExecFns};
use crate::errors::KeyGenerationError;
use crate::rng::random_bytes;
use crate::text::push_char;

verus! {

/// Salt length in bytes (128 bits).
pub const SALT_LEN: usize = 16;

/// Derived-key length in bytes (512 bits).
pub const DERIVED_LEN: usize = 64;

/// What the key-derivation function returns for a salt and a password: the
/// 512-bit slow derivation. A pure function of its arguments.
pub uninterp spec fn kdf_of(salt: Seq<u8>, password: Seq<u8>) -> Seq<u8>;

/// Relies on `ring::pbkdf2::derive` with `PBKDF2_HMAC_SHA512` at 100,000
/// iterations: fills the output buffer with a derivation that depends on the
/// salt and secret alone.
#[verifier::external_body]
fn derive_key(salt: &[u8], password: &[u8]) -> (r: Vec<u8>)
    ensures
        r@ == kdf_of(salt@, password@),
        r@.len() == DERIVED_LEN,
{
    let mut out = vec![0u8; 64];
    ring::pbkdf2::derive(
        ring::pbkdf2::PBKDF2_HMAC_SHA512,
        core::num::NonZeroU32::new(100_000).unwrap(),
        salt,
        password,
        &mut out,
    );
    out
}

/// Relies on `subtle::ConstantTimeEq` for byte slices: reports whether the
/// slices are equal, in time independent of where they first differ; unequal
/// lengths compare unequal.
#[verifier::external_body]
fn constant_time_eq(a: &[u8], b: &[u8]) -> (r: bool)
    ensures
        r == (a@ == b@),
{
    bool::from(subtle::ConstantTimeEq::ct_eq(a, b))
}

/// The lowercase hex digit for a value below sixteen.
pub open spec fn hex_digit(n: int) -> char {
    if n == 0 {
        '0'
    } else if n == 1 {
        '1'
    } else if n == 2 {
        '2'
    } else if n == 3 {
        '3'
    } else if n == 4 {
        '4'
    } else if n == 5 {
        '5'
    } else if n == 6 {
        '6'
    } else if n == 7 {
        '7'
    } else if n == 8 {
        '8'
    } else if n == 9 {
        '9'
    } else if n == 10 {
        'a'
    } else if n == 11 {
        'b'
    } else if n == 12 {
        'c'
    } else if n == 13 {
        'd'
    } else if n == 14 {
        'e'
    } else {
        'f'
    }
}

/// The lowercase hex spelling of a byte string: two digits per byte.
pub open spec fn hex_of(b: Seq<u8>) -> Seq<char>
    decreases b.len(),
{
    if b.len() == 0 {
        Seq::<char>::empty()
    } else {
        seq![hex_digit(b[0] as int / 16), hex_digit(b[0] as int % 16)] + hex_of(b.drop_first())
    }
}

/// Whether a character is a lowercase hex digit.
pub open spec fn is_hex_digit(c: char) -> bool {
    ('0' <= c && c <= '9') || ('a' <= c && c <= 'f')
}

/// The value of a lowercase hex digit.
pub open spec fn hex_val(c: char) -> int {
    if '0' <= c && c <= '9' {
        c as int - '0' as int
    } else {
        c as int - 'a' as int + 10
    }
}

/// What hex decoding returns: the byte string whose lowercase hex spelling
/// the input is, or `None` for odd length or a non-digit.
pub open spec fn hex_decode_spec(s: Seq<char>) -> Option<Seq<u8>>
    decreases s.len(),
{
    if s.len() % 2 != 0 {
        None
    } else if s.len() == 0 {
        Some(Seq::<u8>::empty())
    } else if !is_hex_digit(s[0]) || !is_hex_digit(s[1]) {
        None
    } else {
        match hex_decode_spec(s.skip(2)) {
            None => None,
            Some(rest) => Some(seq![(hex_val(s[0]) * 16 + hex_val(s[1])) as u8] + rest),
        }
    }
}

/// Each of the sixteen digit characters is a lowercase hex digit carrying
/// its own value.
proof fn lemma_hex_digit_val(n: int)
    requires
        0 <= n < 16,
    ensures
        is_hex_digit(hex_digit(n)),
        hex_val(hex_digit(n)) == n,
{
}

proof fn lemma_hex_of_snoc(b: Seq<u8>, x: u8)
    ensures
        hex_of(b.push(x)) == hex_of(b) + seq![
            hex_digit(x as int / 16),
            hex_digit(x as int % 16),
        ],
    decreases b.len(),
{
    if b.len() == 0 {
        assert(b.push(x).drop_first() =~= Seq::<u8>::empty());
        assert(hex_of(Seq::<u8>::empty()) == Seq::<char>::empty());
        assert(b =~= Seq::<u8>::empty());
        assert(hex_of(b.push(x)) =~= hex_of(b) + seq![
            hex_digit(x as int / 16),
            hex_digit(x as int % 16),
        ]);
    } else {
        assert(b.push(x).drop_first() =~= b.drop_first().push(x));
        lemma_hex_of_snoc(b.drop_first(), x);
        assert(hex_of(b.push(x)) =~= hex_of(b) + seq![
            hex_digit(x as int / 16),
            hex_digit(x as int % 16),
        ]);
    }
}

/// Hex spelling doubles the length.
pub proof fn lemma_hex_of_len(b: Seq<u8>)
    ensures
        hex_of(b).len() == 2 * b.len(),
    decreases b.len(),
{
    if b.len() > 0 {
        lemma_hex_of_len(b.drop_first());
    }
}

/// Every character of a hex spelling is a lowercase hex digit.
pub proof fn lemma_hex_of_digits(b: Seq<u8>)
    ensures
        forall|i: int| 0 <= i < hex_of(b).len() ==> is_hex_digit(#[trigger] hex_of(b)[i]),
    decreases b.len(),
{
    if b.len() > 0 {
        lemma_hex_of_digits(b.drop_first());
        assert forall|i: int| 0 <= i < hex_of(b).len() implies is_hex_digit(
            #[trigger] hex_of(b)[i],
        ) by {
            if i == 0 {
                lemma_hex_digit_val(b[0] as int / 16);
            } else if i == 1 {
                lemma_hex_digit_val(b[0] as int % 16);
            } else {
                assert(hex_of(b)[i] == hex_of(b.drop_first())[i - 2]);
            }
        }
    }
}

/// Decoding inverts encoding: the hex spelling of any byte string decodes to
/// exactly that byte string.
pub proof fn lemma_hex_round_trip(b: Seq<u8>)
    ensures
        hex_decode_spec(hex_of(b)) == Some(b),
    decreases b.len(),
{
    lemma_hex_of_len(b);
    if b.len() == 0 {
        assert(b =~= Seq::<u8>::empty());
    } else {
        lemma_hex_round_trip(b.drop_first());
        lemma_hex_of_len(b.drop_first());
        let s = hex_of(b);
        assert(s.skip(2) =~= hex_of(b.drop_first()));
        lemma_hex_digit_val(b[0] as int / 16);
        lemma_hex_digit_val(b[0] as int % 16);
        assert(hex_val(s[0]) * 16 + hex_val(s[1]) == b[0] as int);
        assert(seq![(hex_val(s[0]) * 16 + hex_val(s[1])) as u8] + b.drop_first() =~= b);
    }
}

/// The hex digit character for a value below sixteen.
pub(crate) fn hex_digit_char(n: u8) -> (c: char)
    requires
        n < 16,
    ensures
        c == hex_digit(n as int),
{
    match n {
        0 => '0',
        1 => '1',
        2 => '2',
        3 => '3',
        4 => '4',
        5 => '5',
        6 => '6',
        7 => '7',
        8 => '8',
        9 => '9',
        10 => 'a',
        11 => 'b',
        12 => 'c',
        13 => 'd',
        14 => 'e',
        _ => 'f',
    }
}

/// Encodes a byte string as lowercase hex, two digits per byte.
pub fn hex_encode(bytes: &[u8]) -> (r: String)
    ensures
        r@ == hex_of(bytes@),
{
    let mut out = String::new();
    let n = bytes.len();
    let mut i: usize = 0;
    while i < n
        invariant
            n == bytes@.len(),
            0 <= i <= n,
            out@ == hex_of(bytes@.take(i as int)),
        decreases n - i,
    {
        let b = bytes[i];
        push_char(&mut out, hex_digit_char(b / 16));
        push_char(&mut out, hex_digit_char(b % 16));
        proof {
            lemma_hex_of_snoc(bytes@.take(i as int), bytes@[i as int]);
            assert(bytes@.take(i as int).push(bytes@[i as int]) =~= bytes@.take(i + 1 as int));
            assert(out@ =~= hex_of(bytes@.take(i + 1 as int)));
        }
        i = i + 1;
    }
    proof {
        assert(bytes@.take(n as int) =~= bytes@);
    }
    out
}

/// An option holding a byte string with `prefix` put in front of it.
spec fn opt_with_prefix(prefix: Seq<u8>, rest: Option<Seq<u8>>) -> Option<Seq<u8>> {
    match rest {
        None => None,
        Some(r) => Some(prefix + r),
    }
}

/// Decodes a lowercase hex string, two digits per byte; `None` for odd
/// length or any character that is not a lowercase hex digit.
pub fn hex_decode(s: &str) -> (r: Option<Vec<u8>>)
    ensures
        r matches Some(v) ==> hex_decode_spec(s@) == Some(v@),
        r is None ==> hex_decode_spec(s@) is None,
{
    let n = s.unicode_len();
    if n % 2 != 0 {
        return None;
    }
    let mut out: Vec<u8> = Vec::new();
    let mut i: usize = 0;
    proof {
        assert(s@.skip(0) =~= s@);
    }
    while i < n
        invariant
            n == s@.len(),
            n % 2 == 0,
            i % 2 == 0,
            0 <= i <= n,
            hex_decode_spec(s@) == opt_with_prefix(out@, hex_decode_spec(s@.skip(i as int))),
        decreases n - i,
    {
        let hi = match hex_val_char(s.get_char(i)) {
            Some(v) => v,
            None => {
                proof {
                    assert(s@.skip(i as int)[0] == s@[i as int]);
                }
                return None;
            },
        };
        let lo = match hex_val_char(s.get_char(i + 1)) {
            Some(v) => v,
            None => {
                proof {
                    assert(s@.skip(i as int)[1] == s@[i + 1]);
                }
                return None;
            },
        };
        let b: u8 = hi * 16 + lo;
        let ghost pre = out@;
        out.push(b);
        proof {
            let tail = s@.skip(i as int);
            assert(tail[0] == s@[i as int]);
            assert(tail[1] == s@[i + 1]);
            assert(tail.skip(2) =~= s@.skip(i + 2));
            assert(b as int == hex_val(tail[0]) * 16 + hex_val(tail[1]));
            assert((hex_val(tail[0]) * 16 + hex_val(tail[1])) as u8 == b);
            match hex_decode_spec(s@.skip(i + 2)) {
                None => {},
                Some(rest) => {
                    assert(pre.push(b) + rest =~= pre + (seq![b] + rest));
                },
            }
            assert(hex_decode_spec(s@) == opt_with_prefix(out@, hex_decode_spec(s@.skip(i + 2))));
        }
        i = i + 2;
    }
    proof {
        assert(s@.skip(n as int) =~= Seq::<char>::empty());
        assert(hex_decode_spec(s@) == Some(out@));
    }
    Some(out)
}

/// The value of a lowercase hex digit character, or `None` for any other.
fn hex_val_char(c: char) -> (r: Option<u8>)
    ensures
        r matches Some(v) ==> is_hex_digit(c) && v as int == hex_val(c) && v < 16,
        r is None ==> !is_hex_digit(c),
{
    if '0' <= c && c <= '9' {
        Some((c as u32 - '0' as u32) as u8)
    } else if 'a' <= c && c <= 'f' {
        Some((c as u32 - 'a' as u32 + 10) as u8)
    } else {
        None
    }
}

/// The serialized form of a password hash: the salt's hex spelling, `$`, and
/// the derivation's hex spelling.
pub open spec fn hash_string_of(salt: Seq<u8>, derived: Seq<u8>) -> Seq<char> {
    hex_of(salt) + seq!['$'] + hex_of(derived)
}

/// Index of the first `$` in `s`, or -1 when there is none.
pub open spec fn first_dollar(s: Seq<char>) -> int
    decreases s.len(),
{
    if s.len() == 0 {
        -1
    } else if s[0] == '$' {
        0
    } else if first_dollar(s.drop_first()) < 0 {
        -1
    } else {
        first_dollar(s.drop_first()) + 1
    }
}

proof fn lemma_first_dollar_at(s: Seq<char>, i: int)
    requires
        0 <= i < s.len(),
        s[i] == '$',
        forall|j: int| 0 <= j < i ==> s[j] != '$',
    ensures
        first_dollar(s) == i,
    decreases i,
{
    if i > 0 {
        lemma_first_dollar_at(s.drop_first(), i - 1);
    }
}

proof fn lemma_first_dollar_none(s: Seq<char>)
    requires
        forall|j: int| 0 <= j < s.len() ==> s[j] != '$',
    ensures
        first_dollar(s) == -1,
    decreases s.len(),
{
    if s.len() > 0 {
        lemma_first_dollar_none(s.drop_first());
    }
}

/// What parsing a serialized hash returns: the salt bytes and derivation
/// bytes, provided the string is two hex segments joined by exactly one `$`.
pub open spec fn parse_hash(h: Seq<char>) -> Option<(Seq<u8>, Seq<u8>)> {
    let d = first_dollar(h);
    if d < 0 {
        None
    } else if exists|j: int| d < j < h.len() && h[j] == '$' {
        None
    } else {
        match (hex_decode_spec(h.take(d)), hex_decode_spec(h.skip(d + 1))) {
            (Some(salt), Some(derived)) => Some((salt, derived)),
            _ => None,
        }
    }
}

/// What `verify_password` decides: the hash parses and the derivation under
/// its salt of the offered password equals the stored derivation.
pub open spec fn spec_verify(pw: Seq<u8>, h: Seq<char>) -> bool {
    match parse_hash(h) {
        None => false,
        Some((salt, derived)) => kdf_of(salt, pw) == derived,
    }
}

/// Hashing then verifying always succeeds: the serialized form of any salt's
/// derivation of a password verifies against that same password.
pub proof fn lemma_verify_round_trip(salt: Seq<u8>, pw: Seq<u8>)
    ensures
        spec_verify(pw, hash_string_of(salt, kdf_of(salt, pw))),
{
    let derived = kdf_of(salt, pw);
    let h = hash_string_of(salt, derived);
    lemma_hex_of_len(salt);
    lemma_hex_of_len(derived);
    lemma_hex_of_digits(salt);
    lemma_hex_of_digits(derived);
    let d = 2 * salt.len() as int;
    assert(h[d] == '$');
    assert forall|j: int| 0 <= j < d implies h[j] != '$' by {
        assert(h[j] == hex_of(salt)[j]);
        assert(is_hex_digit(h[j]));
    }
    lemma_first_dollar_at(h, d);
    assert forall|j: int| d < j < h.len() implies h[j] != '$' by {
        assert(h[j] == hex_of(derived)[j - d - 1]);
        assert(is_hex_digit(h[j]));
    }
    assert(h.take(d) =~= hex_of(salt));
    assert(h.skip(d + 1) =~= hex_of(derived));
    lemma_hex_round_trip(salt);
    lemma_hex_round_trip(derived);
}

/// Derives a hash for `password` with a fresh random 128-bit salt and a slow
/// 512-bit derivation, serialized as two lowercase hex segments joined by
/// `$`. Two calls draw different salts, so their results differ with
/// overwhelming probability. Fails only when the random source fails.
pub fn hash_password(password: &str) -> (r: Result<String, KeyGenerationError>)
    ensures
        r matches Ok(h) ==> exists|salt: Seq<u8>|
            salt.len() == SALT_LEN && h@ == hash_string_of(
                salt,
                kdf_of(salt, password.spec_bytes()),
            ),
{
    let salt = match random_bytes(SALT_LEN) {
        Ok(v) => v,
        Err(e) => {
            return Err(e);
        },
    };
    let derived = derive_key(salt.as_slice(), password.as_bytes());
    let mut out = hex_encode(salt.as_slice());
    push_char(&mut out, '$');
    let derived_hex = hex_encode(derived.as_slice());
    out.append(derived_hex.as_str());
    proof {
        assert(out@ =~= hash_string_of(salt@, kdf_of(salt@, password.spec_bytes())));
    }
    Ok(out)
}

/// Re-derives with the stored salt and compares in constant time. True
/// exactly when the hash parses as two hex segments joined by one `$` and
/// the derivation of `password` under the stored salt equals the stored
/// derivation; malformed hashes verify as false, never as an error.
pub fn verify_password(password: &str, hash: &str) -> (r: bool)
    ensures
        r == spec_verify(password.spec_bytes(), hash@),
{
    let n = hash.unicode_len();
    let mut d: usize = 0;
    let mut found = false;
    let mut i: usize = 0;
    while i < n
        invariant
            n == hash@.len(),
            0 <= i <= n,
            !found ==> forall|j: int| 0 <= j < i ==> hash@[j] != '$',
            found ==> (0 <= d < i && hash@[d as int] == '$' && (forall|j: int|
                0 <= j < i && j != d ==> hash@[j] != '$')),
        decreases n - i,
    {
        if hash.get_char(i) == '$' {
            if found {
                // a second separator: the hash cannot parse
                proof {
                    lemma_first_dollar_at(hash@, d as int);
                }
                return false;
            }
            found = true;
            d = i;
        }
        i = i + 1;
    }
    if !found {
        proof {
            lemma_first_dollar_none(hash@);
        }
        return false;
    }
    proof {
        lemma_first_dollar_at(hash@, d as int);
    }
    let salt_part = hash.substring_char(0, d);
    let derived_part = hash.substring_char(d + 1, n);
    let salt = match hex_decode(salt_part) {
        Some(v) => v,
        None => {
            return false;
        },
    };
    let stored = match hex_decode(derived_part) {
        Some(v) => v,
        None => {
            return false;
        },
    };
    let derived = derive_key(salt.as_slice(), password.as_bytes());
    constant_time_eq(derived.as_slice(), stored.as_slice())
}

} // verus!
